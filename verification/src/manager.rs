//! The manager of persistence: the file that holds the development data of
//! every resource, the per-type configuration, and the saving and loading of
//! one resource in the way its mode asks for.

use vstd::prelude::*;
use vstd::slice::slice_to_vec;
use vstd::string::StringExecFns;
use vstd::utf8::encode_utf8;
use crate::clock::is_clock_reading;
use crate::data::{PersistData, PersistFile, SaveRequest, PACKAGE_VERSION, format_for_path};
use crate::error::{PersistError, PersistResult, concat_str, error_text};
use crate::mode::{PersistMode, mode_from_str, mode_named};
use crate::paths::{PlatformDirs, ProjectPaths, dev_file_for, dev_file_name, join_path, path_join, project_paths};
use crate::secure::{
    AES_GCM_MAX_PLAINTEXT, HEADER_LEN, NONCE_LEN, SALT_LEN, aes_gcm_decrypt, aes_gcm_encrypt,
    aes_gcm_seal, argon2_accepts, argon2_derive, argon2_key, base64_decoding, base64_encoding,
    base64_decode, base64_encodable_len, base64_encode, is_sealed, lemma_envelope_parts,
    open_envelope, random_bytes, seal_envelope, string_from_utf8,
};
use crate::storage::FileSystemStorage;
use crate::string_map::StringMap;
use crate::text::{lowercase, to_lowercase};

verus! {

/// Which build of the application runs: development keeps everything in
/// one local file; production puts each resource where its mode says.
#[derive(Debug, Clone, Copy, PartialEq, Eq, Structural)]
pub enum BuildProfile {
    Development,
    Production,
}

/// The platform directories as plain values.
pub open spec fn dirs_view(dirs: Option<ProjectPaths>) -> Option<(Seq<char>, Seq<char>)> {
    match dirs {
        Some(d) => Some((d.config_dir@, d.data_dir@)),
        None => None,
    }
}

/// The bytes of a secret, which is used as a password.
pub open spec fn secret_bytes(secret: Option<Seq<char>>) -> Option<Seq<u8>> {
    match secret {
        Some(s) => Some(encode_utf8(s)),
        None => None,
    }
}

/// `payload` is what secure persistence stores for `data`: sealed under the
/// secret when there is one, otherwise the base64 encoding of `data`.
pub open spec fn is_payload_of(secret: Option<Seq<char>>, data: Seq<u8>, payload: Seq<u8>) -> bool {
    match secret_bytes(secret) {
        Some(s) => is_sealed(s, data, payload),
        None => payload == base64_encoding(data),
    }
}

/// What reading a stored secure payload gives back: the opened envelope
/// with a secret, the base64 decoding without one.
pub open spec fn open_payload_spec(secret: Option<Seq<char>>, payload: Seq<u8>) -> Option<Seq<u8>> {
    match secret_bytes(secret) {
        Some(s) => open_envelope(s, payload),
        None => base64_decoding(payload),
    }
}

/// Whether sealing `data` under a secret succeeds: Argon2 takes the secret
/// and AES-GCM takes data of that length.
pub open spec fn seal_succeeds(secret: Seq<u8>, data: Seq<u8>) -> bool {
    secret.len() <= 0xFFFF_FFFF && data.len() <= AES_GCM_MAX_PLAINTEXT
}

/// `r` is an encryption error with message `m`.
pub open spec fn is_encryption_error<T>(r: PersistResult<T>, m: Seq<char>) -> bool {
    r matches Err(PersistError::EncryptionError(x)) && x@ == m
}

/// The RON text of a resource's data in the two forms that saving uses:
/// compact for secure data and pretty otherwise, or the serializer's message
/// when serializing failed.
pub struct RonForms {
    pub compact: Result<String, String>,
    pub pretty: Result<String, String>,
}

/// What saving a resource asks to be written.
pub enum WritePlan {
    /// Nothing: embedded resources are not written.
    Skip,
    /// The RON text of the data, at `path`.
    Text { path: String, text: String },
    /// The secure payload of the data, at `path`.
    Bytes { path: String, bytes: Vec<u8> },
}

/// Where loading a resource reads, and whether what it reads is a secure
/// payload.
pub struct ResourceRead {
    pub path: String,
    pub sealed: bool,
}

/// Switching auto-save for one type decides that type's auto-save, under
/// the global switch, and leaves every other type's as it was; a type that
/// was never configured is auto-saved exactly when auto-save is on globally.
pub proof fn lemma_auto_save_setting(
    m: PersistManager,
    m2: PersistManager,
    resource_name: Seq<char>,
    enabled: bool,
    other: Seq<char>,
)
    requires
        m2.auto_save == m.auto_save,
        m2.auto_save_types@ == m.auto_save_types@.insert(resource_name, enabled),
        other != resource_name,
    ensures
        m2.auto_save_for(resource_name) == (m.auto_save && enabled),
        m2.auto_save_for(other) == m.auto_save_for(other),
        !m.auto_save_types@.dom().contains(other) ==> m.auto_save_for(other) == m.auto_save,
{
}

/// The mode set for a type is the mode it then has; other types keep
/// theirs; a type with no mode set has `Dev`.
pub proof fn lemma_mode_setting(
    m: PersistManager,
    m2: PersistManager,
    resource_name: Seq<char>,
    mode: PersistMode,
    other: Seq<char>,
)
    requires
        m2.type_modes() == m.type_modes().insert(resource_name, mode),
        other != resource_name,
    ensures
        m2.mode_for(resource_name) == mode,
        m2.mode_for(other) == m.mode_for(other),
        !m.type_modes().dom().contains(other) ==> m.mode_for(other) == PersistMode::Dev,
{
}

/// In development every resource, whatever its mode, is persisted in the
/// development file.
pub proof fn lemma_development_uses_dev_file(
    m: PersistManager,
    resource_name: Seq<char>,
    mode: PersistMode,
    dirs: Option<(Seq<char>, Seq<char>)>,
)
    requires
        m.profile == BuildProfile::Development,
    ensures
        m.resource_path(resource_name, mode, dirs) == m.dev_file@,
        m.main_file() == m.dev_file@,
{
}

/// In every build the main file, which `save` writes and `load` reads, is
/// where a `Dev` resource is persisted, whatever the platform's
/// directories; in production it is the fallback file named after the
/// application.
pub proof fn lemma_main_file_is_dev_resource_path(
    m: PersistManager,
    resource_name: Seq<char>,
    dirs: Option<(Seq<char>, Seq<char>)>,
)
    ensures
        m.main_file() == m.resource_path(resource_name, PersistMode::Dev, dirs),
        m.is_resource_path(resource_name, PersistMode::Dev, m.main_file()),
        m.profile == BuildProfile::Production ==> m.main_file() == dev_file_for(m.app_name@),
        m.profile == BuildProfile::Development ==> m.main_file() == m.dev_file@,
{
}

/// Saving a resource writes where loading it reads: always in development
/// and for `Dev` and `Embed` resources, and for `Dynamic` and `Secure`
/// resources in production whenever the platform gave the same directories
/// both times it was asked.
pub proof fn lemma_save_and_load_meet(
    m: PersistManager,
    resource_name: Seq<char>,
    mode: PersistMode,
    saved_at: Seq<char>,
    read_at: Seq<char>,
    saved_with: PlatformDirs,
    read_with: PlatformDirs,
)
    requires
        m.is_resource_path(resource_name, mode, saved_at),
        m.is_resource_path(resource_name, mode, read_at),
        m.asks_platform(mode) ==> {
            &&& m.asked_with(saved_with, resource_name, mode, saved_at)
            &&& m.asked_with(read_with, resource_name, mode, read_at)
            &&& saved_with.answer() == read_with.answer()
        },
    ensures
        saved_at == read_at,
{
}

/// Resource that manages persistence.
pub struct PersistManager {
    /// The development file, where every resource is saved in development.
    pub dev_file: String,
    /// Application info for platform-specific paths.
    pub app_name: String,
    pub organization: String,
    /// Cached persist file.
    pub persist_file: PersistFile,
    /// Whether auto-save is enabled globally.
    pub auto_save: bool,
    /// Which types have auto-save enabled or disabled.
    pub auto_save_types: StringMap<bool>,
    /// Persistence modes of types.
    pub persist_modes: StringMap<PersistMode>,
    /// Embed file paths of types.
    pub embed_files: StringMap<String>,
    /// Secret for encrypting secure persistence.
    pub secret: Option<String>,
    /// The build that runs.
    pub profile: BuildProfile,
    /// Storage backend.
    pub storage: FileSystemStorage,
}

impl PersistManager {
    /// The cached persist file.
    pub open spec fn file(self) -> PersistFile {
        self.persist_file
    }

    /// The modes set for types.
    pub open spec fn type_modes(self) -> Map<Seq<char>, PersistMode> {
        self.persist_modes@
    }

    /// The embed files set for types.
    pub open spec fn type_embed_files(self) -> Map<Seq<char>, String> {
        self.embed_files@
    }

    /// The secret, if one is configured.
    pub open spec fn secret_text(self) -> Option<Seq<char>> {
        match self.secret {
            Some(s) => Some(s@),
            None => None,
        }
    }

    /// Whether auto-save is on for a type: globally on, and not switched
    /// off for the type.
    pub open spec fn auto_save_for(self, resource_name: Seq<char>) -> bool {
        self.auto_save && (if self.auto_save_types@.dom().contains(resource_name) {
            self.auto_save_types@[resource_name]
        } else {
            true
        })
    }

    /// The mode of a type: the one set for it, `Dev` otherwise.
    pub open spec fn mode_for(self, resource_name: Seq<char>) -> PersistMode {
        if self.type_modes().dom().contains(resource_name) {
            self.type_modes()[resource_name]
        } else {
            PersistMode::Dev
        }
    }

    /// The file that `save` writes and `load` reads: the development file in
    /// development, and in production the fallback file named after the
    /// application.
    pub open spec fn main_file(self) -> Seq<char> {
        match self.profile {
            BuildProfile::Development => self.dev_file@,
            BuildProfile::Production => dev_file_for(self.app_name@),
        }
    }

    /// Where a resource of a mode is persisted, given the platform's
    /// directories (configuration, data) if it has them.
    pub open spec fn resource_path(
        self,
        resource_name: Seq<char>,
        mode: PersistMode,
        dirs: Option<(Seq<char>, Seq<char>)>,
    ) -> Seq<char> {
        match self.profile {
            BuildProfile::Development => self.dev_file@,
            BuildProfile::Production => match mode {
                PersistMode::Dev => dev_file_for(self.app_name@),
                PersistMode::Embed => Seq::<char>::empty(),
                PersistMode::Dynamic => match dirs {
                    Some((config, _)) => path_join(config, lowercase(resource_name) + ".ron"@),
                    None => lowercase(resource_name) + ".ron"@,
                },
                PersistMode::Secure => match dirs {
                    Some((_, data)) => path_join(data, lowercase(resource_name) + ".dat"@),
                    None => lowercase(resource_name) + ".dat"@,
                },
            },
        }
    }

    /// Whether finding where a resource of a mode is persisted asks the
    /// platform for its directories: in production, for `Dynamic` and
    /// `Secure`.
    pub open spec fn asks_platform(self, mode: PersistMode) -> bool {
        self.profile == BuildProfile::Production && (mode == PersistMode::Dynamic || mode
            == PersistMode::Secure)
    }

    /// `path` is where a resource of a mode is persisted: by the directories
    /// that the platform gave when asked about this manager's organization
    /// and application, where the platform is asked; otherwise the one path
    /// that needs no directories.
    pub open spec fn is_resource_path(
        self,
        resource_name: Seq<char>,
        mode: PersistMode,
        path: Seq<char>,
    ) -> bool {
        if self.asks_platform(mode) {
            exists|answer: PlatformDirs| #[trigger]
                self.asked_with(answer, resource_name, mode, path)
        } else {
            path == self.resource_path(resource_name, mode, None)
        }
    }

    /// `path` is where a resource of a mode is persisted by the directories
    /// in `answer`, which the platform gave when asked about this manager's
    /// organization and application.
    pub open spec fn asked_with(
        self,
        answer: PlatformDirs,
        resource_name: Seq<char>,
        mode: PersistMode,
        path: Seq<char>,
    ) -> bool {
        &&& answer.asked() == (self.organization@, self.app_name@)
        &&& path == self.resource_path(resource_name, mode, dirs_view(answer.answer()))
    }

    /// Everything but the cached file is as in `other`.
    pub open spec fn same_settings(self, other: Self) -> bool {
        &&& self.dev_file == other.dev_file
        &&& self.app_name == other.app_name
        &&& self.organization == other.organization
        &&& self.auto_save == other.auto_save
        &&& self.auto_save_types@ == other.auto_save_types@
        &&& self.type_modes() == other.type_modes()
        &&& self.type_embed_files() == other.type_embed_files()
        &&& self.secret_text() == other.secret_text()
        &&& self.profile == other.profile
        &&& self.storage == other.storage
    }

    /// Creates a new PersistManager for an application of an organization:
    /// auto-save on, nothing configured for any type, no secret, the
    /// development build, and an empty cached file.  The development file is
    /// named after the application (`mygame_dev.ron` for `MyGame`); what it
    /// holds is read by `load`.
    pub fn new(organization: &str, app_name: &str) -> (m: Self)
        ensures
            m.organization@ == organization@,
            m.app_name@ == app_name@,
            m.dev_file@ == dev_file_for(app_name@),
            m.auto_save,
            m.auto_save_types@ == Map::<Seq<char>, bool>::empty(),
            m.type_modes() == Map::<Seq<char>, PersistMode>::empty(),
            m.type_embed_files() == Map::<Seq<char>, String>::empty(),
            m.secret_text() is None,
            m.profile == BuildProfile::Development,
            m.file().type_data@ == Map::<Seq<char>, PersistData>::empty(),
            m.file().version@ == PACKAGE_VERSION@,
    {
        PersistManager {
            dev_file: dev_file_name(app_name),
            app_name: String::from_str(app_name),
            organization: String::from_str(organization),
            persist_file: PersistFile::new(),
            auto_save: true,
            auto_save_types: StringMap::new(),
            persist_modes: StringMap::new(),
            embed_files: StringMap::new(),
            secret: None,
            profile: BuildProfile::Development,
            storage: FileSystemStorage::new(),
        }
    }

    /// Sets the secret for encrypting secure persistence.
    pub fn with_secret(self, secret: &str) -> (m: Self)
        ensures
            m.secret_text() == Some(secret@),
            m.file() == self.file(),
            m.dev_file == self.dev_file,
            m.app_name == self.app_name,
            m.organization == self.organization,
            m.auto_save == self.auto_save,
            m.auto_save_types@ == self.auto_save_types@,
            m.type_modes() == self.type_modes(),
            m.type_embed_files() == self.type_embed_files(),
            m.profile == self.profile,
            m.storage == self.storage,
    {
        PersistManager { secret: Some(String::from_str(secret)), ..self }
    }

    /// Sets which build runs.
    pub fn with_profile(self, profile: BuildProfile) -> (m: Self)
        ensures
            m.profile == profile,
            m.file() == self.file(),
            m.dev_file == self.dev_file,
            m.app_name == self.app_name,
            m.organization == self.organization,
            m.auto_save == self.auto_save,
            m.auto_save_types@ == self.auto_save_types@,
            m.type_modes() == self.type_modes(),
            m.type_embed_files() == self.type_embed_files(),
            m.secret_text() == self.secret_text(),
            m.storage == self.storage,
    {
        PersistManager { profile, ..self }
    }

    /// Derives the encryption key for a salt from the secret: `None`
    /// without a secret or when Argon2 refuses the secret or the salt.
    pub fn derive_key(&self, salt: &[u8]) -> (r: Option<Vec<u8>>)
        ensures
            match secret_bytes(self.secret_text()) {
                None => r is None,
                Some(s) => (r is Some <==> argon2_accepts(s, salt@)) && (r matches Some(k) ==> k@
                    == argon2_key(s, salt@) && k@.len() == 32),
            },
    {
        match &self.secret {
            Some(s) => argon2_derive(s.as_str().as_bytes(), salt),
            None => None,
        }
    }

    /// Seals `data` with a given salt and nonce: the salt, the nonce, and
    /// the AES-256-GCM encryption of the data under the key derived from the
    /// secret and the salt.
    pub fn encrypt_data_with(&self, salt: &[u8], nonce: &[u8], data: &[u8]) -> (r: PersistResult<
        Vec<u8>,
    >)
        requires
            salt@.len() == SALT_LEN,
            nonce@.len() == NONCE_LEN,
        ensures
            r is Err ==> (r matches Err(PersistError::EncryptionError(_))),
            match secret_bytes(self.secret_text()) {
                None => is_encryption_error(r, "No secret configured for secure persistence"@),
                Some(s) => {
                    &&& (r is Ok <==> seal_succeeds(s, data@))
                    &&& r matches Ok(v) ==> v@ == seal_envelope(s, salt@, nonce@, data@)
                    &&& r matches Ok(v) ==> v@.len() == HEADER_LEN + data@.len() + 16
                    &&& r matches Ok(v) ==> is_sealed(s, data@, v@)
                    &&& !argon2_accepts(s, salt@) ==> is_encryption_error(
                        r,
                        "Failed to derive encryption key"@,
                    )
                    &&& argon2_accepts(s, salt@) && data@.len() > AES_GCM_MAX_PLAINTEXT
                        ==> is_encryption_error(r, "Encryption failed: aead::Error"@)
                },
            },
    {
        if self.secret.is_none() {
            return Err(
                PersistError::EncryptionError(
                    String::from_str("No secret configured for secure persistence"),
                ),
            );
        }
        let key = match self.derive_key(salt) {
            Some(k) => k,
            None => {
                return Err(
                    PersistError::EncryptionError(String::from_str("Failed to derive encryption key")),
                );
            },
        };
        let ciphertext = match aes_gcm_encrypt(key.as_slice(), nonce, data) {
            Some(c) => c,
            None => {
                return Err(
                    PersistError::EncryptionError(String::from_str("Encryption failed: aead::Error")),
                );
            },
        };
        let mut result: Vec<u8> = Vec::new();
        let mut salt_part = slice_to_vec(salt);
        let mut nonce_part = slice_to_vec(nonce);
        let mut cipher_part = ciphertext;
        result.append(&mut salt_part);
        result.append(&mut nonce_part);
        result.append(&mut cipher_part);
        proof {
            let s = secret_bytes(self.secret_text()).unwrap();
            assert(result@ =~= seal_envelope(s, salt@, nonce@, data@));
        }
        Ok(result)
    }

    /// Seals `data` for secure persistence with a random salt and nonce.
    pub fn encrypt_data(&self, data: &[u8]) -> (r: PersistResult<Vec<u8>>)
        ensures
            r is Err ==> (r matches Err(PersistError::EncryptionError(_))),
            match secret_bytes(self.secret_text()) {
                None => is_encryption_error(r, "No secret configured for secure persistence"@),
                Some(s) => {
                    &&& (r is Ok <==> seal_succeeds(s, data@))
                    &&& r matches Ok(v) ==> is_sealed(s, data@, v@)
                    &&& r matches Ok(v) ==> v@.len() == HEADER_LEN + data@.len() + 16
                    &&& s.len() > 0xFFFF_FFFF ==> is_encryption_error(
                        r,
                        "Failed to derive encryption key"@,
                    )
                    &&& s.len() <= 0xFFFF_FFFF && data@.len() > AES_GCM_MAX_PLAINTEXT
                        ==> is_encryption_error(r, "Encryption failed: aead::Error"@)
                },
            },
    {
        let salt = random_bytes(SALT_LEN);
        let nonce = random_bytes(NONCE_LEN);
        let r = self.encrypt_data_with(salt.as_slice(), nonce.as_slice(), data);
        proof {
            if let Some(s) = secret_bytes(self.secret_text()) {
                if r.is_ok() {
                    assert(seal_envelope(s, salt@, nonce@, data@) == r.unwrap()@);
                }
            }
        }
        r
    }

    /// Opens an envelope of secure persistence.  With the secret it was
    /// sealed under, this gives back the data that was sealed.
    pub fn decrypt_data(&self, encrypted: &[u8]) -> (r: PersistResult<Vec<u8>>)
        ensures
            r is Err ==> (r matches Err(PersistError::EncryptionError(_))),
            match secret_bytes(self.secret_text()) {
                None => is_encryption_error(r, "No secret configured for secure persistence"@),
                Some(s) => {
                    &&& match r {
                        Ok(v) => open_envelope(s, encrypted@) == Some(v@),
                        Err(_) => open_envelope(s, encrypted@) is None,
                    }
                    &&& encrypted@.len() < HEADER_LEN ==> is_encryption_error(
                        r,
                        "Invalid encrypted data format"@,
                    )
                    &&& encrypted@.len() >= HEADER_LEN && !argon2_accepts(
                        s,
                        encrypted@.subrange(0, SALT_LEN as int),
                    ) ==> is_encryption_error(r, "Failed to derive decryption key"@)
                    &&& encrypted@.len() >= HEADER_LEN && argon2_accepts(
                        s,
                        encrypted@.subrange(0, SALT_LEN as int),
                    ) && r is Err ==> is_encryption_error(r, "Decryption failed: aead::Error"@)
                    &&& encrypted@.len() < HEADER_LEN + 16 ==> r is Err
                    &&& forall|d: Seq<u8>|
                        #[trigger] is_sealed(s, d, encrypted@) ==> r.is_ok() && r.unwrap()@ == d
                },
            },
    {
        if self.secret.is_none() {
            return Err(
                PersistError::EncryptionError(
                    String::from_str("No secret configured for secure persistence"),
                ),
            );
        }
        if encrypted.len() < HEADER_LEN {
            proof {
                let s = secret_bytes(self.secret_text()).unwrap();
                assert forall|d: Seq<u8>| is_sealed(s, d, encrypted@) implies false by {
                    let (salt, nonce) = choose|salt: Seq<u8>, nonce: Seq<u8>|
                        salt.len() == SALT_LEN && nonce.len() == NONCE_LEN && argon2_accepts(s, salt)
                            && d.len() <= AES_GCM_MAX_PLAINTEXT && #[trigger] seal_envelope(
                            s,
                            salt,
                            nonce,
                            d,
                        ) == encrypted@;
                    lemma_envelope_parts(s, salt, nonce, d);
                }
            }
            return Err(
                PersistError::EncryptionError(String::from_str("Invalid encrypted data format")),
            );
        }
        let salt = &encrypted[0..SALT_LEN];
        let nonce = &encrypted[SALT_LEN..HEADER_LEN];
        let ciphertext = &encrypted[HEADER_LEN..encrypted.len()];
        let key = match self.derive_key(salt) {
            Some(k) => k,
            None => {
                proof {
                    let s = secret_bytes(self.secret_text()).unwrap();
                    assert forall|d: Seq<u8>| is_sealed(s, d, encrypted@) implies false by {
                        let (sa, no) = choose|sa: Seq<u8>, no: Seq<u8>|
                            sa.len() == SALT_LEN && no.len() == NONCE_LEN && argon2_accepts(s, sa)
                                && d.len() <= AES_GCM_MAX_PLAINTEXT && #[trigger] seal_envelope(
                                s,
                                sa,
                                no,
                                d,
                            ) == encrypted@;
                        lemma_envelope_parts(s, sa, no, d);
                    }
                }
                return Err(
                    PersistError::EncryptionError(String::from_str("Failed to derive decryption key")),
                );
            },
        };
        let r = aes_gcm_decrypt(key.as_slice(), nonce, ciphertext);
        proof {
            let s = secret_bytes(self.secret_text()).unwrap();
            assert forall|d: Seq<u8>| is_sealed(s, d, encrypted@) implies r.is_some() && r.unwrap()@
                == d by {
                let (sa, no) = choose|sa: Seq<u8>, no: Seq<u8>|
                    sa.len() == SALT_LEN && no.len() == NONCE_LEN && argon2_accepts(s, sa) && d.len()
                        <= AES_GCM_MAX_PLAINTEXT && #[trigger] seal_envelope(s, sa, no, d)
                        == encrypted@;
                lemma_envelope_parts(s, sa, no, d);
                assert(aes_gcm_seal(key@, nonce@, d) == ciphertext@);
            }
        }
        match r {
            Some(p) => Ok(p),
            None => Err(PersistError::EncryptionError(String::from_str("Decryption failed: aead::Error"))),
        }
    }

    /// The file that `save` writes and `load` reads.
    pub fn main_file_path(&self) -> (p: String)
        ensures
            p@ == self.main_file(),
    {
        match self.profile {
            BuildProfile::Development => self.dev_file.clone(),
            BuildProfile::Production => dev_file_name(self.app_name.as_str()),
        }
    }

    /// Where a resource of a mode is persisted, given the platform's
    /// directories: in development, the development file for every mode; in
    /// production, the fallback file for `Dev`, no path for `Embed`, and
    /// `<name>.ron` in the configuration directory for `Dynamic` and
    /// `<name>.dat` in the data directory for `Secure` (the name in lower
    /// case; without platform directories, in the current directory).
    pub fn resource_path_for(
        &self,
        resource_name: &str,
        mode: PersistMode,
        dirs: &Option<ProjectPaths>,
    ) -> (p: String)
        ensures
            p@ == self.resource_path(resource_name@, mode, dirs_view(*dirs)),
    {
        match self.profile {
            BuildProfile::Development => self.dev_file.clone(),
            BuildProfile::Production => match mode {
                PersistMode::Dev => dev_file_name(self.app_name.as_str()),
                PersistMode::Embed => String::new(),
                PersistMode::Dynamic => {
                    let lower = to_lowercase(resource_name);
                    let file = concat_str(lower.as_str(), ".ron");
                    match dirs {
                        Some(d) => join_path(d.config_dir.as_str(), file.as_str()),
                        None => file,
                    }
                },
                PersistMode::Secure => {
                    let lower = to_lowercase(resource_name);
                    let file = concat_str(lower.as_str(), ".dat");
                    match dirs {
                        Some(d) => join_path(d.data_dir.as_str(), file.as_str()),
                        None => file,
                    }
                },
            },
        }
    }

    /// Gets the path for a resource based on its mode.  The platform's
    /// directories are looked up only in production for `Dynamic` and
    /// `Secure`; what they are depends on the environment.  The caller
    /// creates the directory of the path before writing to it.
    pub fn get_resource_path(&self, resource_name: &str, mode: PersistMode) -> (p: String)
        ensures
            self.is_resource_path(resource_name@, mode, p@),
    {
        if self.profile == BuildProfile::Production && (mode == PersistMode::Dynamic || mode
            == PersistMode::Secure) {
            let answer = project_paths(self.organization.as_str(), self.app_name.as_str());
            let p = self.resource_path_for(resource_name, mode, answer.directories());
            proof {
                assert(self.resource_path(resource_name@, mode, dirs_view(answer.answer())) == p@);
                assert(self.asked_with(answer, resource_name@, mode, p@));
            }
            p
        } else {
            let p = self.resource_path_for(resource_name, mode, &None);
            proof {
                assert(self.resource_path(resource_name@, mode, None) == p@);
            }
            p
        }
    }

    /// Prepares saving all persistent data: stamps the cached file and tells
    /// where and in which format it is written.
    pub fn save(&mut self) -> (r: SaveRequest)
        ensures
            final(self).same_settings(*old(self)),
            final(self).file().type_data == old(self).file().type_data,
            final(self).file().version == old(self).file().version,
            final(self).file().last_saved@.len() > 0,
            is_clock_reading(final(self).file().last_saved@),
            r.path@ == old(self).main_file(),
            r.format == format_for_path(old(self).main_file()),
    {
        let path = self.main_file_path();
        self.persist_file.save_to_file(path.as_str())
    }

    /// Reloads persistent data from what loading the main file gave: the
    /// file replaces the cached one, and an error is passed on with the
    /// cached file left as it was.
    pub fn load(&mut self, loaded: PersistResult<PersistFile>) -> (r: PersistResult<()>)
        ensures
            final(self).same_settings(*old(self)),
            match loaded {
                Ok(f) => r is Ok && final(self).file() == f,
                Err(e) => r == Err::<(), PersistError>(e) && final(self).file() == old(self).file(),
            },
    {
        match loaded {
            Ok(f) => {
                self.persist_file = f;
                Ok(())
            },
            Err(e) => Err(e),
        }
    }

    /// Gets a reference to the underlying persist file.
    pub fn get_persist_file(&self) -> (f: &PersistFile)
        ensures
            *f == self.file(),
    {
        &self.persist_file
    }

    /// Gets a mutable reference to the underlying persist file.
    pub fn get_persist_file_mut(&mut self) -> (f: &mut PersistFile)
        ensures
            *f == old(self).file(),
            final(self).file() == *final(f),
            final(self).same_settings(*old(self)),
    {
        &mut self.persist_file
    }

    /// Checks if auto-save is enabled for a specific type: auto-save is on
    /// globally and has not been switched off for the type.
    pub fn is_auto_save_enabled(&self, resource_name: &str) -> (b: bool)
        ensures
            b == self.auto_save_for(resource_name@),
    {
        if !self.auto_save {
            return false;
        }
        match self.auto_save_types.get(resource_name) {
            Some(enabled) => *enabled,
            None => true,
        }
    }

    /// Sets whether auto-save is enabled for a specific type.
    pub fn set_type_auto_save(&mut self, resource_name: String, enabled: bool)
        ensures
            final(self).auto_save_types@ == old(self).auto_save_types@.insert(resource_name@, enabled),
            final(self).file() == old(self).file(),
            final(self).auto_save == old(self).auto_save,
            final(self).type_modes() == old(self).type_modes(),
            final(self).type_embed_files() == old(self).type_embed_files(),
            final(self).secret_text() == old(self).secret_text(),
            final(self).profile == old(self).profile,
            final(self).dev_file == old(self).dev_file,
            final(self).organization == old(self).organization,
            final(self).app_name == old(self).app_name,
            final(self).storage == old(self).storage,
    {
        self.auto_save_types.insert(resource_name, enabled);
    }

    /// Sets the persistence mode for a specific type.
    pub fn set_type_mode(&mut self, resource_name: String, mode: PersistMode)
        ensures
            final(self).type_modes() == old(self).type_modes().insert(resource_name@, mode),
            final(self).file() == old(self).file(),
            final(self).auto_save == old(self).auto_save,
            final(self).auto_save_types@ == old(self).auto_save_types@,
            final(self).type_embed_files() == old(self).type_embed_files(),
            final(self).secret_text() == old(self).secret_text(),
            final(self).profile == old(self).profile,
            final(self).dev_file == old(self).dev_file,
            final(self).organization == old(self).organization,
            final(self).app_name == old(self).app_name,
            final(self).storage == old(self).storage,
    {
        self.persist_modes.insert(resource_name, mode);
    }

    /// Gets the persistence mode for a specific type: the one set for it,
    /// `Dev` when none was.
    pub fn get_type_mode(&self, resource_name: &str) -> (m: PersistMode)
        ensures
            m == self.mode_for(resource_name@),
    {
        match self.persist_modes.get(resource_name) {
            Some(m) => *m,
            None => PersistMode::Dev,
        }
    }

    /// Sets the embed file path for a specific type.
    pub fn set_type_embed_file(&mut self, resource_name: String, file_path: String)
        ensures
            final(self).type_embed_files() == old(self).type_embed_files().insert(
                resource_name@,
                file_path,
            ),
            final(self).file() == old(self).file(),
            final(self).auto_save == old(self).auto_save,
            final(self).auto_save_types@ == old(self).auto_save_types@,
            final(self).type_modes() == old(self).type_modes(),
            final(self).secret_text() == old(self).secret_text(),
            final(self).profile == old(self).profile,
            final(self).dev_file == old(self).dev_file,
            final(self).organization == old(self).organization,
            final(self).app_name == old(self).app_name,
            final(self).storage == old(self).storage,
    {
        self.embed_files.insert(resource_name, file_path);
    }

    /// Gets the embed file path for a specific type.
    pub fn get_type_embed_file(&self, resource_name: &str) -> (r: Option<&String>)
        ensures
            match r {
                Some(f) => self.type_embed_files().dom().contains(resource_name@)
                    && self.type_embed_files()[resource_name@] == *f,
                None => !self.type_embed_files().dom().contains(resource_name@),
            },
    {
        self.embed_files.get(resource_name)
    }

    /// Records what a registered type declares: its mode, by the mode's
    /// name, and the file it is embedded from, if it names one.
    pub fn register_type(&mut self, resource_name: &str, persist_mode: &str, embed_file: Option<&str>)
        ensures
            final(self).type_modes() == old(self).type_modes().insert(
                resource_name@,
                mode_named(persist_mode@),
            ),
            match embed_file {
                Some(f) => final(self).type_embed_files().dom().contains(resource_name@)
                    && final(self).type_embed_files()[resource_name@]@ == f@
                    && final(self).type_embed_files().remove(resource_name@)
                    == old(self).type_embed_files().remove(resource_name@),
                None => final(self).type_embed_files() == old(self).type_embed_files(),
            },
            final(self).file() == old(self).file(),
            final(self).auto_save == old(self).auto_save,
            final(self).auto_save_types@ == old(self).auto_save_types@,
            final(self).secret_text() == old(self).secret_text(),
            final(self).profile == old(self).profile,
            final(self).dev_file == old(self).dev_file,
            final(self).organization == old(self).organization,
            final(self).app_name == old(self).app_name,
            final(self).storage == old(self).storage,
    {
        let mode = mode_from_str(persist_mode);
        self.set_type_mode(String::from_str(resource_name), mode);
        if let Some(f) = embed_file {
            self.set_type_embed_file(String::from_str(resource_name), String::from_str(f));
            proof {
                assert(final(self).type_embed_files().remove(resource_name@) =~= old(
                    self,
                ).type_embed_files().remove(resource_name@));
            }
        }
    }

    /// The payload that secure persistence stores for `data`: the data
    /// sealed under the secret when there is one, otherwise its base64
    /// encoding.
    pub fn seal_payload(&self, data: &[u8]) -> (r: PersistResult<Vec<u8>>)
        requires
            self.secret_text() is None ==> base64_encodable_len(data@.len() as int),
        ensures
            match secret_bytes(self.secret_text()) {
                Some(s) => (r is Ok <==> seal_succeeds(s, data@)) && (r is Err ==> r matches Err(
                    PersistError::EncryptionError(_),
                )),
                None => r is Ok,
            },
            r matches Ok(p) ==> is_payload_of(self.secret_text(), data@, p@),
    {
        if self.secret.is_some() {
            self.encrypt_data(data)
        } else {
            Ok(base64_encode(data))
        }
    }

    /// The data that a stored secure payload holds: the opened envelope with
    /// a secret, the base64 decoding without one.  A payload stored for some
    /// data gives that data back.
    pub fn open_payload(&self, payload: &[u8]) -> (r: PersistResult<Vec<u8>>)
        ensures
            match r {
                Ok(d) => open_payload_spec(self.secret_text(), payload@) == Some(d@),
                Err(e) => open_payload_spec(self.secret_text(), payload@) is None
                    && e is EncryptionError,
            },
            self.secret_text() is None ==> (r is Err ==> (r matches Err(
                PersistError::EncryptionError(m),
            ) && exists|x: Seq<char>| m@ == "Failed to decode base64: "@ + x)),
            forall|d: Seq<u8>|
                #[trigger] is_payload_of(self.secret_text(), d, payload@) ==> r.is_ok()
                    && r.unwrap()@ == d,
    {
        if self.secret.is_some() {
            let r = self.decrypt_data(payload);
            proof {
                let s = secret_bytes(self.secret_text()).unwrap();
                assert(secret_bytes(self.secret_text()) == Some(s));
                assert(open_payload_spec(self.secret_text(), payload@) == open_envelope(s, payload@));
                assert forall|d: Seq<u8>| #[trigger] is_payload_of(self.secret_text(), d, payload@) implies r.is_ok()
                    && r.unwrap()@ == d by {
                    assert(is_sealed(s, d, payload@));
                }
                if r.is_ok() {
                    assert(open_envelope(s, payload@) == Some(r.unwrap()@));
                }
            }
            r
        } else {
            match base64_decode(payload) {
                Ok(d) => {
                    assert(open_payload_spec(self.secret_text(), payload@) == Some(d@));
                    Ok(d)
                },
                Err(m) => {
                    let msg = concat_str("Failed to decode base64: ", m.as_str());
                    proof {
                        assert(msg@ == "Failed to decode base64: "@ + m@);
                    }
                    Err(PersistError::EncryptionError(msg))
                },
            }
        }
    }

    /// Saves a resource based on its persistence mode: what is to be written
    /// where.  Embedded resources are not written.  Secure resources are
    /// written as the payload of their compact RON text at their secure
    /// path; other resources as their pretty RON text at their path.  A
    /// failed serialization, or a failed sealing, is an error.  Meant for
    /// production builds; in development every resource's path is the
    /// development file, so a resource saved this way there overwrites that
    /// file with its own text or payload.
    pub fn save_resource(&self, resource_name: &str, ron: &RonForms, mode: PersistMode) -> (r:
        PersistResult<WritePlan>)
        requires
            mode == PersistMode::Secure && self.secret_text() is None ==> (ron.compact matches Ok(
                t,
            ) ==> base64_encodable_len(encode_utf8(t@).len() as int)),
        ensures
            match mode {
                PersistMode::Embed => r matches Ok(WritePlan::Skip),
                PersistMode::Secure => match ron.compact {
                    Err(m) => r matches Err(PersistError::SerializationError(x)) && x == m,
                    Ok(t) => {
                        &&& match secret_bytes(self.secret_text()) {
                            Some(s) => r is Ok <==> seal_succeeds(s, encode_utf8(t@)),
                            None => r is Ok,
                        }
                        &&& (r is Err ==> r matches Err(PersistError::EncryptionError(_)))
                        &&& (r matches Ok(p) ==> (p matches WritePlan::Bytes { path, bytes }
                            && self.is_resource_path(resource_name@, mode, path@)
                            && is_payload_of(self.secret_text(), encode_utf8(t@), bytes@)))
                    },
                },
                _ => match ron.pretty {
                    Err(m) => r matches Err(PersistError::SerializationError(x)) && x == m,
                    Ok(t) => r matches Ok(WritePlan::Text { path, text }) && text == t
                        && self.is_resource_path(resource_name@, mode, path@),
                },
            },
    {
        match mode {
            PersistMode::Embed => Ok(WritePlan::Skip),
            PersistMode::Secure => {
                let text = match &ron.compact {
                    Ok(t) => t,
                    Err(m) => {
                        return Err(PersistError::SerializationError(m.clone()));
                    },
                };
                let bytes = self.seal_payload(text.as_str().as_bytes())?;
                let path = self.get_resource_path(resource_name, mode);
                Ok(WritePlan::Bytes { path, bytes })
            },
            _ => {
                let text = match &ron.pretty {
                    Ok(t) => t.clone(),
                    Err(m) => {
                        return Err(PersistError::SerializationError(m.clone()));
                    },
                };
                let path = self.get_resource_path(resource_name, mode);
                Ok(WritePlan::Text { path, text })
            },
        }
    }

    /// What writing a resource's plan ended in: success, or an I/O error
    /// that names the file.
    pub fn finish_save_resource(plan: &WritePlan, written: PersistResult<()>) -> (r: PersistResult<
        (),
    >)
        ensures
            match plan {
                WritePlan::Skip => r is Ok,
                WritePlan::Text { path, text: _ } => match written {
                    Ok(()) => r is Ok,
                    Err(e) => r matches Err(PersistError::IoError(m)) && m@ == "Failed to write file "@
                        + path@ + ": "@ + error_text(e),
                },
                WritePlan::Bytes { path, bytes: _ } => match written {
                    Ok(()) => r is Ok,
                    Err(e) => r matches Err(PersistError::IoError(m)) && m@
                        == "Failed to write secure file "@ + path@ + ": "@ + error_text(e),
                },
            },
    {
        match plan {
            WritePlan::Skip => Ok(()),
            WritePlan::Text { path, text: _ } => match written {
                Ok(()) => Ok(()),
                Err(e) => {
                    let context = concat_str("Failed to write file ", path.as_str());
                    let context = concat_str(context.as_str(), ": ");
                    Err(PersistError::io_with_context(context.as_str(), &e))
                },
            },
            WritePlan::Bytes { path, bytes: _ } => match written {
                Ok(()) => Ok(()),
                Err(e) => {
                    let context = concat_str("Failed to write secure file ", path.as_str());
                    let context = concat_str(context.as_str(), ": ");
                    Err(PersistError::io_with_context(context.as_str(), &e))
                },
            },
        }
    }

    /// Loads a resource based on its persistence mode: where to read it, and
    /// whether what is read there is a secure payload.  Embedded resources
    /// are not read from disk.
    pub fn load_resource(&self, resource_name: &str, mode: PersistMode) -> (r: PersistResult<
        ResourceRead,
    >)
        ensures
            match mode {
                PersistMode::Embed => r matches Err(PersistError::ResourceNotFound(m)) && m@
                    == "Embedded resource "@ + resource_name@ + " should use embedded_data()"@,
                _ => r matches Ok(q) && q.sealed == (mode == PersistMode::Secure)
                    && self.is_resource_path(resource_name@, mode, q.path@),
            },
    {
        match mode {
            PersistMode::Embed => {
                let m = concat_str("Embedded resource ", resource_name);
                let m = concat_str(m.as_str(), " should use embedded_data()");
                Err(PersistError::ResourceNotFound(m))
            },
            _ => {
                let path = self.get_resource_path(resource_name, mode);
                Ok(ResourceRead { path, sealed: mode == PersistMode::Secure })
            },
        }
    }

    /// The RON text of a resource from what reading its plain file gave.
    pub fn finish_load_plain(request: &ResourceRead, read: PersistResult<Option<String>>) -> (r:
        PersistResult<String>)
        ensures
            match read {
                Ok(Some(t)) => r == Ok::<String, PersistError>(t),
                Ok(None) => r matches Err(PersistError::IoError(m)) && m@ == "File not found: "@
                    + request.path@,
                Err(e) => r matches Err(PersistError::IoError(m)) && m@ == "Failed to read file "@
                    + request.path@ + ": "@ + error_text(e),
            },
    {
        match read {
            Ok(Some(t)) => Ok(t),
            Ok(None) => Err(PersistError::IoError(concat_str("File not found: ", request.path.as_str()))),
            Err(e) => {
                let context = concat_str("Failed to read file ", request.path.as_str());
                let context = concat_str(context.as_str(), ": ");
                Err(PersistError::io_with_context(context.as_str(), &e))
            },
        }
    }

    /// The RON text of a secure resource from what reading its file gave:
    /// the payload is opened and must be UTF-8.  The payload stored for some
    /// text gives that text back.
    pub fn finish_load_sealed(&self, request: &ResourceRead, read: PersistResult<Option<Vec<u8>>>) -> (r:
        PersistResult<String>)
        ensures
            match read {
                Ok(Some(bytes)) => {
                    &&& match open_payload_spec(self.secret_text(), bytes@) {
                        None => r matches Err(PersistError::EncryptionError(_)),
                        Some(d) => if vstd::utf8::valid_utf8(d) {
                            r matches Ok(t) && t@ == vstd::utf8::decode_utf8(d)
                        } else {
                            r matches Err(PersistError::SerializationError(m)) && exists|x: Seq<
                                char,
                            >| m@ == "Invalid UTF-8 in decrypted data: "@ + x
                        },
                    }
                    &&& forall|t: Seq<char>|
                        #[trigger] is_payload_of(self.secret_text(), encode_utf8(t), bytes@)
                            ==> r.is_ok() && r.unwrap()@ == t
                },
                Ok(None) => r matches Err(PersistError::IoError(m)) && m@
                    == "Secure file not found: "@ + request.path@,
                Err(e) => r matches Err(PersistError::IoError(m)) && m@
                    == "Failed to read secure file "@ + request.path@ + ": "@ + error_text(e),
            },
    {
        match read {
            Ok(Some(bytes)) => {
                let opened = self.open_payload(bytes.as_slice());
                let data = match opened {
                    Ok(d) => d,
                    Err(e) => {
                        proof {
                            assert forall|t: Seq<char>|
                                #[trigger] is_payload_of(self.secret_text(), encode_utf8(t), bytes@)
                                    implies false by {
                                assert(opened.is_ok());
                            }
                        }
                        return Err(e);
                    },
                };
                match string_from_utf8(data) {
                    Ok(t) => {
                        proof {
                            vstd::utf8::decode_utf8_encode_utf8(data@);
                            assert forall|u: Seq<char>|
                                #[trigger] is_payload_of(self.secret_text(), encode_utf8(u), bytes@)
                                    implies t@ == u by {
                                assert(opened.is_ok() && opened.unwrap()@ == encode_utf8(u));
                                vstd::utf8::encode_utf8_decode_utf8(u);
                            }
                        }
                        Ok(t)
                    },
                    Err(m) => {
                        proof {
                            assert forall|t: Seq<char>|
                                #[trigger] is_payload_of(self.secret_text(), encode_utf8(t), bytes@)
                                    implies false by {
                                vstd::utf8::encode_utf8_valid_utf8(t);
                            }
                        }
                        let msg = concat_str("Invalid UTF-8 in decrypted data: ", m.as_str());
                        proof {
                            assert(msg@ == "Invalid UTF-8 in decrypted data: "@ + m@);
                        }
                        Err(PersistError::SerializationError(msg))
                    },
                }
            },
            Ok(None) => Err(
                PersistError::IoError(concat_str("Secure file not found: ", request.path.as_str())),
            ),
            Err(e) => {
                let context = concat_str("Failed to read secure file ", request.path.as_str());
                let context = concat_str(context.as_str(), ": ");
                Err(PersistError::io_with_context(context.as_str(), &e))
            },
        }
    }
}

} // verus!
