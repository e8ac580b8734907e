//! What happens to a resource each frame and at startup: when it changed,
//! where its data is saved; at startup, where its data is loaded from.

use vstd::prelude::*;
use vstd::string::StringExecFns;
use vstd::utf8::encode_utf8;
use crate::clock::is_clock_reading;
use crate::data::{FileFormat, PersistData, PersistFile, SaveRequest, PACKAGE_VERSION, format_for_path};
use crate::error::{PersistError, PersistResult};
use crate::manager::{
    BuildProfile, PersistManager, ResourceRead, RonForms, is_payload_of, secret_bytes, seal_succeeds,
};
use crate::secure::base64_encodable_len;
use crate::mode::PersistMode;
use crate::paths::{embed_file_for, embed_file_path};
use crate::text::{ends_with, str_contains_char, str_ends_with};

verus! {

/// One file to write after a resource changed.
pub enum PersistStep {
    /// Serialize `file` in the request's format and write it at its path.
    WriteFile { file: PersistFile, request: SaveRequest },
    /// Serialize the manager's file in the request's format and write it at
    /// its path.
    WriteMainFile { request: SaveRequest },
    /// Write the secure payload `bytes` at `path`.
    WriteSealed { path: String, bytes: Vec<u8> },
}

/// `f` holds the data of one resource and nothing else, and was written by
/// this crate's version.
pub open spec fn holds_only(f: PersistFile, resource_name: Seq<char>, data: PersistData) -> bool {
    &&& f.type_data@.dom() == Set::<Seq<char>>::empty().insert(resource_name)
    &&& f.type_data@[resource_name]@ == data@
    &&& f.version@ == PACKAGE_VERSION@
    &&& f.last_saved@.len() > 0
    &&& is_clock_reading(f.last_saved@)
}

/// `step` writes a file holding only the resource's data at `path`.
pub open spec fn writes_resource_file(
    step: PersistStep,
    resource_name: Seq<char>,
    data: PersistData,
    path: Seq<char>,
) -> bool {
    step matches PersistStep::WriteFile { file, request } && holds_only(file, resource_name, data)
        && request.path@ == path && request.format == format_for_path(path)
}

/// `step` writes the manager's file at its main path.
pub open spec fn writes_main_file(step: PersistStep, m: PersistManager) -> bool {
    step matches PersistStep::WriteMainFile { request } && request.path@ == m.main_file()
        && request.format == format_for_path(m.main_file())
}

/// The outcome of saving a secure resource at `path`: the compact RON text
/// of its data, sealed under the secret (or, without a secret, in base64),
/// is the one step; a failed serialization or sealing is the error.
pub open spec fn saves_sealed(
    r: PersistResult<Vec<PersistStep>>,
    secret: Option<Seq<char>>,
    compact: Result<String, String>,
    path: Seq<char>,
) -> bool {
    match compact {
        Err(m) => r matches Err(PersistError::SerializationError(x)) && x == m,
        Ok(t) => {
            &&& match secret_bytes(secret) {
                Some(s) => r is Ok <==> seal_succeeds(s, encode_utf8(t@)),
                None => r is Ok,
            }
            &&& r is Err ==> (r matches Err(PersistError::EncryptionError(_)))
            &&& r matches Ok(steps) ==> {
                &&& steps@.len() == 1
                &&& steps@[0] matches PersistStep::WriteSealed { path: q, bytes }
                &&& q@ == path
                &&& is_payload_of(secret, encode_utf8(t@), bytes@)
            }
        },
    }
}

/// The outcome of recording a resource's data in the manager's file: the
/// file, and nothing else of the manager, changes, and writing it at its
/// main path is the one step.
pub open spec fn saves_in_main_file(
    r: PersistResult<Vec<PersistStep>>,
    before: PersistManager,
    after: PersistManager,
    resource_name: Seq<char>,
    data: PersistData,
) -> bool {
    &&& after.same_settings(before)
    &&& after.file().type_data@ == before.file().type_data@.insert(resource_name, data)
    &&& after.file().version == before.file().version
    &&& is_clock_reading(after.file().last_saved@)
    &&& r matches Ok(steps)
    &&& steps@.len() == 1
    &&& writes_main_file(steps@[0], before)
}

/// Decides what saving a resource takes after a frame, and records its data
/// in the manager's file when that file is where it goes.
///
/// Nothing is saved when the resource did not change, when it is embedded
/// in a production build, or when auto-save is off for it.  Otherwise, in
/// production, a `Dynamic` resource is written alone to its own path, and a
/// `Secure` resource is written to its own path as the payload of the
/// compact RON text of its data (`ron.compact`): sealed with AES-256-GCM
/// under the secret, or in base64 without one.  In every other case (also
/// when such a path is empty) its data goes into the manager's file, which
/// is written at its main path; in development an embedded resource is
/// first also written alone to its embed file under `asset_root`.
pub fn persist_system(
    manager: &mut PersistManager,
    resource_name: &str,
    mode: PersistMode,
    changed: bool,
    data: PersistData,
    ron: &RonForms,
    asset_root: &str,
) -> (r: PersistResult<Vec<PersistStep>>)
    requires
        old(manager).profile == BuildProfile::Production && mode == PersistMode::Secure && old(
            manager,
        ).secret_text() is None ==> (ron.compact matches Ok(t) ==> base64_encodable_len(
            encode_utf8(t@).len() as int,
        )),
    ensures
        ({
            let prod = old(manager).profile == BuildProfile::Production;
            if !changed || (prod && mode == PersistMode::Embed) || !old(manager).auto_save_for(
                resource_name@,
            ) {
                r matches Ok(steps) && steps@.len() == 0 && *final(manager) == *old(manager)
            } else if prod && (mode == PersistMode::Dynamic || mode == PersistMode::Secure) {
                exists|p: Seq<char>|
                    #[trigger] old(manager).is_resource_path(resource_name@, mode, p) && if p.len()
                        > 0 {
                        &&& *final(manager) == *old(manager)
                        &&& if mode == PersistMode::Secure {
                            saves_sealed(r, old(manager).secret_text(), ron.compact, p)
                        } else {
                            r matches Ok(steps) && steps@.len() == 1 && writes_resource_file(
                                steps@[0],
                                resource_name@,
                                data,
                                p,
                            )
                        }
                    } else {
                        saves_in_main_file(r, *old(manager), *final(manager), resource_name@, data)
                    }
            } else if !prod && mode == PersistMode::Embed {
                &&& final(manager).same_settings(*old(manager))
                &&& final(manager).file().type_data@ == old(manager).file().type_data@.insert(
                    resource_name@,
                    data,
                )
                &&& final(manager).file().version == old(manager).file().version
                &&& is_clock_reading(final(manager).file().last_saved@)
                &&& r matches Ok(steps)
                &&& steps@.len() == 2
                &&& writes_resource_file(
                    steps@[0],
                    resource_name@,
                    data,
                    embed_file_for(asset_root@, resource_name@),
                )
                &&& writes_main_file(steps@[1], *old(manager))
            } else {
                saves_in_main_file(r, *old(manager), *final(manager), resource_name@, data)
            }
        }),
{
    let mut steps: Vec<PersistStep> = Vec::new();
    if !changed {
        return Ok(steps);
    }
    let prod = manager.profile == BuildProfile::Production;
    if prod && mode == PersistMode::Embed {
        return Ok(steps);
    }
    if !manager.is_auto_save_enabled(resource_name) {
        return Ok(steps);
    }
    let ghost own_path: Seq<char> = Seq::empty();
    if prod && (mode == PersistMode::Dynamic || mode == PersistMode::Secure) {
        let path = manager.get_resource_path(resource_name, mode);
        proof {
            own_path = path@;
        }
        if path.as_str().is_empty() {
            proof {
                assert(path@ =~= Seq::<char>::empty());
            }
        } else if mode == PersistMode::Secure {
            let text = match &ron.compact {
                Ok(t) => t,
                Err(m) => {
                    let r = Err(PersistError::SerializationError(m.clone()));
                    assert(saves_sealed(r, old(manager).secret_text(), ron.compact, path@));
                    return r;
                },
            };
            let bytes = match manager.seal_payload(text.as_str().as_bytes()) {
                Ok(b) => b,
                Err(e) => {
                    let r = Err(e);
                    assert(saves_sealed(r, old(manager).secret_text(), ron.compact, path@));
                    return r;
                },
            };
            steps.push(PersistStep::WriteSealed { path, bytes });
            assert(saves_sealed(Ok(steps), old(manager).secret_text(), ron.compact, own_path));
            return Ok(steps);
        } else {
            let mut file = PersistFile::new();
            file.set_type_data(String::from_str(resource_name), data);
            let request = file.save_to_file(path.as_str());
            steps.push(PersistStep::WriteFile { file, request });
            proof {
                assert(file.type_data@.dom() =~= Set::<Seq<char>>::empty().insert(resource_name@));
                assert(writes_resource_file(steps@[0], resource_name@, data, path@));
            }
            return Ok(steps);
        }
    }
    if !prod && mode == PersistMode::Embed {
        let embed_path = embed_file_path(asset_root, resource_name);
        let mut file = PersistFile::new();
        file.set_type_data(String::from_str(resource_name), data.clone());
        let request = file.save_to_file(embed_path.as_str());
        proof {
            assert(file.type_data@.dom() =~= Set::<Seq<char>>::empty().insert(resource_name@));
        }
        steps.push(PersistStep::WriteFile { file, request });
    }
    manager.persist_file.set_type_data(String::from_str(resource_name), data);
    let request = manager.save();
    steps.push(PersistStep::WriteMainFile { request });
    proof {
        if prod && (mode == PersistMode::Dynamic || mode == PersistMode::Secure) {
            assert(old(manager).is_resource_path(resource_name@, mode, own_path));
        }
    }
    Ok(steps)
}

/// The format of embedded data: RON when the text ends with `.ron` or
/// holds a `(`, JSON otherwise.
pub open spec fn embedded_format(text: Seq<char>) -> FileFormat {
    if ends_with(text, ".ron"@) || text.contains('(') {
        FileFormat::Ron
    } else {
        FileFormat::Json
    }
}

/// Embedded text is read as RON whenever it holds a `(` anywhere or its
/// last four characters are `.ron`, and as JSON otherwise.
pub proof fn lemma_embedded_format_by_characters(text: Seq<char>)
    ensures
        (exists|i: int| 0 <= i < text.len() && text[i] == '(') ==> embedded_format(text)
            == FileFormat::Ron,
        (text.len() >= 4 && text[text.len() - 4] == '.' && text[text.len() - 3] == 'r'
            && text[text.len() - 2] == 'o' && text[text.len() - 1] == 'n') ==> embedded_format(
            text,
        ) == FileFormat::Ron,
        ((forall|i: int| 0 <= i < text.len() ==> text[i] != '(') && !(text.len() >= 4
            && text[text.len() - 4] == '.' && text[text.len() - 3] == 'r' && text[text.len() - 2]
            == 'o' && text[text.len() - 1] == 'n')) ==> embedded_format(text) == FileFormat::Json,
{
    reveal_strlit(".ron");
    if exists|i: int| 0 <= i < text.len() && text[i] == '(' {
        let i = choose|i: int| 0 <= i < text.len() && text[i] == '(';
        assert(text.contains('('));
    }
    if text.len() >= 4 && text[text.len() - 4] == '.' && text[text.len() - 3] == 'r'
        && text[text.len() - 2] == 'o' && text[text.len() - 1] == 'n' {
        assert(text.subrange(text.len() - 4, text.len() as int) =~= ".ron"@);
    }
    if ends_with(text, ".ron"@) {
        let tail = text.subrange(text.len() - 4, text.len() as int);
        assert(tail[0] == text[text.len() - 4]);
        assert(tail[1] == text[text.len() - 3]);
        assert(tail[2] == text[text.len() - 2]);
        assert(tail[3] == text[text.len() - 1]);
    }
}

/// The format of embedded data.
pub fn embedded_format_of(text: &str) -> (f: FileFormat)
    ensures
        f == embedded_format(text@),
{
    if str_ends_with(text, ".ron") || str_contains_char(text, '(') {
        FileFormat::Ron
    } else {
        FileFormat::Json
    }
}

/// Where a resource's data may be found at startup before the manager's
/// file is consulted.
pub enum LoadSource {
    /// The data embedded in the build, in the given format.
    Embedded { format: FileFormat },
    /// The persistence file at `path`, if it exists.
    File { path: String },
    /// The secure payload that `request` reads, if it exists: opened by
    /// `PersistManager::finish_load_sealed`, it is the RON text of the data.
    Sealed { request: ResourceRead },
}

/// Decides where to look for a resource's data at startup before the
/// manager's file: in production, the embedded data of an embedded resource
/// (if the build has any), the own file of a `Dynamic` resource, or the
/// secure payload of a `Secure` resource (if its path is not empty); in
/// development, the embed file of an embedded resource under `asset_root`.
pub fn load_source(
    manager: &PersistManager,
    resource_name: &str,
    mode: PersistMode,
    embedded: Option<&str>,
    asset_root: &str,
) -> (r: Option<LoadSource>)
    ensures
        ({
            let prod = manager.profile == BuildProfile::Production;
            if prod && mode == PersistMode::Embed {
                match embedded {
                    Some(t) => r matches Some(LoadSource::Embedded { format }) && format
                        == embedded_format(t@),
                    None => r is None,
                }
            } else if prod && mode == PersistMode::Dynamic {
                match r {
                    Some(LoadSource::File { path }) => path@.len() > 0 && manager.is_resource_path(
                        resource_name@,
                        mode,
                        path@,
                    ),
                    None => manager.is_resource_path(resource_name@, mode, Seq::<char>::empty()),
                    _ => false,
                }
            } else if prod && mode == PersistMode::Secure {
                match r {
                    Some(LoadSource::Sealed { request }) => request.sealed && request.path@.len() > 0
                        && manager.is_resource_path(resource_name@, mode, request.path@),
                    None => manager.is_resource_path(resource_name@, mode, Seq::<char>::empty()),
                    _ => false,
                }
            } else if !prod && mode == PersistMode::Embed {
                r matches Some(LoadSource::File { path }) && path@ == embed_file_for(
                    asset_root@,
                    resource_name@,
                )
            } else {
                r is None
            }
        }),
{
    let prod = manager.profile == BuildProfile::Production;
    if prod && mode == PersistMode::Embed {
        match embedded {
            Some(t) => Some(LoadSource::Embedded { format: embedded_format_of(t) }),
            None => None,
        }
    } else if prod && mode == PersistMode::Dynamic {
        let path = manager.get_resource_path(resource_name, mode);
        if path.as_str().is_empty() {
            proof {
                assert(path@ =~= Seq::<char>::empty());
            }
            None
        } else {
            Some(LoadSource::File { path })
        }
    } else if prod && mode == PersistMode::Secure {
        let request = match manager.load_resource(resource_name, mode) {
            Ok(q) => q,
            Err(_) => {
                return None;
            },
        };
        if request.path.as_str().is_empty() {
            proof {
                assert(request.path@ =~= Seq::<char>::empty());
            }
            None
        } else {
            Some(LoadSource::Sealed { request })
        }
    } else if !prod && mode == PersistMode::Embed {
        Some(LoadSource::File { path: embed_file_path(asset_root, resource_name) })
    } else {
        None
    }
}

/// What was found at a resource's load source.
pub enum Found {
    /// The persistence file read there.
    File(PersistFile),
    /// The data read from a secure payload.
    Data(PersistData),
}

/// The data that a resource is loaded with at startup: the data read from
/// its secure payload, or its data in the file found at its load source if
/// that file holds it; otherwise its data in the manager's file, if any.
pub fn load_persisted(manager: &PersistManager, resource_name: &str, found: Option<Found>) -> (r:
    Option<PersistData>)
    ensures
        match found {
            Some(Found::Data(d)) => r matches Some(x) && x@ == d@,
            Some(Found::File(f)) if f.type_data@.dom().contains(resource_name@) => r matches Some(
                x,
            ) && x@ == f.type_data@[resource_name@]@,
            _ => match r {
                Some(x) => manager.file().type_data@.dom().contains(resource_name@) && x@
                    == manager.file().type_data@[resource_name@]@,
                None => !manager.file().type_data@.dom().contains(resource_name@),
            },
        },
{
    match found {
        Some(Found::Data(d)) => {
            return Some(d);
        },
        Some(Found::File(f)) => {
            if let Some(d) = f.get_type_data(resource_name) {
                return Some(d.clone());
            }
        },
        None => {},
    }
    match manager.get_persist_file().get_type_data(resource_name) {
        Some(d) => Some(d.clone()),
        None => None,
    }
}

} // verus!
