//! The data that is persisted: the values of one resource, and the file that
//! holds the data of every resource together with when it was saved and by
//! which version of this crate.

use vstd::prelude::*;
use vstd::string::StringExecFns;
use crate::clock::{is_clock_reading, now_rfc3339};
use crate::json::{json_object_entries, json_object_from_entries, json_object_members};
use crate::error::{PersistError, PersistResult, concat_str, error_text};
use crate::string_map::StringMap;
use crate::text::{extension_of, path_extension, str_eq};

verus! {

/// The version of this crate, written into every persistence file.
pub const PACKAGE_VERSION: &'static str = "0.1.0";

/// Data structure for persisting parameter values: the values of one
/// resource, each under its name, as JSON.
#[derive(Debug)]
pub struct PersistData {
    pub values: StringMap<serde_json::Value>,
}

impl View for PersistData {
    type V = Map<Seq<char>, serde_json::Value>;

    open spec fn view(&self) -> Map<Seq<char>, serde_json::Value> {
        self.values@
    }
}

/// The values that a JSON value stands for when it is stored as a resource's
/// data: the members of an object, and nothing for any other value.
pub open spec fn data_of_json(v: serde_json::Value) -> Map<Seq<char>, serde_json::Value> {
    match json_object_members(v) {
        Some(m) => m,
        None => Map::empty(),
    }
}

/// A copy of a list of entries whose keys are distinct.
fn copy_entries(es: &Vec<(String, serde_json::Value)>) -> (r: Vec<(String, serde_json::Value)>)
    ensures
        r@ == es@,
{
    let mut r: Vec<(String, serde_json::Value)> = Vec::new();
    let mut i: usize = 0;
    while i < es.len()
        invariant
            i <= es@.len(),
            r@ == es@.take(i as int),
        decreases es@.len() - i,
    {
        let k = es[i].0.clone();
        let v = es[i].1.clone();
        r.push((k, v));
        proof {
            assert(es@.take(i as int).push(es@[i as int]) =~= es@.take(i + 1));
        }
        i = i + 1;
    }
    proof {
        assert(es@.take(es@.len() as int) =~= es@);
    }
    r
}

impl PersistData {
    /// Creates a new, empty PersistData.
    pub fn new() -> (d: Self)
        ensures
            d@ == Map::<Seq<char>, serde_json::Value>::empty(),
    {
        PersistData { values: StringMap::new() }
    }

    /// Stores the serialized form of a value under `key`.  A value that
    /// could not be serialized leaves the data as it was.
    pub fn insert(&mut self, key: &str, value: Result<serde_json::Value, serde_json::Error>)
        ensures
            match value {
                Ok(v) => final(self)@ == old(self)@.insert(key@, v),
                Err(_) => final(self)@ == old(self)@,
            },
    {
        if let Ok(v) = value {
            self.values.insert(String::from_str(key), v);
        }
    }

    /// The serialized value stored under `key`.
    pub fn get(&self, key: &str) -> (r: Option<&serde_json::Value>)
        ensures
            match r {
                Some(v) => self@.dom().contains(key@) && self@[key@] == *v,
                None => !self@.dom().contains(key@),
            },
    {
        self.values.get(key)
    }

    /// The data of a resource from its serialized form: each member of a
    /// JSON object becomes a value; anything else, or a value that could not
    /// be serialized, gives empty data.
    pub fn from_serialized(value: Result<serde_json::Value, serde_json::Error>) -> (d: Self)
        ensures
            match value {
                Ok(v) => d@ == data_of_json(v),
                Err(_) => d@ == Map::<Seq<char>, serde_json::Value>::empty(),
            },
    {
        match value {
            Ok(v) => match json_object_entries(v) {
                Some(es) => PersistData { values: StringMap::from_entries(es) },
                None => PersistData::new(),
            },
            Err(_) => PersistData::new(),
        }
    }

    /// The values as one JSON object, the form from which a resource is
    /// deserialized.  It is the one JSON value with these members, so data
    /// read from a JSON object gives that object back.
    pub fn to_json_object(&self) -> (v: serde_json::Value)
        ensures
            json_object_members(v) == Some(self@),
            data_of_json(v) == self@,
            forall|w: serde_json::Value| #[trigger]
                json_object_members(w) == Some(self@) ==> w == v,
    {
        let es = copy_entries(self.values.entries());
        json_object_from_entries(es)
    }

}

impl Clone for PersistData {
    /// A copy of this data.
    fn clone(&self) -> (d: Self)
        ensures
            d@ == self@,
    {
        let es = copy_entries(self.values.entries());
        PersistData { values: StringMap::from_entries(es) }
    }
}

impl Default for PersistData {
    fn default() -> (d: Self)
        ensures
            d@ == Map::<Seq<char>, serde_json::Value>::empty(),
    {
        PersistData::new()
    }
}

/// Storing a resource's data as a JSON object and reading it back gives the
/// same data.
pub proof fn lemma_data_json_round_trip(d: Map<Seq<char>, serde_json::Value>, v: serde_json::Value)
    requires
        json_object_members(v) == Some(d),
    ensures
        data_of_json(v) == d,
{
}

/// Reading the data of a JSON object and turning it back into JSON gives
/// that same object: `back` is what `to_json_object` makes of the data that
/// `from_serialized` read from `v`.
pub proof fn lemma_json_object_round_trip(
    v: serde_json::Value,
    back: serde_json::Value,
)
    requires
        json_object_members(v) is Some,
        json_object_members(back) == Some(data_of_json(v)),
        forall|w: serde_json::Value| #[trigger]
            json_object_members(w) == Some(data_of_json(v)) ==> w == back,
    ensures
        back == v,
{
    assert(json_object_members(v) == Some(data_of_json(v)));
}

} // verus!

verus! {

/// The text format of a persistence file.
#[derive(Debug, Clone, Copy, PartialEq, Eq)]
pub enum FileFormat {
    Ron,
    Json,
}

/// The format of the file at `path`: RON for the extension `ron`, JSON for
/// any other.
pub open spec fn format_for_path(path: Seq<char>) -> FileFormat {
    if path_extension(path) == Some("ron"@) {
        FileFormat::Ron
    } else {
        FileFormat::Json
    }
}

/// The format of the file at `path`.
pub fn file_format_of(path: &str) -> (f: FileFormat)
    ensures
        f == format_for_path(path@),
{
    match extension_of(path) {
        Some(e) => if str_eq(e.as_str(), "ron") {
            FileFormat::Ron
        } else {
            FileFormat::Json
        },
        None => FileFormat::Json,
    }
}

/// What writing a persistence file takes: where, and in which format the
/// file is to be serialized.
pub struct SaveRequest {
    pub path: String,
    pub format: FileFormat,
}

/// How a persistence file is obtained: a new one when there is no file yet,
/// or by parsing the file at `path` in `format`.
pub enum LoadPlan {
    Fresh(PersistFile),
    Parse { path: String, format: FileFormat },
}

/// Complete persistence file format: the data of every persisted resource
/// under its type name, when the file was last saved, and the version of
/// this crate that wrote it.
#[derive(Debug)]
pub struct PersistFile {
    pub type_data: StringMap<PersistData>,
    pub last_saved: String,
    pub version: String,
}

impl PersistFile {
    /// Creates a new PersistFile with the current time and this crate's
    /// version.
    pub fn new() -> (f: Self)
        ensures
            f.type_data@ == Map::<Seq<char>, PersistData>::empty(),
            f.last_saved@.len() > 0,
            is_clock_reading(f.last_saved@),
            f.version@ == PACKAGE_VERSION@,
    {
        let now = now_rfc3339();
        PersistFile {
            type_data: StringMap::new(),
            last_saved: now.into_text(),
            version: String::from_str(PACKAGE_VERSION),
        }
    }

    /// Gets the persistence data for a specific type.
    pub fn get_type_data(&self, resource_name: &str) -> (r: Option<&PersistData>)
        ensures
            match r {
                Some(d) => self.type_data@.dom().contains(resource_name@) && self.type_data@[resource_name@]
                    == *d,
                None => !self.type_data@.dom().contains(resource_name@),
            },
    {
        self.type_data.get(resource_name)
    }

    /// Sets the persistence data for a specific type.
    pub fn set_type_data(&mut self, resource_name: String, data: PersistData)
        ensures
            final(self).type_data@ == old(self).type_data@.insert(resource_name@, data),
            final(self).last_saved == old(self).last_saved,
            final(self).version == old(self).version,
    {
        self.type_data.insert(resource_name, data);
    }

    /// Prepares saving the file to `path`: stamps it with the time read from
    /// the clock at this save, whatever it held before, and tells in which format the file at `path` is written (RON for a
    /// `.ron` path, JSON otherwise).  The caller serializes the file in that
    /// format and writes it.
    pub fn save_to_file(&mut self, path: &str) -> (r: SaveRequest)
        ensures
            final(self).type_data == old(self).type_data,
            final(self).version == old(self).version,
            final(self).last_saved@.len() > 0,
            is_clock_reading(final(self).last_saved@),
            r.path@ == path@,
            r.format == format_for_path(path@),
    {
        let now = now_rfc3339();
        self.last_saved = now.into_text();
        SaveRequest { path: String::from_str(path), format: file_format_of(path) }
    }

    /// Decides how to load the file at `path`: a new file when none exists,
    /// otherwise the file is to be parsed in the format its path names.
    pub fn load_from_file(path: &str, exists: bool) -> (p: LoadPlan)
        ensures
            !exists ==> (p matches LoadPlan::Fresh(f) && f.type_data@ == Map::<
                Seq<char>,
                PersistData,
            >::empty() && f.version@ == PACKAGE_VERSION@ && f.last_saved@.len() > 0
                && is_clock_reading(f.last_saved@)),
            exists ==> (p matches LoadPlan::Parse { path: q, format } && q@ == path@ && format
                == format_for_path(path@)),
    {
        if !exists {
            LoadPlan::Fresh(PersistFile::new())
        } else {
            LoadPlan::Parse { path: String::from_str(path), format: file_format_of(path) }
        }
    }

    /// The content of an existing file from what reading it gave: the text,
    /// or an I/O error when reading failed or found nothing.
    pub fn read_content(read: PersistResult<Option<String>>) -> (r: PersistResult<String>)
        ensures
            match read {
                Ok(Some(c)) => r == Ok::<String, PersistError>(c),
                Ok(None) => r matches Err(PersistError::IoError(m)) && m@ == "File not found"@,
                Err(e) => r matches Err(PersistError::IoError(m)) && m@ == "Failed to read file: "@
                    + error_text(e),
            },
    {
        match read {
            Ok(Some(c)) => Ok(c),
            Ok(None) => Err(PersistError::IoError(String::from_str("File not found"))),
            Err(e) => Err(PersistError::io_with_context("Failed to read file: ", &e)),
        }
    }

    /// What saving a file ended in, from what creating its directory and
    /// writing it gave: success, or an I/O error that says which step failed.
    /// A file whose directory could not be created is not written.
    pub fn finish_save(created: PersistResult<()>, written: PersistResult<()>) -> (r: PersistResult<
        (),
    >)
        ensures
            match created {
                Err(e) => r matches Err(PersistError::IoError(m)) && m@
                    == "Failed to create directory: "@ + error_text(e),
                Ok(()) => match written {
                    Ok(()) => r is Ok,
                    Err(e) => r matches Err(PersistError::IoError(m)) && m@
                        == "Failed to write file: "@ + error_text(e),
                },
            },
    {
        match created {
            Err(e) => Err(PersistError::io_with_context("Failed to create directory: ", &e)),
            Ok(()) => match written {
                Ok(()) => Ok(()),
                Err(e) => Err(PersistError::io_with_context("Failed to write file: ", &e)),
            },
        }
    }

    /// The error for a file that could not be parsed in `format`.
    pub fn parse_error(format: FileFormat, message: &str) -> (e: PersistError)
        ensures
            e matches PersistError::SerializationError(m) && m@ == match format {
                FileFormat::Ron => "RON parse error: "@,
                FileFormat::Json => "JSON parse error: "@,
            } + message@,
    {
        match format {
            FileFormat::Ron => PersistError::SerializationError(concat_str("RON parse error: ", message)),
            FileFormat::Json => PersistError::SerializationError(
                concat_str("JSON parse error: ", message),
            ),
        }
    }

    /// The error for a file that could not be serialized in `format`.
    pub fn serialize_error(format: FileFormat, message: &str) -> (e: PersistError)
        ensures
            e matches PersistError::SerializationError(m) && m@ == match format {
                FileFormat::Ron => "RON serialization error: "@,
                FileFormat::Json => "JSON serialization error: "@,
            } + message@,
    {
        match format {
            FileFormat::Ron => PersistError::SerializationError(
                concat_str("RON serialization error: ", message),
            ),
            FileFormat::Json => PersistError::SerializationError(
                concat_str("JSON serialization error: ", message),
            ),
        }
    }
}

impl Default for PersistFile {
    /// A file with no data and empty time and version.
    fn default() -> (f: Self)
        ensures
            f.type_data@ == Map::<Seq<char>, PersistData>::empty(),
            f.last_saved@ == Seq::<char>::empty(),
            f.version@ == Seq::<char>::empty(),
    {
        PersistFile { type_data: StringMap::new(), last_saved: String::new(), version: String::new() }
    }
}

} // verus!
