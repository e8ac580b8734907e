//! The errors that persistence operations report.

use vstd::prelude::*;
use vstd::string::StringExecFns;

verus! {

/// Errors that can occur during persistence operations.
#[derive(Debug)]
pub enum PersistError {
    /// Failed to read or write a file.
    IoError(String),
    /// Failed to serialize or deserialize.
    SerializationError(String),
    /// The resource was not found.
    ResourceNotFound(String),
    /// Failed to encrypt or decrypt data.
    EncryptionError(String),
}

/// Result type for persistence operations.
pub type PersistResult<T> = Result<T, PersistError>;

/// The text that describes an error to a reader.
pub open spec fn error_text(e: PersistError) -> Seq<char> {
    match e {
        PersistError::IoError(m) => "IO error: "@ + m@,
        PersistError::SerializationError(m) => "Serialization error: "@ + m@,
        PersistError::ResourceNotFound(m) => "Resource not found: "@ + m@,
        PersistError::EncryptionError(m) => "Encryption error: "@ + m@,
    }
}

/// The concatenation of two strings.
pub fn concat_str(a: &str, b: &str) -> (r: String)
    ensures
        r@ == a@ + b@,
{
    let mut s = String::from_str(a);
    s.append(b);
    s
}

impl Clone for PersistError {
    fn clone(&self) -> (e: Self)
        ensures
            e == *self,
    {
        match self {
            PersistError::IoError(m) => PersistError::IoError(m.clone()),
            PersistError::SerializationError(m) => PersistError::SerializationError(m.clone()),
            PersistError::ResourceNotFound(m) => PersistError::ResourceNotFound(m.clone()),
            PersistError::EncryptionError(m) => PersistError::EncryptionError(m.clone()),
        }
    }
}

impl PersistError {
    /// The text that describes this error, such as `IO error: file not found`.
    pub fn to_display_string(&self) -> (s: String)
        ensures
            s@ == error_text(*self),
    {
        match self {
            PersistError::IoError(m) => concat_str("IO error: ", m.as_str()),
            PersistError::SerializationError(m) => concat_str("Serialization error: ", m.as_str()),
            PersistError::ResourceNotFound(m) => concat_str("Resource not found: ", m.as_str()),
            PersistError::EncryptionError(m) => concat_str("Encryption error: ", m.as_str()),
        }
    }

    /// An I/O error whose message is `context` followed by the text of `cause`,
    /// as in `Failed to read file: IO error: ...`.
    pub fn io_with_context(context: &str, cause: &PersistError) -> (e: PersistError)
        ensures
            e matches PersistError::IoError(m) && m@ == context@ + error_text(*cause),
    {
        let text = cause.to_display_string();
        PersistError::IoError(concat_str(context, text.as_str()))
    }
}

} // verus!
