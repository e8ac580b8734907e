//! Storage backends.  A backend reads and writes text under a path; the
//! reading and writing itself is done by the caller, so what stands here is
//! the backend's identity and the naming of its entries.

use vstd::prelude::*;
use crate::error::concat_str;
use crate::text::{chars_of, string_of_chars};

verus! {

/// Storage that keeps each entry in a file of the file system (desktop
/// platforms and Android).
#[derive(Debug, Clone, Copy, PartialEq, Eq, Structural)]
pub struct FileSystemStorage;

impl FileSystemStorage {
    /// The file-system storage.
    pub fn new() -> (s: Self)
        ensures
            s == FileSystemStorage,
    {
        FileSystemStorage
    }
}

impl Default for FileSystemStorage {
    fn default() -> (s: Self)
        ensures
            s == FileSystemStorage,
    {
        FileSystemStorage::new()
    }
}

/// The storage backend of this platform.
pub fn create_storage() -> (s: FileSystemStorage)
    ensures
        s == FileSystemStorage,
{
    FileSystemStorage::new()
}

/// Whether a character is alphabetic or numeric, as Unicode defines it.
pub uninterp spec fn is_alphanumeric(c: char) -> bool;

/// Whether `c` is alphabetic or numeric.
///
/// Trusted: `char::is_alphanumeric`; the contract names its result
/// `is_alphanumeric(c)`.
#[verifier::external_body]
pub(crate) fn char_is_alphanumeric(c: char) -> (b: bool)
    ensures
        b == is_alphanumeric(c),
{
    c.is_alphanumeric()
}

/// Whether a character may stand in a browser storage key.
pub open spec fn key_char(c: char) -> bool {
    is_alphanumeric(c) || c == '_' || c == '-'
}

/// The characters of a path as they stand in a storage key: each `/` and
/// `\` becomes `_`, and every other character that is not alphanumeric,
/// `_` or `-` is left out.
pub open spec fn key_chars(path: Seq<char>) -> Seq<char> {
    path.map_values(|c: char| if c == '/' || c == '\\' { '_' } else { c }).filter(|c: char| key_char(c))
}

/// The key under which browser storage keeps the entry for a path:
/// `bevy_persist_` followed by the path's key characters.
pub open spec fn storage_key_for(path: Seq<char>) -> Seq<char> {
    "bevy_persist_"@ + key_chars(path)
}

/// Characters that all stand in a key are all kept, in order.
proof fn lemma_key_filter_keeps_all(s: Seq<char>)
    requires
        forall|i: int| 0 <= i < s.len() ==> key_char(#[trigger] s[i]),
    ensures
        s.filter(|c: char| key_char(c)) == s,
    decreases s.len(),
{
    reveal_with_fuel(Seq::filter, 1);
    if s.len() > 0 {
        let shorter = s.drop_last();
        assert forall|i: int| 0 <= i < shorter.len() implies key_char(#[trigger] shorter[i]) by {
            assert(shorter[i] == s[i]);
        }
        lemma_key_filter_keeps_all(shorter);
        assert(key_char(s[s.len() - 1]));
        assert(shorter.push(s.last()) =~= s);
    }
}

/// A path made of characters that `char::is_alphanumeric` accepts (digits
/// as well as letters), `_`, `-` and the separators `/` and `\` loses none
/// of them in its key: the key is `bevy_persist_` followed by the path, each
/// separator turned into `_`, character by character.
pub proof fn lemma_storage_key_keeps_characters(path: Seq<char>)
    requires
        forall|i: int|
            0 <= i < path.len() ==> (is_alphanumeric(#[trigger] path[i]) || path[i] == '_'
                || path[i] == '-' || path[i] == '/' || path[i] == '\\'),
    ensures
        ({
            let key = storage_key_for(path);
            &&& key.len() == 13 + path.len()
            &&& key.subrange(0, 13) == "bevy_persist_"@
            &&& forall|i: int| 0 <= i < path.len() ==> #[trigger] key[13 + i] == (if path[i] == '/'
                || path[i] == '\\' {
                '_'
            } else {
                path[i]
            })
        }),
{
    reveal_strlit("bevy_persist_");
    let mapped = path.map_values(|c: char| if c == '/' || c == '\\' { '_' } else { c });
    assert forall|i: int| 0 <= i < mapped.len() implies key_char(#[trigger] mapped[i]) by {
        assert(mapped[i] == (if path[i] == '/' || path[i] == '\\' { '_' } else { path[i] }));
    }
    lemma_key_filter_keeps_all(mapped);
    let key = storage_key_for(path);
    assert(key == "bevy_persist_"@ + mapped);
    assert(key.subrange(0, 13) =~= "bevy_persist_"@);
    assert forall|i: int| 0 <= i < path.len() implies #[trigger] key[13 + i] == (if path[i] == '/'
        || path[i] == '\\' {
        '_'
    } else {
        path[i]
    }) by {
        assert(key[13 + i] == mapped[i]);
    }
}

/// The key under which browser storage keeps the entry for `path`.
pub fn path_to_key(path: &str) -> (k: String)
    ensures
        k@ == storage_key_for(path@),
{
    let cs = chars_of(path);
    let ghost mapped = path@.map_values(|c: char| if c == '/' || c == '\\' { '_' } else { c });
    let mut out: Vec<char> = Vec::new();
    let mut i: usize = 0;
    while i < cs.len()
        invariant
            cs@ == path@,
            i <= cs@.len(),
            mapped == path@.map_values(|c: char| if c == '/' || c == '\\' { '_' } else { c }),
            out@ == mapped.take(i as int).filter(|c: char| key_char(c)),
        decreases cs@.len() - i,
    {
        let c = cs[i];
        let d = if c == '/' || c == '\\' { '_' } else { c };
        proof {
            assert(mapped[i as int] == d);
            assert(mapped.take(i + 1).drop_last() =~= mapped.take(i as int));
            reveal_with_fuel(Seq::filter, 1);
        }
        if char_is_alphanumeric(d) || d == '_' || d == '-' {
            out.push(d);
        }
        i = i + 1;
    }
    proof {
        assert(mapped.take(cs@.len() as int) =~= mapped);
    }
    let body = string_of_chars(&out);
    concat_str("bevy_persist_", body.as_str())
}

} // verus!
