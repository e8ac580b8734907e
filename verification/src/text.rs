//! Operations on text: comparisons, case mapping and the rewriting of
//! characters that file names and storage keys are built with.

use vstd::prelude::*;

verus! {

/// Whether two strings hold the same characters.
///
/// Trusted: `<str as PartialEq>::eq`, which compares the two strings
/// character for character; the contract claims exactly that.
#[verifier::external_body]
pub(crate) fn str_eq(a: &str, b: &str) -> (r: bool)
    ensures
        r == (a@ == b@),
{
    a == b
}

} // verus!

verus! {

/// The extension of the last component of a path, as `std::path::Path`
/// determines it.
pub uninterp spec fn path_extension(path: Seq<char>) -> Option<Seq<char>>;

/// The extension of the file that `path` names.
///
/// Trusted: `std::path::Path::extension`, converted to a `String`.  Since
/// `path` is valid UTF-8, so is the extension and the conversion loses
/// nothing; the contract claims that the result is `path_extension(path)`.
#[verifier::external_body]
pub(crate) fn extension_of(path: &str) -> (r: Option<String>)
    ensures
        match r {
            Some(e) => path_extension(path@) == Some(e@),
            None => path_extension(path@) is None,
        },
{
    std::path::Path::new(path).extension().map(|e| e.to_string_lossy().into_owned())
}

} // verus!

verus! {

/// The characters of a string.
///
/// Trusted: `str::chars`, collected into a vector; the contract claims the
/// vector holds the string's characters in order.
#[verifier::external_body]
pub(crate) fn chars_of(s: &str) -> (r: Vec<char>)
    ensures
        r@ == s@,
{
    s.chars().collect()
}

/// The string made of the given characters.
///
/// Trusted: `String`'s `FromIterator<char>`; the contract claims the string
/// holds exactly these characters in order.
#[verifier::external_body]
pub(crate) fn string_of_chars(cs: &Vec<char>) -> (r: String)
    ensures
        r@ == cs@,
{
    cs.iter().collect()
}

/// The lower-case form of a string, as Unicode defines it.
pub uninterp spec fn lowercase(s: Seq<char>) -> Seq<char>;

/// The lower-case form of `s`.
///
/// Trusted: `str::to_lowercase`, which applies Unicode's lower-case mapping
/// to the whole string (a character may become several, and a capital
/// sigma depends on where in a word it stands); the result is a function of
/// `s` alone, and the contract names it `lowercase(s)`.
#[verifier::external_body]
pub(crate) fn to_lowercase(s: &str) -> (r: String)
    ensures
        r@ == lowercase(s@),
{
    s.to_lowercase()
}

/// `s` with each occurrence of `from` replaced by `to`.
pub open spec fn replace_char(s: Seq<char>, from: char, to: char) -> Seq<char> {
    s.map_values(|c: char| if c == from { to } else { c })
}

/// `s` with each occurrence of `from` replaced by `to`.
pub fn replace_char_in(s: &str, from: char, to: char) -> (r: String)
    ensures
        r@ == replace_char(s@, from, to),
{
    let cs = chars_of(s);
    let mut out: Vec<char> = Vec::new();
    let mut i: usize = 0;
    while i < cs.len()
        invariant
            i <= cs@.len(),
            cs@ == s@,
            out@ == replace_char(s@.take(i as int), from, to),
        decreases cs@.len() - i,
    {
        let c = cs[i];
        if c == from {
            out.push(to);
        } else {
            out.push(c);
        }
        proof {
            assert(replace_char(s@.take(i + 1), from, to) =~= replace_char(s@.take(i as int), from, to).push(
                if c == from { to } else { c },
            ));
        }
        i = i + 1;
    }
    proof {
        assert(s@.take(cs@.len() as int) =~= s@);
    }
    string_of_chars(&out)
}

/// `s` with each `::`, taken from left to right, replaced by `_`.
pub open spec fn replace_path_separators(s: Seq<char>) -> Seq<char>
    decreases s.len(),
{
    if s.len() == 0 {
        s
    } else if s.len() >= 2 && s[0] == ':' && s[1] == ':' {
        seq!['_'] + replace_path_separators(s.skip(2))
    } else {
        seq![s[0]] + replace_path_separators(s.skip(1))
    }
}

/// `s` with each `::`, taken from left to right, replaced by `_`.
pub fn replace_path_separators_in(s: &str) -> (r: String)
    ensures
        r@ == replace_path_separators(s@),
{
    let cs = chars_of(s);
    let mut out: Vec<char> = Vec::new();
    let mut i: usize = 0;
    proof {
        assert(s@.skip(0) =~= s@);
        assert(out@ + replace_path_separators(s@) =~= replace_path_separators(s@));
    }
    while i < cs.len()
        invariant
            i <= cs@.len(),
            cs@ == s@,
            out@ + replace_path_separators(s@.skip(i as int)) == replace_path_separators(s@),
        decreases cs@.len() - i,
    {
        let ghost rest = s@.skip(i as int);
        if i + 1 < cs.len() && cs[i] == ':' && cs[i + 1] == ':' {
            out.push('_');
            proof {
                assert(rest.skip(2) =~= s@.skip(i + 2));
                assert(out@ + replace_path_separators(s@.skip(i + 2)) =~= (out@.drop_last() + seq!['_'])
                    + replace_path_separators(rest.skip(2)));
            }
            i = i + 2;
        } else {
            out.push(cs[i]);
            proof {
                assert(rest.skip(1) =~= s@.skip(i + 1));
                assert(out@ + replace_path_separators(s@.skip(i + 1)) =~= (out@.drop_last() + seq![
                    rest[0],
                ]) + replace_path_separators(rest.skip(1)));
            }
            i = i + 1;
        }
    }
    proof {
        assert(s@.skip(cs@.len() as int) =~= Seq::<char>::empty());
        assert(out@ + Seq::<char>::empty() =~= out@);
    }
    string_of_chars(&out)
}

/// Whether `s` ends with `suffix`.
pub open spec fn ends_with(s: Seq<char>, suffix: Seq<char>) -> bool {
    suffix.len() <= s.len() && s.subrange(s.len() - suffix.len(), s.len() as int) == suffix
}

/// Whether `s` ends with `suffix`.
pub fn str_ends_with(s: &str, suffix: &str) -> (b: bool)
    ensures
        b == ends_with(s@, suffix@),
{
    let cs = chars_of(s);
    let ss = chars_of(suffix);
    if ss.len() > cs.len() {
        return false;
    }
    let start = cs.len() - ss.len();
    let mut i: usize = 0;
    while i < ss.len()
        invariant
            cs@ == s@,
            ss@ == suffix@,
            ss@.len() <= cs@.len(),
            start == cs@.len() - ss@.len(),
            i <= ss@.len(),
            forall|j: int| 0 <= j < i ==> cs@[start + j] == ss@[j],
        decreases ss@.len() - i,
    {
        let n = cs.len();
        assert(start + i < n);
        if cs[start + i] != ss[i] {
            proof {
                assert(s@.subrange(start as int, s@.len() as int)[i as int] != suffix@[i as int]);
            }
            return false;
        }
        i = i + 1;
    }
    proof {
        assert(s@.subrange(start as int, s@.len() as int) =~= suffix@);
    }
    true
}

/// Whether `s` holds the character `c`.
pub fn str_contains_char(s: &str, c: char) -> (b: bool)
    ensures
        b == s@.contains(c),
{
    let cs = chars_of(s);
    let mut i: usize = 0;
    while i < cs.len()
        invariant
            cs@ == s@,
            i <= cs@.len(),
            forall|j: int| 0 <= j < i ==> cs@[j] != c,
        decreases cs@.len() - i,
    {
        if cs[i] == c {
            proof {
                assert(s@[i as int] == c);
            }
            return true;
        }
        i = i + 1;
    }
    false
}

} // verus!
