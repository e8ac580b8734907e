//! How a resource is persisted, and the configuration that a resource's
//! `persist` attributes give it.

use vstd::prelude::*;
use vstd::string::StringExecFns;
use crate::text::{lowercase, replace_path_separators, replace_path_separators_in, str_eq, to_lowercase};
use crate::error::concat_str;

verus! {

/// Persistence mode for a resource.
#[derive(Debug, Clone, Copy, PartialEq, Eq, Structural)]
pub enum PersistMode {
    /// Development mode: saves to local files for tweaking.
    Dev,
    /// Embed mode: values are compiled into the binary.
    Embed,
    /// Dynamic mode: user settings that persist across runs.
    Dynamic,
    /// Secure mode: encrypted or obfuscated save data.
    Secure,
}

/// The mode that a mode's name stands for; an unknown name means `Dev`.
pub open spec fn mode_named(name: Seq<char>) -> PersistMode {
    if name == "embed"@ {
        PersistMode::Embed
    } else if name == "dynamic"@ {
        PersistMode::Dynamic
    } else if name == "secure"@ {
        PersistMode::Secure
    } else {
        PersistMode::Dev
    }
}

/// The mode that `name` stands for: `embed`, `dynamic` and `secure` name
/// their modes, and any other name means `Dev`.
pub fn mode_from_str(name: &str) -> (m: PersistMode)
    ensures
        m == mode_named(name@),
{
    if str_eq(name, "embed") {
        PersistMode::Embed
    } else if str_eq(name, "dynamic") {
        PersistMode::Dynamic
    } else if str_eq(name, "secure") {
        PersistMode::Secure
    } else {
        PersistMode::Dev
    }
}

/// One item of a resource's `persist` attribute.
pub enum PersistAttr {
    /// `auto_save = <bool>`
    AutoSave(bool),
    /// `file = "<path>"`
    File(String),
    /// `mode = "<name>"`
    Mode(String),
    /// `embed`, or `embed = "<path>"`
    Embed(Option<String>),
    /// `dynamic`
    Dynamic,
    /// `secure`
    Secure,
    /// Any other item, which is ignored.
    Other,
}

/// The persistence configuration of a resource.
pub struct PersistAttrConfig {
    pub auto_save: bool,
    pub persist_file: Option<String>,
    pub persist_mode: String,
    pub embed_file: Option<String>,
}

/// The configuration as plain values.
pub struct AttrConfigView {
    pub auto_save: bool,
    pub persist_file: Option<Seq<char>>,
    pub persist_mode: Seq<char>,
    pub embed_file: Option<Seq<char>>,
}

impl PersistAttrConfig {
    pub open spec fn view_of(self) -> AttrConfigView {
        AttrConfigView {
            auto_save: self.auto_save,
            persist_file: match self.persist_file {
                Some(f) => Some(f@),
                None => None,
            },
            persist_mode: self.persist_mode@,
            embed_file: match self.embed_file {
                Some(f) => Some(f@),
                None => None,
            },
        }
    }
}

/// The configuration of a resource with no attribute: saved automatically,
/// in `dev` mode, with no file of its own.
pub open spec fn default_attr_config() -> AttrConfigView {
    AttrConfigView { auto_save: true, persist_file: None, persist_mode: "dev"@, embed_file: None }
}

/// The configuration after one more attribute item.
pub open spec fn apply_attr(c: AttrConfigView, a: PersistAttr) -> AttrConfigView {
    match a {
        PersistAttr::AutoSave(b) => AttrConfigView { auto_save: b, ..c },
        PersistAttr::File(f) => AttrConfigView { persist_file: Some(f@), ..c },
        PersistAttr::Mode(m) => AttrConfigView { persist_mode: m@, ..c },
        PersistAttr::Embed(Some(f)) => AttrConfigView {
            embed_file: Some(f@),
            persist_mode: "embed"@,
            ..c
        },
        PersistAttr::Embed(None) => AttrConfigView { persist_mode: "embed"@, ..c },
        PersistAttr::Dynamic => AttrConfigView { persist_mode: "dynamic"@, ..c },
        PersistAttr::Secure => AttrConfigView { persist_mode: "secure"@, ..c },
        PersistAttr::Other => c,
    }
}

/// The configuration that a list of attribute items gives, the items taken
/// in order, later ones overriding earlier ones.
pub open spec fn attrs_config(attrs: Seq<PersistAttr>) -> AttrConfigView
    decreases attrs.len(),
{
    if attrs.len() == 0 {
        default_attr_config()
    } else {
        apply_attr(attrs_config(attrs.drop_last()), attrs.last())
    }
}

/// What one more attribute item does to a configuration: `auto_save = b`
/// sets auto-save to `b`; `file = f` sets the file; `mode = m` sets the mode
/// to `m`; `embed` sets the mode to `embed` and, with a path, the embed
/// file; `dynamic` and `secure` set the mode to theirs.  Every field that an
/// item does not name keeps the value the earlier items gave it, so the
/// mode of `[secure, auto_save = false]` is `secure`.
pub proof fn lemma_attr_item_changes_only_its_field(attrs: Seq<PersistAttr>, item: PersistAttr)
    ensures
        ({
            let before = attrs_config(attrs);
            let after = attrs_config(attrs.push(item));
            &&& after.auto_save == match item {
                PersistAttr::AutoSave(b) => b,
                _ => before.auto_save,
            }
            &&& after.persist_file == match item {
                PersistAttr::File(f) => Some(f@),
                _ => before.persist_file,
            }
            &&& after.persist_mode == match item {
                PersistAttr::Mode(m) => m@,
                PersistAttr::Embed(_) => "embed"@,
                PersistAttr::Dynamic => "dynamic"@,
                PersistAttr::Secure => "secure"@,
                _ => before.persist_mode,
            }
            &&& after.embed_file == match item {
                PersistAttr::Embed(Some(f)) => Some(f@),
                _ => before.embed_file,
            }
        }),
{
    assert(attrs.push(item).drop_last() =~= attrs);
}

/// Items that name neither the mode nor the embed file (`auto_save`,
/// `file`, unknown items) leave both as the earlier items set them: a
/// `secure` item followed by such items leaves the resource `secure`.
pub proof fn lemma_mode_survives_other_items(attrs: Seq<PersistAttr>, rest: Seq<PersistAttr>)
    requires
        forall|i: int|
            0 <= i < rest.len() ==> (#[trigger] rest[i] is AutoSave || rest[i] is File || rest[i] is Other),
    ensures
        attrs_config(attrs + rest).persist_mode == attrs_config(attrs).persist_mode,
        attrs_config(attrs + rest).embed_file == attrs_config(attrs).embed_file,
    decreases rest.len(),
{
    if rest.len() > 0 {
        let shorter = rest.drop_last();
        assert forall|i: int| 0 <= i < shorter.len() implies (#[trigger] shorter[i] is AutoSave
            || shorter[i] is File || shorter[i] is Other) by {
            assert(shorter[i] == rest[i]);
        }
        lemma_mode_survives_other_items(attrs, shorter);
        assert((attrs + rest).drop_last() =~= attrs + shorter);
        assert((attrs + rest).last() == rest[rest.len() - 1]);
    } else {
        assert(attrs + rest =~= attrs);
    }
}

fn clone_opt(s: &Option<String>) -> (r: Option<String>)
    ensures
        r == *s,
{
    match s {
        Some(x) => Some(x.clone()),
        None => None,
    }
}

/// Reads a resource's `persist` attribute items into its configuration.
pub fn parse_persist_attrs(attrs: &Vec<PersistAttr>) -> (c: PersistAttrConfig)
    ensures
        c.view_of() == attrs_config(attrs@),
{
    let mut c = PersistAttrConfig {
        auto_save: true,
        persist_file: None,
        persist_mode: String::from_str("dev"),
        embed_file: None,
    };
    let mut i: usize = 0;
    while i < attrs.len()
        invariant
            i <= attrs@.len(),
            c.view_of() == attrs_config(attrs@.take(i as int)),
        decreases attrs@.len() - i,
    {
        proof {
            assert(attrs@.take(i + 1).drop_last() =~= attrs@.take(i as int));
            assert(attrs@.take(i + 1).last() == attrs@[i as int]);
        }
        match &attrs[i] {
            PersistAttr::AutoSave(b) => {
                c.auto_save = *b;
            },
            PersistAttr::File(f) => {
                c.persist_file = Some(f.clone());
            },
            PersistAttr::Mode(m) => {
                c.persist_mode = m.clone();
            },
            PersistAttr::Embed(f) => {
                if f.is_some() {
                    c.embed_file = clone_opt(f);
                }
                c.persist_mode = String::from_str("embed");
            },
            PersistAttr::Dynamic => {
                c.persist_mode = String::from_str("dynamic");
            },
            PersistAttr::Secure => {
                c.persist_mode = String::from_str("secure");
            },
            PersistAttr::Other => {},
        }
        i = i + 1;
    }
    proof {
        assert(attrs@.take(attrs@.len() as int) =~= attrs@);
    }
    c
}

/// The name under which a resource's embedded data is kept: its type name
/// in lower case, each `::` replaced by `_`.
pub open spec fn embed_stem(resource_name: Seq<char>) -> Seq<char> {
    replace_path_separators(lowercase(resource_name))
}

/// The file that an embedded resource's data is compiled from: the file its
/// attribute names, or `../assets/persist/<stem>.ron`.
pub open spec fn embed_source(resource_name: Seq<char>, embed_file: Option<Seq<char>>) -> Seq<char> {
    match embed_file {
        Some(f) => f,
        None => "../assets/persist/"@ + embed_stem(resource_name) + ".ron"@,
    }
}

/// The file that an embedded resource's data is compiled from.
pub fn embed_source_path(resource_name: &str, embed_file: &Option<String>) -> (p: String)
    ensures
        p@ == embed_source(
            resource_name@,
            match embed_file {
                Some(f) => Some(f@),
                None => None,
            },
        ),
{
    match embed_file {
        Some(f) => f.clone(),
        None => {
            let lower = to_lowercase(resource_name);
            let stem = replace_path_separators_in(lower.as_str());
            let p = concat_str("../assets/persist/", stem.as_str());
            concat_str(p.as_str(), ".ron")
        },
    }
}

} // verus!
