//! Where persisted data goes: file names derived from the application's and
//! the resources' names, and paths joined from directories.

use vstd::prelude::*;
use crate::error::concat_str;
use crate::mode::embed_stem;
use crate::text::{lowercase, replace_char, replace_char_in, replace_path_separators_in, to_lowercase};

verus! {

/// The development file of an application: its name in lower case, spaces
/// replaced by `_`, followed by `_dev.ron`.
pub open spec fn dev_file_for(app_name: Seq<char>) -> Seq<char> {
    replace_char(lowercase(app_name), ' ', '_') + "_dev.ron"@
}

/// The development file of an application is its name in lower case with
/// every space turned into `_`, character by character, followed by
/// `_dev.ron`; it holds no space.
pub proof fn lemma_dev_file_characters(app_name: Seq<char>)
    ensures
        ({
            let lower = lowercase(app_name);
            let f = dev_file_for(app_name);
            &&& f.len() == lower.len() + 8
            &&& forall|i: int| 0 <= i < lower.len() ==> #[trigger] f[i] == (if lower[i] == ' ' {
                '_'
            } else {
                lower[i]
            })
            &&& f.subrange(lower.len() as int, f.len() as int) == "_dev.ron"@
            &&& forall|i: int| 0 <= i < f.len() ==> #[trigger] f[i] != ' '
        }),
{
    reveal_strlit("_dev.ron");
    let lower = lowercase(app_name);
    let f = dev_file_for(app_name);
    assert(f.subrange(lower.len() as int, f.len() as int) =~= "_dev.ron"@);
    assert forall|i: int| 0 <= i < f.len() implies #[trigger] f[i] != ' ' by {
        if i >= lower.len() {
            assert(f[i] == "_dev.ron"@[i - lower.len()]);
        }
    }
}

/// The development file of an application, such as `mygame_dev.ron` for
/// `MyGame`.
pub fn dev_file_name(app_name: &str) -> (p: String)
    ensures
        p@ == dev_file_for(app_name@),
{
    let lower = to_lowercase(app_name);
    let stem = replace_char_in(lower.as_str(), ' ', '_');
    concat_str(stem.as_str(), "_dev.ron")
}

/// The path that `std::path::Path::join` makes of a base path and another
/// path.
pub uninterp spec fn path_join(base: Seq<char>, child: Seq<char>) -> Seq<char>;

/// `base` joined with `child`.
///
/// Trusted: `std::path::Path::join`, converted back to a `String`.  Both
/// paths are valid UTF-8, so the joined path is too and the conversion
/// loses nothing; the contract names the result `path_join(base, child)`.
#[verifier::external_body]
pub(crate) fn join_path(base: &str, child: &str) -> (r: String)
    ensures
        r@ == path_join(base@, child@),
{
    std::path::Path::new(base).join(child).to_string_lossy().into_owned()
}

/// The directories that the platform gives an application for its
/// configuration and for its data.
pub struct ProjectPaths {
    pub config_dir: String,
    pub data_dir: String,
}

/// What the platform answered when asked for the directories of an
/// application: the directories, if it has them, and the organization and
/// application it was asked about.
pub struct PlatformDirs {
    dirs: Option<ProjectPaths>,
    query: Ghost<(Seq<char>, Seq<char>)>,
}

impl PlatformDirs {
    /// The directories the platform gave, if any.
    pub closed spec fn answer(self) -> Option<ProjectPaths> {
        self.dirs
    }

    /// The organization and the application the platform was asked about.
    pub closed spec fn asked(self) -> (Seq<char>, Seq<char>) {
        self.query@
    }

    /// The directories the platform gave, if any.
    pub fn directories(&self) -> (r: &Option<ProjectPaths>)
        ensures
            *r == self.answer(),
    {
        &self.dirs
    }
}

/// The platform's directories for an application of an organization, when
/// the platform has them.
///
/// Trusted: `directories::ProjectDirs::from("", organization, app_name)`,
/// with `config_dir` and `data_dir` converted to strings.  The answer
/// records the organization and application it was asked about; the
/// directories themselves depend on the environment (the home directory,
/// XDG variables, the platform), so nothing is claimed of them.
#[verifier::external_body]
pub(crate) fn project_paths(organization: &str, app_name: &str) -> (r: PlatformDirs)
    ensures
        r.asked() == (organization@, app_name@),
{
    let dirs = match directories::ProjectDirs::from("", organization, app_name) {
        Some(d) => Some(
            ProjectPaths {
                config_dir: d.config_dir().to_string_lossy().into_owned(),
                data_dir: d.data_dir().to_string_lossy().into_owned(),
            },
        ),
        None => None,
    };
    PlatformDirs { dirs, query: Ghost((organization@, app_name@)) }
}

/// The file in which a resource's data is saved for development when it is
/// embedded in production builds: `<base>/assets/persist/<stem>.ron`.
pub open spec fn embed_file_for(base: Seq<char>, resource_name: Seq<char>) -> Seq<char> {
    path_join(
        path_join(path_join(base, "assets"@), "persist"@),
        embed_stem(resource_name) + ".ron"@,
    )
}

/// The file under `base` in which a resource that is embedded in production
/// builds is saved during development.
pub fn embed_file_path(base: &str, resource_name: &str) -> (p: String)
    ensures
        p@ == embed_file_for(base@, resource_name@),
{
    let assets = join_path(base, "assets");
    let persist = join_path(assets.as_str(), "persist");
    let lower = to_lowercase(resource_name);
    let stem = replace_path_separators_in(lower.as_str());
    let file = concat_str(stem.as_str(), ".ron");
    join_path(persist.as_str(), file.as_str())
}

} // verus!
