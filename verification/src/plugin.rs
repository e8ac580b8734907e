//! The plugin's configuration, and the manager it sets up.

use vstd::prelude::*;
use vstd::string::StringExecFns;
use crate::manager::{BuildProfile, PersistManager};
use crate::paths::dev_file_for;

verus! {

/// Plugin for automatic persistence: the application's organization and
/// name, whether resources are saved automatically when they change, the
/// secret for secure persistence, and which build runs.
pub struct PersistPlugin {
    /// Organization name (e.g. "MyCompany").
    pub organization: String,
    /// Application name (e.g. "MyGame").
    pub app_name: String,
    /// Whether to enable auto-save on changes.
    pub auto_save: bool,
    /// Secret for encrypting secure persistence.
    pub secret: Option<String>,
    /// The build that runs.
    pub profile: BuildProfile,
}

impl Default for PersistPlugin {
    /// The plugin of `DefaultApp` by `DefaultOrg`, with auto-save.
    fn default() -> (p: Self)
        ensures
            p.organization@ == "DefaultOrg"@,
            p.app_name@ == "DefaultApp"@,
            p.auto_save,
            p.secret is None,
            p.profile == BuildProfile::Development,
    {
        PersistPlugin {
            organization: String::from_str("DefaultOrg"),
            app_name: String::from_str("DefaultApp"),
            auto_save: true,
            secret: None,
            profile: BuildProfile::Development,
        }
    }
}

impl PersistPlugin {
    /// Creates a new PersistPlugin with organization and app name, and
    /// auto-save on.
    pub fn new(organization: &str, app_name: &str) -> (p: Self)
        ensures
            p.organization@ == organization@,
            p.app_name@ == app_name@,
            p.auto_save,
            p.secret is None,
            p.profile == BuildProfile::Development,
    {
        PersistPlugin {
            organization: String::from_str(organization),
            app_name: String::from_str(app_name),
            auto_save: true,
            secret: None,
            profile: BuildProfile::Development,
        }
    }

    /// Sets whether auto-save is enabled globally.
    pub fn with_auto_save(self, enabled: bool) -> (p: Self)
        ensures
            p.auto_save == enabled,
            p.organization == self.organization,
            p.app_name == self.app_name,
            p.secret == self.secret,
            p.profile == self.profile,
    {
        PersistPlugin { auto_save: enabled, ..self }
    }

    /// Sets the secret for encrypting secure persistence.
    pub fn with_secret(self, secret: &str) -> (p: Self)
        ensures
            p.secret matches Some(s) && s@ == secret@,
            p.organization == self.organization,
            p.app_name == self.app_name,
            p.auto_save == self.auto_save,
            p.profile == self.profile,
    {
        PersistPlugin { secret: Some(String::from_str(secret)), ..self }
    }

    /// Sets which build runs.
    pub fn with_profile(self, profile: BuildProfile) -> (p: Self)
        ensures
            p.profile == profile,
            p.organization == self.organization,
            p.app_name == self.app_name,
            p.auto_save == self.auto_save,
            p.secret == self.secret,
    {
        PersistPlugin { profile, ..self }
    }

    /// The manager that the plugin installs: one for its organization and
    /// application, with its auto-save setting, its secret and its build.
    pub fn create_manager(&self) -> (m: PersistManager)
        ensures
            m.organization@ == self.organization@,
            m.app_name@ == self.app_name@,
            m.dev_file@ == dev_file_for(self.app_name@),
            m.auto_save == self.auto_save,
            m.auto_save_types@ == Map::<Seq<char>, bool>::empty(),
            m.type_modes() == Map::<Seq<char>, crate::mode::PersistMode>::empty(),
            m.type_embed_files() == Map::<Seq<char>, String>::empty(),
            m.secret_text() == match self.secret {
                Some(s) => Some(s@),
                None => None,
            },
            m.profile == self.profile,
    {
        let mut m = PersistManager::new(self.organization.as_str(), self.app_name.as_str());
        m.auto_save = self.auto_save;
        let m = match &self.secret {
            Some(s) => m.with_secret(s.as_str()),
            None => m,
        };
        m.with_profile(self.profile)
    }
}

} // verus!
