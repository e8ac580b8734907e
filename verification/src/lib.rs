//! Persistence of application resources: the data model that is written to
//! disk, the per-type configuration of how each resource is persisted, the
//! naming of the files it goes to, and the sealing of secure save data.
//!
//! Everything here computes on plain values.  Reading and writing files, and
//! turning the data model into JSON or RON text, is left to the caller, which
//! hands the results back to the functions of this crate.

pub mod clock;
pub mod data;
pub mod error;
pub mod json;
pub mod manager;
pub mod mode;
pub mod paths;
pub mod plugin;
pub mod secure;
pub mod storage;
pub mod string_map;
pub mod system;
pub mod text;

pub use data::{FileFormat, LoadPlan, PersistData, PersistFile, SaveRequest};
pub use error::{PersistError, PersistResult};
pub use manager::{BuildProfile, PersistManager};
pub use mode::{PersistAttr, PersistAttrConfig, PersistMode, mode_from_str, parse_persist_attrs};
pub use plugin::PersistPlugin;
pub use string_map::StringMap;
