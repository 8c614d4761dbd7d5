//! Management of user-level background services: unit files, liveness,
//! metadata overlay, lifecycle sequencing and remote synchronisation.
//!
//! The library decides and the caller acts. Commands, changes to files and
//! requests over HTTP are described here and handed out; the caller
//! carries them out and reports back, and what came of them is judged
//! here again.

pub mod command;
pub mod descriptor;
pub mod error;
pub mod http;
pub mod label_map;
pub mod lifecycle;
pub mod listing;
pub mod liveness;
pub mod overlay;
pub mod paths;
pub mod platform;
pub mod presets;
pub mod process;
pub mod property_list;
pub mod settings;
pub mod sync;
pub mod text;
pub mod unit_file;

pub use descriptor::{LaunchAgent, PresetService, ServiceConfig, ServiceMetadata};
pub use platform::{get_current_platform, Platform};
pub use presets::get_preset_services;
pub use settings::AppSettings;
pub use sync::{chrono_now, get_webdav_dir_url, get_webdav_sync_url, WebDavSyncData};
