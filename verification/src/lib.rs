//! Apps Script helpers: `.clasp.json` project configuration, local file
//! selection for uploads, download targets, request framing and error hints.

pub mod error;
pub mod text;
pub mod json;
pub mod path;
pub mod validate;
pub mod clasp_config;
pub mod laws;
pub mod script;

pub use error::GwsError;
pub use clasp_config::{resolve_script_id, ClaspConfig};
pub use script::{file_type_to_extension, ScriptFileType, ScriptHelper};
