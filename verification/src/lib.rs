//! Builder of `obsidian://` links: an action, an ordered list of parameters
//! whose values are percent-encoded, and the text of the finished link.

pub mod dispatch;
pub mod encoding;
pub mod order;
pub mod parameter;
pub mod separators;
pub mod uri;

pub use dispatch::{dispatch_result, DispatchError};
pub use parameter::Parameter;
pub use uri::ObsidianUri;
