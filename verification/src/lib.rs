//! Capability-gated host permissions and a promise bridge for an embedded
//! scripting engine.
//!
//! The permission model decides, for every host resource a guest program
//! reaches for, whether the access is allowed or denied. The bridge decides
//! how a host caller waits for a guest promise. Both are stated over
//! mathematical models of their state and proved against them.
//!
//! Nothing here touches the guest engine, a lock or the filesystem: the
//! host reads from them, asks this library, and acts on the answer.

pub mod error;
pub mod js_value;
pub mod permissions;
pub mod text;
pub mod traits;

pub use error::{Error, JsError};
