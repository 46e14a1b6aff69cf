//! Typed access to guest values: the shape check of a wrapper, the
//! properties of a guest object, and the bridge to guest promises.

pub mod object;
pub mod promise;
pub mod shape;

pub use object::{collected, to_rust_hashmap};
pub use promise::{poll_promise, resolve_step, BridgeStep, Observation, PromisePoll, PromiseState};
pub use shape::{check_shape, Shape, TypedHandle, ValueFacts};
pub use vstd::hash_map::StringHashMap;
