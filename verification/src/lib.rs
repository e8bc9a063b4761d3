//! Primitives for handling the objects of a reference-counted host runtime
//! that is reached through a C ABI.
//!
//! The library holds the decisions of the adapter layer: what counts as the
//! same object, when an answer of the runtime means absence, how a reference
//! count may be given back, which entry point a method call goes through.
//! Handles are held as addresses and object headers as plain values, so every
//! rule is stated and proved over values. Crossing the ABI itself is left to
//! the embedding code, which performs the calls that this library describes.

pub mod abi;
pub mod handle;
pub mod hint;
pub mod iter;
pub mod method;
pub mod object;
pub mod text;

pub use abi::{EntryPoint, ForeignCall, MAX_ARGS};
pub use handle::{is_type, nonnull, NonNullHandle, ObjectHandle};
pub use hint::unlikely;
pub use iter::{get_iter, get_iter_call, iter_next, iter_next_call};
pub use method::{call_method, MethodAbi};
pub use object::{ob_type, py_decref_without_destroy, ObjectHeader};
pub use text::str_from_slice;
