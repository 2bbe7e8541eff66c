//! Heterogeneous containers: a keyed mapping and an indexed sequence
//! whose slots each hold a value of an arbitrary concrete type.
//!
//! Values are erased at insertion into opaque owned handles and
//! retrieved through typed accessors that name the expected type.
//! Typed access is checked: a handle keeps its value's runtime type
//! identity, and an access naming the wrong type yields the same empty
//! result as an absent key or index, never undefined behavior. A
//! mismatch is therefore indistinguishable from absence, and a value
//! overwritten under the wrong type is dropped rather than returned.
//!
//! The verified contracts cover the containers' shape: lengths,
//! domains, shifting, and which slots each operation touches. The
//! correspondence between a stored value and what a matching typed
//! access returns rests on the checked downcasts of `core::any` and is
//! exercised by this crate's tests.

mod anyhashmap;
mod anyvec;
mod cast;

pub use anyhashmap::AnyHashMap;
pub use anyvec::AnyVec;
pub use anyvec::lemma_push_then_pop_restores;
pub use cast::AsAny;
pub use cast::ErasedValue;
