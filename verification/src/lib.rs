//! A binary component object model core: objects that expose one or more
//! independently callable interfaces through dispatch tables, with one shared
//! intrusive reference count per object and dynamic, identifier-keyed
//! interface discovery.
//!
//! The object is one allocation with a validated index-to-offset table:
//! an interface pointer addresses one of the object's dispatch-pointer
//! fields, at a fixed byte offset from the object base, and the adjustor
//! thunks recover the base by subtracting exactly that offset.
//!
//! The model is single-threaded by design: the shared reference count is a
//! plain non-atomic counter, and concurrent use of one object from several
//! threads without external synchronization is outside the contract.

pub mod arena;
pub mod desc;
pub mod iid;
pub mod object;
pub mod status;
pub mod vtable;
