//! Ownership-tracked operating-system handles and sockets, and the
//! punctuation table of the C character-class layer.
//!
//! The wrappers decide which system calls are owed and when; the calls
//! themselves (closing, duplicating) are made by the caller, which hands
//! their results back.
pub mod handle;
pub mod metadata;
pub mod os_error;
pub mod punct;
pub mod socket;
