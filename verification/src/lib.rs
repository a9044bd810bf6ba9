//! Adapter that lets an arbitrary bidirectional byte stream back a foreign
//! channel object driven through a table of callbacks.
//!
//! The foreign side is modelled explicitly: [`bio::Bio`] stands for the
//! channel object with its opaque state slot, descriptor pointer, retry
//! flags and initialisation mark, and [`method::BioMethod`] for the
//! descriptor table itself.  The callback bodies (`bwrite`, `bread`,
//! `bputs`, `ctrl`, `create`, `destroy`) are ordinary verified functions
//! over that model, and the attach/detach lifecycle is governed by the
//! invariant that an attached object always carries the active descriptor
//! while a detached one carries the inert, destroy-only descriptor.

pub mod bio;
pub mod error;
pub mod laws;
pub mod method;
pub mod stream;
