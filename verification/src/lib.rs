//! Object-storage core of a minimal content-addressable version-control
//! system: immutable objects (blobs, trees, commits, tags) identified by the
//! cryptographic digest of their framed byte representation, persisted
//! compressed on a filesystem, and resolved through a reference layer that
//! tolerates abbreviated identifiers and symbolic names.

pub mod errors;
pub mod scan;
pub mod text;
pub mod numeral;
pub mod repository;
pub mod object;
pub mod frame;
pub mod store;
pub mod refs;
pub mod walk;
