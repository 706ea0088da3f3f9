//! Durable on-disk representation of a single validator's secret material and
//! safety state.
//!
//! The crate verifies the directory lifecycle protocol of a proof-of-stake
//! signing client: an ordered, fallible construction sequence (the builder)
//! and a validation-heavy load path.  File storage is modelled as an explicit
//! value (a disk of named vaults), so that the check-then-create discipline,
//! the owner-only permission policy, the persisted-key codec and the
//! deposit-file format are all stated and proved.  The cryptographic
//! signature scheme, the deposit-payload encoder and the safety-history
//! service are external collaborators: their outputs enter the library as
//! plain values.

pub mod builder;
pub mod bytes;
pub mod errors;
pub mod hexenc;
pub mod directory;
pub mod disk;
pub mod keypair;
pub mod laws;
