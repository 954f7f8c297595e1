//! Authorization of program-function calls for a privacy-preserving virtual
//! machine: a caller's private key, a program and function identifier, and a
//! list of typed inputs are turned into a signed `Request` whose per-input
//! identifiers depend on each input's visibility class, and one or more
//! `Request`s are bundled into an ordered `Authorization`.
//!
//! The field, group and hash primitives of the underlying curve are consumed
//! from the `snarkvm` console crates through a small set of trusted bindings;
//! everything built on top of them — message construction, the per-input
//! identifier policy, the Schnorr-style challenge and response, and the
//! verifier that mirrors them — is verified.

use vstd::prelude::*;

pub mod authorization;
pub mod bytes;
pub mod field;
pub mod group;
pub mod keys;
pub mod message;
pub mod poseidon;
pub mod program;
pub mod request;
pub mod scalar;
