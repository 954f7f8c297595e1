//! The arguments of a message-generation command: the function to call, its
//! inputs, and how to reach a network endpoint. The surrounding program
//! parses its command line into this shape and drives the signing call.

use vstd::prelude::*;
use crate::program::Ident;
use crate::program::Value;

verus! {

/// A request to generate a signed message for a function call.
pub struct Message {
    /// The function name.
    pub function: Ident,
    /// The function inputs.
    pub inputs: Vec<Value>,
    /// The endpoint to query for program metadata.
    pub endpoint: String,
    /// Whether to work offline.
    pub offline: bool,
}

} // verus!
