//! The identifier under which memory allocations are accounted: either
//! the untrusted host context, or one enclave.
//!
//! The enclave-identifier allocation policy itself is a placeholder:
//! creation currently stamps every enclave with the same identifier, and
//! a real uniqueness and reuse policy is left to a collaborator.

use vstd::prelude::*;

verus! {

/// The logical owner of a resource: the host, or an enclave by number.
#[derive(Clone, Copy, Debug, PartialEq, Eq, Structural)]
pub enum EnclaveId {
    /// The untrusted host context.
    Host,
    /// An enclave, by its number.
    Encl(usize),
}

} // verus!
