//! The inter-context message channel.  The channel is a declared but
//! unimplemented stub: every function number is answered with "not
//! supported".

use vstd::prelude::*;
use crate::sbi::{SbiRet, RET_ERR_NOT_SUPPORTED};

verus! {

/// The function numbers of the message channel; none are assigned yet.
pub struct MessageCallFunc;

/// Handle a message call.  No message functions exist yet, so every
/// request — whatever its function number or parameters — is answered
/// with "not supported".
pub fn handle_message_call(function: usize, _param: [usize; 7]) -> (r: SbiRet)
    ensures
        r == (SbiRet { error: RET_ERR_NOT_SUPPORTED, value: 0 }),
{
    SbiRet::not_supported()
}

} // verus!
