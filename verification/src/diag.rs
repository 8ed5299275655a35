//! Native status interpretation and diagnostic-text extraction.
//!
//! Every native call returns a status. An error status asks the foreign-call
//! layer to read the error-reporting handle's diagnostic buffer; the text is
//! the buffer's bytes up to its first terminating byte. These decisions are
//! pure and verified; only the buffer read itself is a native call.
use vstd::prelude::*;

use crate::error::OciError;

verus! {

/// Native status value reporting success.
pub const OCI_SUCCESS: i32 = 0;

/// Native status value reporting an error with diagnostic information.
pub const OCI_ERROR: i32 = -1;

/// Native status value reporting an invalid handle.
pub const OCI_INVALID_HANDLE: i32 = -2;

/// Native status value reporting that no (more) data exists.
pub const OCI_NO_DATA: i32 = 100;

/// Byte capacity of the diagnostic buffer the foreign-call layer allocates
/// (the native interface's second-generation maximum message size, plus one
/// byte so a terminating byte always fits).
pub const DIAG_BUFFER_LEN: usize = 3073;

/// How a native status is acted on.
#[derive(Clone, Copy, Debug, PartialEq, Eq, Structural)]
pub enum StatusClass {
    /// The call succeeded (any status other than the two error statuses).
    Success,
    /// The call failed; the diagnostic buffer must be read.
    NeedsDiagnostic,
    /// The call was made on an invalid handle; no diagnostic exists.
    InvalidHandle,
}

/// Index of the first zero byte, or the length when none occurs.
pub open spec fn first_nul(s: Seq<u8>) -> int
    decreases s.len(),
{
    if s.len() == 0 {
        0
    } else if s[0] == 0 {
        0
    } else {
        1 + first_nul(s.drop_first())
    }
}

/// The first-zero index lies within the sequence and cuts it at a zero byte
/// (or at its end), with no zero byte before the cut.
pub proof fn lemma_first_nul_bounds(s: Seq<u8>)
    ensures
        0 <= first_nul(s) <= s.len(),
        first_nul(s) < s.len() ==> s[first_nul(s)] == 0,
        forall|k: int| 0 <= k < first_nul(s) ==> s[k] != 0,
    decreases s.len(),
{
    if s.len() > 0 && s[0] != 0 {
        lemma_first_nul_bounds(s.drop_first());
        assert forall|k: int| 0 <= k < first_nul(s) implies s[k] != 0 by {
            if k > 0 {
                assert(s.drop_first()[k - 1] == s[k]);
            }
        }
    }
}

/// Sorts a native status into success, needs-diagnostic, or invalid-handle.
pub fn classify_status(status: i32) -> (r: StatusClass)
    ensures
        r == StatusClass::NeedsDiagnostic <==> status == OCI_ERROR,
        r == StatusClass::InvalidHandle <==> status == OCI_INVALID_HANDLE,
        r == StatusClass::Success <==> (status != OCI_ERROR && status != OCI_INVALID_HANDLE),
{
    if status == OCI_ERROR {
        StatusClass::NeedsDiagnostic
    } else if status == OCI_INVALID_HANDLE {
        StatusClass::InvalidHandle
    } else {
        StatusClass::Success
    }
}

/// The diagnostic text: the buffer's bytes up to (not including) its first
/// terminating byte, or the whole buffer when none occurs.
pub fn extract_diagnostic(errbuf: &Vec<u8>) -> (r: Vec<u8>)
    ensures
        r@ == errbuf@.subrange(0, first_nul(errbuf@)),
{
    proof {
        lemma_first_nul_bounds(errbuf@);
    }
    let mut out: Vec<u8> = Vec::new();
    let mut i: usize = 0;
    loop
        invariant
            i <= errbuf@.len(),
            out@.len() == i,
            i <= first_nul(errbuf@),
            forall|k: int| 0 <= k < i ==> out@[k] == errbuf@[k] && errbuf@[k] != 0,
        decreases errbuf@.len() - i,
    {
        if i == errbuf.len() {
            proof {
                lemma_first_nul_bounds(errbuf@);
                assert(first_nul(errbuf@) == i);
                assert(out@ =~= errbuf@.subrange(0, first_nul(errbuf@)));
            }
            return out;
        }
        let b = errbuf[i];
        if b == 0 {
            proof {
                lemma_first_nul_bounds(errbuf@);
                lemma_first_nul_at(errbuf@, i as int);
                assert(out@ =~= errbuf@.subrange(0, first_nul(errbuf@)));
            }
            return out;
        }
        out.push(b);
        proof {
            lemma_first_nul_past(errbuf@, i as int);
        }
        i = i + 1;
    }
}

/// If no zero byte stands before `i` and `s[i]` is zero, the first-zero
/// index is exactly `i`.
proof fn lemma_first_nul_at(s: Seq<u8>, i: int)
    requires
        0 <= i < s.len(),
        s[i] == 0,
        forall|k: int| 0 <= k < i ==> s[k] != 0,
    ensures
        first_nul(s) == i,
    decreases s.len(),
{
    if i > 0 {
        assert forall|k: int| 0 <= k < i - 1 implies s.drop_first()[k] != 0 by {
            assert(s.drop_first()[k] == s[k + 1]);
        }
        assert(s.drop_first()[i - 1] == s[i]);
        lemma_first_nul_at(s.drop_first(), i - 1);
    }
}

/// If no zero byte stands at or before `i`, the first-zero index lies
/// beyond `i`.
proof fn lemma_first_nul_past(s: Seq<u8>, i: int)
    requires
        0 <= i < s.len(),
        forall|k: int| 0 <= k <= i ==> s[k] != 0,
    ensures
        first_nul(s) > i,
    decreases s.len(),
{
    if i > 0 {
        assert forall|k: int| 0 <= k <= i - 1 implies s.drop_first()[k] != 0 by {
            assert(s.drop_first()[k] == s[k + 1]);
        }
        lemma_first_nul_past(s.drop_first(), i - 1);
    } else {
        lemma_first_nul_bounds(s.drop_first());
    }
}

/// Interprets what reading the diagnostic buffer reported, after a call
/// came back with the error status: a no-data report from the read means
/// the call is treated as successful; anything else is a command failure
/// carrying the buffer's text up to its first terminating byte.
pub fn diagnostic_result(read_status: i32, errbuf: &Vec<u8>) -> (r: Result<(), OciError>)
    ensures
        read_status == OCI_NO_DATA <==> r is Ok,
        read_status != OCI_NO_DATA ==> (r matches Err(e) && e matches OciError::CommandFailure(d)
            && d@ == errbuf@.subrange(0, first_nul(errbuf@))),
{
    if read_status == OCI_NO_DATA {
        Ok(())
    } else {
        Err(OciError::CommandFailure(extract_diagnostic(errbuf)))
    }
}

} // verus!
