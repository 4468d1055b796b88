//! What crosses the boundary: handles that name registry entries, and the two result
//! shapes through which success or failure is reported.
use vstd::prelude::*;

verus! {

/// Names a private key in the registry; identifier 0 names nothing.
#[derive(Clone, Copy, Debug, PartialEq, Eq, Structural)]
pub struct PrivateKeyHandle {
    pub id: u64,
}

/// Names an address in the registry; identifier 0 names nothing.
#[derive(Clone, Copy, Debug, PartialEq, Eq, Structural)]
pub struct AddressHandle {
    pub id: u64,
}

/// Names a view key in the registry; identifier 0 names nothing.
#[derive(Clone, Copy, Debug, PartialEq, Eq, Structural)]
pub struct ViewKeyHandle {
    pub id: u64,
}

/// Names a signature in the registry; identifier 0 names nothing.
#[derive(Clone, Copy, Debug, PartialEq, Eq, Structural)]
pub struct SignatureHandle {
    pub id: u64,
}

/// A textual result: on success `result` holds the text and `error` is empty; on
/// failure `result` is empty and `error` says what went wrong.
#[derive(Debug)]
pub struct AccountResult {
    pub success: bool,
    pub result: String,
    pub error: String,
}

/// A binary result: on success `signature_bytes` holds the bytes and `error` is empty;
/// on failure `signature_bytes` is empty and `error` says what went wrong.
#[derive(Debug)]
pub struct SignatureResult {
    pub success: bool,
    pub signature_bytes: Vec<u8>,
    pub error: String,
}

/// `r` reports `outcome`: the text on `Some`, the diagnostic `error` on `None`.
pub open spec fn reports_text(r: AccountResult, outcome: Option<Seq<char>>, error: Seq<char>) -> bool {
    match outcome {
        Some(text) => r.success && r.result@ == text && r.error@ == Seq::<char>::empty(),
        None => !r.success && r.result@ == Seq::<char>::empty() && r.error@ == error,
    }
}

/// `r` reports a failure with the diagnostic `error`.
pub open spec fn reports_bytes_error(r: SignatureResult, error: Seq<char>) -> bool {
    !r.success && r.signature_bytes@ == Seq::<u8>::empty() && r.error@ == error
}

/// `r` reports success with `bytes`.
pub open spec fn reports_bytes(r: SignatureResult, bytes: Seq<u8>) -> bool {
    r.success && r.signature_bytes@ == bytes && r.error@ == Seq::<char>::empty()
}

pub fn error_result(error: String) -> (r: AccountResult)
    ensures
        reports_text(r, None, error@),
{
    AccountResult { success: false, result: String::new(), error }
}

pub fn success_result(result: String) -> (r: AccountResult)
    ensures
        reports_text(r, Some(result@), Seq::empty()),
{
    AccountResult { success: true, result, error: String::new() }
}

pub fn signature_error_result(error: String) -> (r: SignatureResult)
    ensures
        reports_bytes_error(r, error@),
{
    SignatureResult { success: false, signature_bytes: Vec::new(), error }
}

pub fn signature_success_result(signature_bytes: Vec<u8>) -> (r: SignatureResult)
    ensures
        reports_bytes(r, signature_bytes@),
{
    SignatureResult { success: true, signature_bytes, error: String::new() }
}

} // verus!
