//! Account primitives (private keys, addresses, view keys, signatures) for a caller that
//! can hold only opaque handles. Entities live in a `Registry` that the caller is handed
//! and passes to every operation; handles are identifiers into it, and identifier 0 never
//! names anything.
use vstd::prelude::*;

pub mod account;
pub mod crypto;
pub mod laws;
pub mod protocol;
pub mod registry;

pub use account::{
    address_from_string, address_to_string, address_verify, create_private_key,
    destroy_address, destroy_private_key, destroy_signature, destroy_view_key,
    private_key_from_string, private_key_sign, private_key_to_address, private_key_to_string,
    private_key_to_view_key, signature_result, validate_address, validate_private_key,
    validate_view_key, view_key_from_string, view_key_to_address, view_key_to_string,
};
pub use protocol::{
    error_result, signature_error_result, signature_success_result, success_result,
    AccountResult, AddressHandle, PrivateKeyHandle, SignatureHandle, SignatureResult,
    ViewKeyHandle,
};
pub use registry::{Registry, INVALID_ID};

verus! {

} // verus!
