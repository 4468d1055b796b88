//! The account operations offered across the boundary. Each one reads and writes the
//! registry that it is handed and calls into the account primitives for the
//! cryptography; construction reports failure with the invalid identifier, rendering
//! with a diagnostic, and validation and verification with a plain `false`.
use vstd::prelude::*;
use crate::crypto::{
    address_parse, address_text, private_key_address, private_key_parse, private_key_text,
    private_key_view_key, signature_accepts, signature_decode, signature_encode, view_key_address,
    view_key_parse, view_key_text, AddressValue, PrivateKeyValue, SignatureValue, ViewKeyValue,
};
use crate::crypto;
use crate::protocol::{
    error_result, reports_bytes, reports_bytes_error, reports_text, signature_error_result,
    signature_success_result, success_result, AccountResult, AddressHandle, PrivateKeyHandle,
    SignatureHandle, SignatureResult, ViewKeyHandle,
};
use crate::registry::{Registry, INVALID_ID};
use vstd::string::StringExecFns;

verus! {

/// The canonical text of the private key named `id`, if it is live.
pub open spec fn private_key_text_of(reg: Registry, id: u64) -> Option<Seq<char>> {
    if reg.private_keys().contains_key(id) {
        Some(private_key_text(reg.private_keys()[id]))
    } else {
        None
    }
}

/// The canonical text of the address named `id`, if it is live.
pub open spec fn address_text_of(reg: Registry, id: u64) -> Option<Seq<char>> {
    if reg.addresses().contains_key(id) {
        Some(address_text(reg.addresses()[id]))
    } else {
        None
    }
}

/// The canonical text of the view key named `id`, if it is live.
pub open spec fn view_key_text_of(reg: Registry, id: u64) -> Option<Seq<char>> {
    if reg.view_keys().contains_key(id) {
        Some(view_key_text(reg.view_keys()[id]))
    } else {
        None
    }
}

/// The address derived from the private key named `id`: `None` where the handle is not
/// live.
pub open spec fn address_of_private_key(reg: Registry, id: u64) -> Option<AddressValue> {
    if reg.private_keys().contains_key(id) {
        Some(private_key_address(reg.private_keys()[id]))
    } else {
        None
    }
}

/// The view key derived from the private key named `id`: `None` where the handle is not
/// live.
pub open spec fn view_key_of_private_key(reg: Registry, id: u64) -> Option<ViewKeyValue> {
    if reg.private_keys().contains_key(id) {
        Some(private_key_view_key(reg.private_keys()[id]))
    } else {
        None
    }
}

/// The address derived from the view key named `id`: `None` where the handle is not live.
pub open spec fn address_of_view_key(reg: Registry, id: u64) -> Option<AddressValue> {
    if reg.view_keys().contains_key(id) {
        Some(view_key_address(reg.view_keys()[id]))
    } else {
        None
    }
}

/// `post` and `id` are what registering `value` in `pre` gives: `value` under a fresh
/// identifier, or nothing and the invalid identifier where there is no value or no
/// identifier left.
pub open spec fn stored_private_key(pre: Registry, post: Registry, value: Option<PrivateKeyValue>, id: u64) -> bool {
    match value {
        Some(key) => if pre.can_allocate() {
            pre.added_private_key(post, id, key)
        } else {
            id == INVALID_ID && pre.unchanged(post)
        },
        None => id == INVALID_ID && pre.unchanged(post),
    }
}

/// As `stored_private_key`, for an address.
pub open spec fn stored_address(pre: Registry, post: Registry, value: Option<AddressValue>, id: u64) -> bool {
    match value {
        Some(address) => if pre.can_allocate() {
            pre.added_address(post, id, address)
        } else {
            id == INVALID_ID && pre.unchanged(post)
        },
        None => id == INVALID_ID && pre.unchanged(post),
    }
}

/// As `stored_private_key`, for a view key.
pub open spec fn stored_view_key(pre: Registry, post: Registry, value: Option<ViewKeyValue>, id: u64) -> bool {
    match value {
        Some(view_key) => if pre.can_allocate() {
            pre.added_view_key(post, id, view_key)
        } else {
            id == INVALID_ID && pre.unchanged(post)
        },
        None => id == INVALID_ID && pre.unchanged(post),
    }
}

/// `post` and `id` are what creating a private key in `pre` can give: some key under a
/// fresh identifier, or nothing and the invalid identifier.
pub open spec fn created_private_key(pre: Registry, post: Registry, id: u64) -> bool {
    if id == INVALID_ID {
        pre.unchanged(post)
    } else {
        pre.can_allocate() && pre.added_private_key(post, id, post.private_keys()[id])
    }
}

/// `r` reports the outcome of signing: the encoded signature, or a diagnostic.
pub open spec fn signature_reported(r: SignatureResult, outcome: Result<SignatureValue, String>) -> bool {
    match outcome {
        Ok(signature) => match signature_encode(signature) {
            Some(bytes) => reports_bytes(r, bytes),
            None => reports_bytes_error(r, "Signing failed: the signature could not be encoded"@),
        },
        Err(e) => reports_bytes_error(r, "Signing failed: "@ + e@),
    }
}

/// `bytes` decode to a signature that the address of `key` accepts for exactly the
/// `message` bytes.
pub open spec fn signed_by(bytes: Seq<u8>, key: PrivateKeyValue, message: Seq<u8>) -> bool {
    match signature_decode(bytes) {
        Some(s) => signature_accepts(s, private_key_address(key), message),
        None => false,
    }
}

/// What verifying `signature` (bytes) over `message` against the address named `id`
/// answers: `false` unless the handle is live and the bytes decode to a signature that
/// the address accepts for exactly those message bytes.
pub open spec fn verification(reg: Registry, id: u64, signature: Seq<u8>, message: Seq<u8>) -> bool {
    if reg.addresses().contains_key(id) {
        match signature_decode(signature) {
            Some(s) => signature_accepts(s, reg.addresses()[id], message),
            None => false,
        }
    } else {
        false
    }
}

/// Turns the outcome of a signing call into a binary result.
pub fn signature_result(outcome: Result<SignatureValue, String>) -> (r: SignatureResult)
    ensures
        signature_reported(r, outcome),
        r.success == outcome is Ok,
        outcome matches Ok(s) ==> signature_decode(r.signature_bytes@) == Some(s),
{
    match outcome {
        Ok(signature) => match crypto::encode_signature(&signature) {
            Some(bytes) => signature_success_result(bytes),
            None => signature_error_result(
                "Signing failed: the signature could not be encoded".to_owned(),
            ),
        },
        Err(e) => signature_error_result("Signing failed: ".to_owned().concat(e.as_str())),
    }
}

// Registration of values that an outside call produced.

/// Registers `key`, if there is one: the invalid handle where there is none or no
/// identifier is left.
pub fn register_private_key(reg: &mut Registry, key: Option<PrivateKeyValue>) -> (r: PrivateKeyHandle)
    requires
        old(reg).wf(),
    ensures
        final(reg).wf(),
        stored_private_key(*old(reg), *final(reg), key, r.id),
{
    match key {
        Some(key) => PrivateKeyHandle { id: reg.insert_private_key(key) },
        None => PrivateKeyHandle { id: INVALID_ID },
    }
}

/// Registers `address`, if there is one: the invalid handle where there is none or no
/// identifier is left.
pub fn register_address(reg: &mut Registry, address: Option<AddressValue>) -> (r: AddressHandle)
    requires
        old(reg).wf(),
    ensures
        final(reg).wf(),
        stored_address(*old(reg), *final(reg), address, r.id),
{
    match address {
        Some(address) => AddressHandle { id: reg.insert_address(address) },
        None => AddressHandle { id: INVALID_ID },
    }
}

/// Registers `view_key`, if there is one: the invalid handle where there is none or no
/// identifier is left.
pub fn register_view_key(reg: &mut Registry, view_key: Option<ViewKeyValue>) -> (r: ViewKeyHandle)
    requires
        old(reg).wf(),
    ensures
        final(reg).wf(),
        stored_view_key(*old(reg), *final(reg), view_key, r.id),
{
    match view_key {
        Some(view_key) => ViewKeyHandle { id: reg.insert_view_key(view_key) },
        None => ViewKeyHandle { id: INVALID_ID },
    }
}

// Private keys.

/// Generates a random private key and registers it.
pub fn create_private_key(reg: &mut Registry) -> (r: PrivateKeyHandle)
    requires
        old(reg).wf(),
    ensures
        final(reg).wf(),
        created_private_key(*old(reg), *final(reg), r.id),
        old(reg).can_allocate() <==> r.id != INVALID_ID,
{
    register_private_key(reg, crypto::generate_private_key())
}

/// Parses a private key and registers it; the invalid handle where the text is not a
/// private key.
pub fn private_key_from_string(reg: &mut Registry, private_key_str: String) -> (r: PrivateKeyHandle)
    requires
        old(reg).wf(),
    ensures
        final(reg).wf(),
        stored_private_key(*old(reg), *final(reg), private_key_parse(private_key_str@), r.id),
        r.id != INVALID_ID ==> private_key_text_of(*final(reg), r.id) == Some(private_key_str@),
{
    register_private_key(reg, crypto::parse_private_key(private_key_str.as_str()))
}

pub fn private_key_to_string(reg: &Registry, handle: &PrivateKeyHandle) -> (r: AccountResult)
    ensures
        reports_text(r, private_key_text_of(*reg, handle.id), "Invalid private key handle"@),
{
    match reg.private_key(handle.id) {
        Some(key) => success_result(crypto::format_private_key(key)),
        None => error_result("Invalid private key handle".to_owned()),
    }
}

/// Derives the address of a private key and registers it.
pub fn private_key_to_address(reg: &mut Registry, handle: &PrivateKeyHandle) -> (r: AddressHandle)
    requires
        old(reg).wf(),
    ensures
        final(reg).wf(),
        stored_address(*old(reg), *final(reg), address_of_private_key(*old(reg), handle.id), r.id),
        r.id != INVALID_ID <==> old(reg).private_keys().contains_key(handle.id) && old(reg).can_allocate(),
{
    let address = match reg.private_key(handle.id) {
        Some(key) => crypto::derive_address(key),
        None => None,
    };
    register_address(reg, address)
}

/// Derives the view key of a private key and registers it.
pub fn private_key_to_view_key(reg: &mut Registry, handle: &PrivateKeyHandle) -> (r: ViewKeyHandle)
    requires
        old(reg).wf(),
    ensures
        final(reg).wf(),
        stored_view_key(*old(reg), *final(reg), view_key_of_private_key(*old(reg), handle.id), r.id),
        r.id != INVALID_ID <==> old(reg).private_keys().contains_key(handle.id) && old(reg).can_allocate(),
{
    let view_key = match reg.private_key(handle.id) {
        Some(key) => crypto::derive_view_key(key),
        None => None,
    };
    register_view_key(reg, view_key)
}

/// Signs the exact message bytes with a private key.
pub fn private_key_sign(reg: &Registry, handle: &PrivateKeyHandle, message: Vec<u8>) -> (r: SignatureResult)
    ensures
        !reg.private_keys().contains_key(handle.id) ==> reports_bytes_error(
            r,
            "Invalid private key handle"@,
        ),
        reg.private_keys().contains_key(handle.id) ==> exists|outcome: Result<SignatureValue, String>|
            #[trigger] signature_reported(r, outcome),
        reg.private_keys().contains_key(handle.id) && r.success ==> signed_by(
            r.signature_bytes@,
            reg.private_keys()[handle.id],
            message@,
        ),
        reg.private_keys().contains_key(handle.id) && message@.len() <= 31 ==> r.success,
{
    match reg.private_key(handle.id) {
        Some(key) => {
            let outcome = crypto::sign_bytes(key, message.as_slice());
            let r = signature_result(outcome);
            assert(signature_reported(r, outcome));
            r
        },
        None => signature_error_result("Invalid private key handle".to_owned()),
    }
}

pub fn validate_private_key(private_key_str: String) -> (r: bool)
    ensures
        r == private_key_parse(private_key_str@) is Some,
{
    crypto::parse_private_key(private_key_str.as_str()).is_some()
}

/// Drops a private key; a handle that names none is left alone.
pub fn destroy_private_key(reg: &mut Registry, handle: &PrivateKeyHandle)
    requires
        old(reg).wf(),
    ensures
        final(reg).wf(),
        final(reg).next_id() == old(reg).next_id(),
        final(reg).private_keys() == old(reg).private_keys().remove(handle.id),
        final(reg).addresses() == old(reg).addresses(),
        final(reg).view_keys() == old(reg).view_keys(),
        final(reg).signatures() == old(reg).signatures(),
{
    reg.remove_private_key(handle.id);
}

// Addresses.

/// Parses an address and registers it; the invalid handle where the text is not an
/// address.
pub fn address_from_string(reg: &mut Registry, address_str: String) -> (r: AddressHandle)
    requires
        old(reg).wf(),
    ensures
        final(reg).wf(),
        stored_address(*old(reg), *final(reg), address_parse(address_str@), r.id),
{
    register_address(reg, crypto::parse_address(address_str.as_str()))
}

pub fn address_to_string(reg: &Registry, handle: &AddressHandle) -> (r: AccountResult)
    ensures
        reports_text(r, address_text_of(*reg, handle.id), "Invalid address handle"@),
{
    match reg.address(handle.id) {
        Some(address) => success_result(crypto::format_address(address)),
        None => error_result("Invalid address handle".to_owned()),
    }
}

/// Checks a signature, given as bytes, over the exact message bytes against an address.
/// Every failure, a dead handle or undecodable bytes included, answers `false`.
pub fn address_verify(
    reg: &Registry,
    handle: &AddressHandle,
    signature_bytes: Vec<u8>,
    message: Vec<u8>,
) -> (r: bool)
    ensures
        r == verification(*reg, handle.id, signature_bytes@, message@),
{
    match reg.address(handle.id) {
        Some(address) => match crypto::decode_signature(signature_bytes.as_slice()) {
            Some(signature) => crypto::verify_bytes(&signature, address, message.as_slice()),
            None => false,
        },
        None => false,
    }
}

pub fn validate_address(address_str: String) -> (r: bool)
    ensures
        r == address_parse(address_str@) is Some,
{
    crypto::parse_address(address_str.as_str()).is_some()
}

/// Drops an address; a handle that names none is left alone.
pub fn destroy_address(reg: &mut Registry, handle: &AddressHandle)
    requires
        old(reg).wf(),
    ensures
        final(reg).wf(),
        final(reg).next_id() == old(reg).next_id(),
        final(reg).private_keys() == old(reg).private_keys(),
        final(reg).addresses() == old(reg).addresses().remove(handle.id),
        final(reg).view_keys() == old(reg).view_keys(),
        final(reg).signatures() == old(reg).signatures(),
{
    reg.remove_address(handle.id);
}

// View keys.

/// Parses a view key and registers it; the invalid handle where the text is not a view
/// key.
pub fn view_key_from_string(reg: &mut Registry, view_key_str: String) -> (r: ViewKeyHandle)
    requires
        old(reg).wf(),
    ensures
        final(reg).wf(),
        stored_view_key(*old(reg), *final(reg), view_key_parse(view_key_str@), r.id),
{
    register_view_key(reg, crypto::parse_view_key(view_key_str.as_str()))
}

pub fn view_key_to_string(reg: &Registry, handle: &ViewKeyHandle) -> (r: AccountResult)
    ensures
        reports_text(r, view_key_text_of(*reg, handle.id), "Invalid view key handle"@),
{
    match reg.view_key(handle.id) {
        Some(view_key) => success_result(crypto::format_view_key(view_key)),
        None => error_result("Invalid view key handle".to_owned()),
    }
}

/// Derives the address of a view key and registers it.
pub fn view_key_to_address(reg: &mut Registry, handle: &ViewKeyHandle) -> (r: AddressHandle)
    requires
        old(reg).wf(),
    ensures
        final(reg).wf(),
        stored_address(*old(reg), *final(reg), address_of_view_key(*old(reg), handle.id), r.id),
        r.id != INVALID_ID <==> old(reg).view_keys().contains_key(handle.id) && old(reg).can_allocate(),
{
    let address = match reg.view_key(handle.id) {
        Some(view_key) => crypto::view_key_to_address_value(view_key),
        None => None,
    };
    register_address(reg, address)
}

pub fn validate_view_key(view_key_str: String) -> (r: bool)
    ensures
        r == view_key_parse(view_key_str@) is Some,
{
    crypto::parse_view_key(view_key_str.as_str()).is_some()
}

/// Drops a view key; a handle that names none is left alone.
pub fn destroy_view_key(reg: &mut Registry, handle: &ViewKeyHandle)
    requires
        old(reg).wf(),
    ensures
        final(reg).wf(),
        final(reg).next_id() == old(reg).next_id(),
        final(reg).private_keys() == old(reg).private_keys(),
        final(reg).addresses() == old(reg).addresses(),
        final(reg).view_keys() == old(reg).view_keys().remove(handle.id),
        final(reg).signatures() == old(reg).signatures(),
{
    reg.remove_view_key(handle.id);
}

// Signatures.

/// Drops a signature; a handle that names none is left alone.
pub fn destroy_signature(reg: &mut Registry, handle: &SignatureHandle)
    requires
        old(reg).wf(),
    ensures
        final(reg).wf(),
        final(reg).next_id() == old(reg).next_id(),
        final(reg).private_keys() == old(reg).private_keys(),
        final(reg).addresses() == old(reg).addresses(),
        final(reg).view_keys() == old(reg).view_keys(),
        final(reg).signatures() == old(reg).signatures().remove(handle.id),
{
    reg.remove_signature(handle.id);
}

} // verus!
