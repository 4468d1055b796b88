//! The account primitives of snarkVM's console, as the rest of the library sees them.
//!
//! Each value kind is held in a struct of this module whose contents Verus does not
//! see: the snarkVM types are generic over `Network`, a trait that Verus cannot name
//! in a type declaration. Every function below makes exactly one call into snarkVM
//! (with its conversions) and is trusted; what each call returns is given a name
//! where it depends on the arguments alone.
use vstd::prelude::*;
use snarkvm_console::account::{Address, PrivateKey, Signature, ViewKey};
use snarkvm_console::network::MainnetV0;
use snarkvm_console::prelude::{FromBytes, ToBytes};

verus! {

/// A private key of the main network.
#[verifier::external_body]
pub struct PrivateKeyValue {
    inner: PrivateKey<MainnetV0>,
}

/// An account address of the main network.
#[verifier::external_body]
pub struct AddressValue {
    inner: Address<MainnetV0>,
}

/// A view key of the main network.
#[verifier::external_body]
pub struct ViewKeyValue {
    inner: ViewKey<MainnetV0>,
}

/// A signature of the main network.
#[verifier::external_body]
pub struct SignatureValue {
    inner: Signature<MainnetV0>,
}

/// The private key that a text denotes, if it denotes one.
pub uninterp spec fn private_key_parse(text: Seq<char>) -> Option<PrivateKeyValue>;

/// The canonical (base58) text of a private key.
pub uninterp spec fn private_key_text(key: PrivateKeyValue) -> Seq<char>;

/// The address derived from a private key.
pub uninterp spec fn private_key_address(key: PrivateKeyValue) -> AddressValue;

/// The view key derived from a private key.
pub uninterp spec fn private_key_view_key(key: PrivateKeyValue) -> ViewKeyValue;

/// The address that a text denotes, if it denotes one.
pub uninterp spec fn address_parse(text: Seq<char>) -> Option<AddressValue>;

/// The canonical (bech32m) text of an address.
pub uninterp spec fn address_text(address: AddressValue) -> Seq<char>;

/// The view key that a text denotes, if it denotes one.
pub uninterp spec fn view_key_parse(text: Seq<char>) -> Option<ViewKeyValue>;

/// The canonical (base58) text of a view key.
pub uninterp spec fn view_key_text(view_key: ViewKeyValue) -> Seq<char>;

/// The address derived from a view key.
pub uninterp spec fn view_key_address(view_key: ViewKeyValue) -> AddressValue;

/// The signature that a byte string encodes (little-endian), if it encodes one.
pub uninterp spec fn signature_decode(bytes: Seq<u8>) -> Option<SignatureValue>;

/// The little-endian encoding of a signature.
pub uninterp spec fn signature_encode(signature: SignatureValue) -> Option<Seq<u8>>;

/// Whether a signature is valid for an address and the exact message bytes.
pub uninterp spec fn signature_accepts(
    signature: SignatureValue,
    address: AddressValue,
    message: Seq<u8>,
) -> bool;

/// Relies on `PrivateKey::new` with rand's thread-local generator: a fresh random key.
/// The derivation from the sampled seed only hashes, and Poseidon hashing never errs, so
/// a key always comes back.
#[verifier::external_body]
pub(crate) fn generate_private_key() -> (r: Option<PrivateKeyValue>)
    ensures
        r is Some,
{
    PrivateKey::<MainnetV0>::new(&mut rand::rng()).ok().map(|inner| PrivateKeyValue { inner })
}

/// Relies on `<PrivateKey as FromStr>::from_str`: the outcome depends on the text alone.
/// Base58 decoding is one to one and the seed is read canonically, so a text that parses
/// is the key's own `Display` text.
#[verifier::external_body]
pub(crate) fn parse_private_key(text: &str) -> (r: Option<PrivateKeyValue>)
    ensures
        r == private_key_parse(text@),
        r matches Some(k) ==> private_key_text(k) == text@,
{
    text.parse::<PrivateKey<MainnetV0>>().ok().map(|inner| PrivateKeyValue { inner })
}

/// Relies on `<PrivateKey as Display>::fmt`: the text depends on the key alone.
#[verifier::external_body]
pub(crate) fn format_private_key(key: &PrivateKeyValue) -> (r: String)
    ensures
        r@ == private_key_text(*key),
{
    key.inner.to_string()
}

/// Relies on `<Address as TryFrom<&PrivateKey>>::try_from`: the address depends on the
/// key alone, and the derivation (through the compute key) never errs.
#[verifier::external_body]
pub(crate) fn derive_address(key: &PrivateKeyValue) -> (r: Option<AddressValue>)
    ensures
        r == Some(private_key_address(*key)),
{
    Address::<MainnetV0>::try_from(&key.inner).ok().map(|inner| AddressValue { inner })
}

/// Relies on `<ViewKey as TryFrom<&PrivateKey>>::try_from`: the view key depends on the
/// key alone, and the derivation (through the compute key) never errs.
#[verifier::external_body]
pub(crate) fn derive_view_key(key: &PrivateKeyValue) -> (r: Option<ViewKeyValue>)
    ensures
        r == Some(private_key_view_key(*key)),
{
    ViewKey::<MainnetV0>::try_from(&key.inner).ok().map(|inner| ViewKeyValue { inner })
}

/// Relies on `PrivateKey::sign_bytes` with rand's thread-local generator. The nonce is
/// random, so the signature is not named; whatever nonce was drawn, the signature is one
/// that `Signature::verify_bytes` accepts for the key's address and these message bytes
/// (the response is the nonce minus the challenge times the secret key). Signing refuses
/// only messages over the size limit and two-field messages of one reserved shape; a
/// message of at most 31 bytes packs into one field element and is always signed. An
/// error comes back as its text.
#[verifier::external_body]
pub(crate) fn sign_bytes(key: &PrivateKeyValue, message: &[u8]) -> (r: Result<SignatureValue, String>)
    ensures
        r matches Ok(s) ==> signature_accepts(s, private_key_address(*key), message@),
        message@.len() <= 31 ==> r is Ok,
{
    match key.inner.sign_bytes(message, &mut rand::rng()) {
        Ok(inner) => Ok(SignatureValue { inner }),
        Err(e) => Err(e.to_string()),
    }
}

/// Relies on `<Address as FromStr>::from_str`: the outcome depends on the text alone.
#[verifier::external_body]
pub(crate) fn parse_address(text: &str) -> (r: Option<AddressValue>)
    ensures
        r == address_parse(text@),
{
    text.parse::<Address<MainnetV0>>().ok().map(|inner| AddressValue { inner })
}

/// Relies on `<Address as Display>::fmt`: the text depends on the address alone.
#[verifier::external_body]
pub(crate) fn format_address(address: &AddressValue) -> (r: String)
    ensures
        r@ == address_text(*address),
{
    address.inner.to_string()
}

/// Relies on `<ViewKey as FromStr>::from_str`: the outcome depends on the text alone.
#[verifier::external_body]
pub(crate) fn parse_view_key(text: &str) -> (r: Option<ViewKeyValue>)
    ensures
        r == view_key_parse(text@),
{
    text.parse::<ViewKey<MainnetV0>>().ok().map(|inner| ViewKeyValue { inner })
}

/// Relies on `<ViewKey as Display>::fmt`: the text depends on the view key alone.
#[verifier::external_body]
pub(crate) fn format_view_key(view_key: &ViewKeyValue) -> (r: String)
    ensures
        r@ == view_key_text(*view_key),
{
    view_key.inner.to_string()
}

/// Relies on `<Address as TryFrom<&ViewKey>>::try_from`, which returns
/// `Ok(view_key.to_address())` in every case.
#[verifier::external_body]
pub(crate) fn view_key_to_address_value(view_key: &ViewKeyValue) -> (r: Option<AddressValue>)
    ensures
        r == Some(view_key_address(*view_key)),
{
    Address::<MainnetV0>::try_from(&view_key.inner).ok().map(|inner| AddressValue { inner })
}

/// Relies on `<Signature as FromBytes>::from_bytes_le`: the outcome depends on the bytes
/// alone.
#[verifier::external_body]
pub(crate) fn decode_signature(bytes: &[u8]) -> (r: Option<SignatureValue>)
    ensures
        r == signature_decode(bytes@),
{
    Signature::<MainnetV0>::from_bytes_le(bytes).ok().map(|inner| SignatureValue { inner })
}

/// Relies on `<Signature as ToBytes>::to_bytes_le`: the bytes depend on the signature
/// alone; writing field elements into a `Vec` never errs; and
/// `<Signature as FromBytes>::from_bytes_le` reads the same signature back.
#[verifier::external_body]
pub(crate) fn encode_signature(signature: &SignatureValue) -> (r: Option<Vec<u8>>)
    ensures
        r is Some,
        r matches Some(v) ==> signature_encode(*signature) == Some(v@),
        r matches Some(v) ==> signature_decode(v@) == Some(*signature),
{
    signature.inner.to_bytes_le().ok()
}

/// Relies on `Signature::verify_bytes`: the answer depends on the signature, the address
/// and the message bytes alone.
#[verifier::external_body]
pub(crate) fn verify_bytes(signature: &SignatureValue, address: &AddressValue, message: &[u8]) -> (r: bool)
    ensures
        r == signature_accepts(*signature, *address, message@),
{
    signature.inner.verify_bytes(&address.inner, message)
}

} // verus!
