//! The key with which a client signs its transactions.
use crate::address::Address;
use crate::hex::{decoded, law_bytes_are_spelled_by_their_text, spelled, HexError};
use alloy_primitives::hex::FromHexError;
use alloy_signer_local::{LocalSignerError, PrivateKeySigner};
use vstd::prelude::*;
use vstd::utf8::encode_utf8;

verus! {

/// A private key and the address of its account.
#[derive(Clone, Copy)]
pub struct Signer {
    pub key: [u8; 32],
    pub address: Address,
}

/// Why a text is no private key.
#[derive(Clone, Copy, Debug, PartialEq, Eq, Structural)]
pub enum SignerKeyError {
    /// The bytes are no scalar of the curve.
    EcdsaError,
    /// The text is not in hexadecimal.
    HexError(HexError),
    /// The key could not be read.
    IoError,
}

/// The integer that bytes stand for, the most significant one first.
pub open spec fn big_endian(bytes: Seq<u8>) -> nat
    decreases bytes.len(),
{
    if bytes.len() == 0 {
        0
    } else {
        big_endian(bytes.drop_last()) * 256 + bytes.last() as nat
    }
}

/// The number of points of the curve secp256k1.
pub open spec fn curve_order() -> nat {
    0xFFFF_FFFF_FFFF_FFFF_FFFF_FFFF_FFFF_FFFE_BAAE_DCE6_AF48_A03B_BFD2_5E8C_D036_4141nat
}

/// The bytes are a private key: a scalar of the curve other than zero.
pub open spec fn is_private_key(bytes: Seq<u8>) -> bool {
    0 < big_endian(bytes) < curve_order()
}

/// The private key that a text stands for, or why it stands for none: thirty-two bytes in
/// hexadecimal, with or without a prefix.
pub open spec fn private_key_of(text: Seq<char>) -> Result<Seq<u8>, SignerKeyError> {
    match decoded(encode_utf8(text), 32) {
        Ok(bytes) => {
            if is_private_key(bytes) {
                Ok(bytes)
            } else {
                Err(SignerKeyError::EcdsaError)
            }
        },
        Err(error) => Err(SignerKeyError::HexError(error)),
    }
}

/// A key that was read, or the error in its place, with the key as it is viewed.
pub open spec fn key_view(key: Result<[u8; 32], SignerKeyError>) -> Result<
    Seq<u8>,
    SignerKeyError,
> {
    match key {
        Ok(bytes) => Ok(bytes@),
        Err(error) => Err(error),
    }
}

/// The key of a signer, or the error in its place.
pub open spec fn signer_key(signer: Result<Signer, SignerKeyError>) -> Result<
    Seq<u8>,
    SignerKeyError,
> {
    match signer {
        Ok(read) => Ok(read.key@),
        Err(error) => Err(error),
    }
}

/// The address of the account that a private key signs for: the last twenty bytes of the Keccak
/// hash of the public key.
pub uninterp spec fn account_address(key: Seq<u8>) -> Seq<u8>;

/// `str::parse` to a `PrivateKeySigner` of `alloy_signer_local`, whose key is then read with
/// `LocalSigner::to_bytes`: thirty-two bytes in hexadecimal that are a scalar of the curve other
/// than zero. A text that is not such hexadecimal gives `LocalSignerError::HexError` with what is
/// wrong with it, bytes that are no such scalar give `LocalSignerError::EcdsaError`, and no text
/// gives `LocalSignerError::IoError`.
#[verifier::external_body]
fn private_key(text: &str) -> (key: Result<[u8; 32], SignerKeyError>)
    ensures
        key_view(key) == private_key_of(text@),
{
    match text.parse::<PrivateKeySigner>() {
        Ok(signer) => Ok(signer.to_bytes().0),
        Err(LocalSignerError::EcdsaError(_)) => Err(SignerKeyError::EcdsaError),
        Err(LocalSignerError::HexError(error)) => Err(SignerKeyError::HexError(match error {
            FromHexError::InvalidHexCharacter { c, index } => HexError::InvalidHexCharacter { c, index },
            FromHexError::OddLength => HexError::OddLength,
            FromHexError::InvalidStringLength => HexError::InvalidStringLength,
        })),
        Err(LocalSignerError::IoError(_)) => Err(SignerKeyError::IoError),
    }
}

/// `LocalSigner::address` of `alloy_signer_local`, on the signer that `LocalSigner::from_bytes`
/// makes of a private key: a function of the key alone. Nothing is said of the curve's arithmetic
/// or of the hash that lead from the key to the address.
#[verifier::external_body]
fn address_of_key(key: [u8; 32]) -> (address: [u8; 20])
    requires
        is_private_key(key@),
    ensures
        address@ == account_address(key@),
{
    PrivateKeySigner::from_bytes(&key.into()).unwrap().address().into_array()
}

impl Signer {
    /// The address is that of the key.
    pub open spec fn wf(self) -> bool {
        &&& is_private_key(self.key@)
        &&& self.address@ == account_address(self.key@)
    }

    /// Reads a private key and finds the address of its account.
    pub fn parse(signer_private_key: &str) -> (signer: Result<Signer, SignerKeyError>)
        ensures
            signer_key(signer) == private_key_of(signer_private_key@),
            signer matches Ok(read) ==> read.wf(),
            signer is Ok == private_key_of(signer_private_key@) is Ok,
            signer matches Ok(read) ==> private_key_of(signer_private_key@)->Ok_0 == read.key@,
            signer matches Ok(read) ==> read.address@ == account_address(read.key@),
            signer matches Err(error) ==> private_key_of(signer_private_key@)->Err_0 == error,
    {
        match private_key(signer_private_key) {
            Ok(key) => Ok(Signer { key, address: Address(address_of_key(key)) }),
            Err(error) => Err(error),
        }
    }
}

/// Bytes stand for an integer in the positional system whose base is 256.
pub proof fn law_bytes_are_digits(bytes: Seq<u8>, byte: u8)
    ensures
        big_endian(Seq::<u8>::empty()) == 0,
        big_endian(bytes.push(byte)) == 256 * big_endian(bytes) + byte,
{
    assert(bytes.push(byte).drop_last() =~= bytes);
}

/// The order of the curve is a little less than two to the power of 256.
pub proof fn law_the_order_of_the_curve()
    ensures
        curve_order() + 0x1_4551_2319_50B7_5FC4_402D_A173_2FC9_BEBFnat
            == 0x1_0000_0000_0000_0000_0000_0000_0000_0000_0000_0000_0000_0000_0000_0000_0000_0000nat,
{
}

/// A text stands for the private key whose thirty-two bytes it spells, if they are a scalar of the
/// curve other than zero. Other bytes that it spells are no key, and a text that spells no
/// thirty-two bytes is not in hexadecimal.
pub proof fn law_a_private_key_is_spelled_by_its_text(text: Seq<char>, key: Seq<u8>)
    ensures
        private_key_of(text) is Ok && private_key_of(text)->Ok_0 == key <==> key.len() == 32
            && spelled(encode_utf8(text), key) && 0 < big_endian(key)
            < 0xFFFF_FFFF_FFFF_FFFF_FFFF_FFFF_FFFF_FFFE_BAAE_DCE6_AF48_A03B_BFD2_5E8C_D036_4141nat,
        key.len() == 32 && spelled(encode_utf8(text), key) && (big_endian(key) == 0 || big_endian(
            key,
        ) >= 0xFFFF_FFFF_FFFF_FFFF_FFFF_FFFF_FFFF_FFFE_BAAE_DCE6_AF48_A03B_BFD2_5E8C_D036_4141nat)
            ==> private_key_of(text) is Err && private_key_of(text)->Err_0 is EcdsaError,
        private_key_of(text) is Err && private_key_of(text)->Err_0 is HexError <==> forall|
            bytes: Seq<u8>,
        |
            bytes.len() == 32 ==> !#[trigger] spelled(encode_utf8(text), bytes),
        private_key_of(text) is Err ==> private_key_of(text)->Err_0 !is IoError,
{
    let utf8 = encode_utf8(text);
    law_bytes_are_spelled_by_their_text(utf8, 32, key);
    if decoded(utf8, 32) is Ok {
        law_bytes_are_spelled_by_their_text(utf8, 32, decoded(utf8, 32)->Ok_0);
        assert(spelled(utf8, decoded(utf8, 32)->Ok_0));
    }
    assert forall|bytes: Seq<u8>| bytes.len() == 32 && #[trigger] spelled(utf8, bytes) implies decoded(
        utf8,
        32,
    ) is Ok by {
        law_bytes_are_spelled_by_their_text(utf8, 32, bytes);
    }
}

/// What is wrong with a text that is not in hexadecimal is told as it is.
pub proof fn law_a_key_that_is_no_hexadecimal_is_told_as_such(text: Seq<char>)
    requires
        decoded(encode_utf8(text), 32) is Err,
    ensures
        private_key_of(text) is Err,
        private_key_of(text)->Err_0 == SignerKeyError::HexError(
            decoded(encode_utf8(text), 32)->Err_0,
        ),
{
}

/// A signer is sound exactly when its key is a scalar of the curve other than zero and its address
/// is that of the key's account.
pub proof fn law_a_signer_has_the_address_of_its_key(signer: Signer)
    ensures
        signer.wf() == (0 < big_endian(signer.key@)
            < 0xFFFF_FFFF_FFFF_FFFF_FFFF_FFFF_FFFF_FFFE_BAAE_DCE6_AF48_A03B_BFD2_5E8C_D036_4141nat
            && signer.address@ == account_address(signer.key@)),
{
}

/// A key that was read, and the key of a signer, are viewed as their bytes; an error stays what it
/// is.
pub proof fn law_keys_are_viewed_as_they_are(
    key: Result<[u8; 32], SignerKeyError>,
    signer: Result<Signer, SignerKeyError>,
)
    ensures
        key_view(key) is Ok == key is Ok,
        key matches Ok(bytes) ==> key_view(key)->Ok_0 == bytes@,
        key matches Err(error) ==> key_view(key)->Err_0 == error,
        signer_key(signer) is Ok == signer is Ok,
        signer matches Ok(read) ==> signer_key(signer)->Ok_0 == read.key@,
        signer matches Err(error) ==> signer_key(signer)->Err_0 == error,
{
}

} // verus!
