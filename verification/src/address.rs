//! Ledger addresses: fixed-length binary identifiers of accounts and programs,
//! and their base-58 text form.

use solana_program::pubkey::{ParsePubkeyError, Pubkey};
use std::str::FromStr;
use vstd::prelude::*;

verus! {

/// Why a text is not a ledger address.
#[derive(Clone, Copy, Debug, PartialEq, Eq, Structural)]
pub enum AddressParseError {
    /// The text does not stand for exactly 32 bytes.
    WrongSize,
    /// The text is not base-58.
    Invalid,
}

/// The binary identifier of an account or a program on the ledger.
#[derive(Clone, Copy, Debug, PartialEq, Eq)]
pub struct Address {
    pub bytes: [u8; 32],
}

impl View for Address {
    type V = Seq<u8>;

    open spec fn view(&self) -> Seq<u8> {
        self.bytes@
    }
}

/// What `Pubkey::from_str` makes of a text: the 32 bytes it stands for, or the
/// reason why it stands for none.
pub uninterp spec fn address_from_text(text: Seq<char>) -> Result<Seq<u8>, AddressParseError>;

/// The base-58 text that `Pubkey`'s `Display` writes for 32 bytes.
pub uninterp spec fn text_of_address(bytes: Seq<u8>) -> Seq<char>;

/// The address that `Pubkey::create_with_seed` derives from a base address, a
/// seed and the owning program, where it derives one.
pub uninterp spec fn seeded_address(base: Seq<u8>, seed: Seq<char>, owner: Seq<u8>) -> Seq<u8>;

/// Longest text, in characters, that can be an address.
pub open spec fn max_text_len() -> nat {
    44
}

/// Longest seed, in bytes, from which an address is derived.
pub open spec fn max_seed_len() -> nat {
    32
}

/// The 21 bytes `ProgramDerivedAddress`; a program whose address ends in them
/// owns no seeded account.
pub open spec fn derived_marker() -> Seq<u8> {
    seq![
        80u8, 114u8, 111u8, 103u8, 114u8, 97u8, 109u8, 68u8, 101u8, 114u8, 105u8, 118u8, 101u8,
        100u8, 65u8, 100u8, 100u8, 114u8, 101u8, 115u8, 115u8,
    ]
}

/// Whether a program with this address may own a seeded account.
pub open spec fn may_own_seeded(owner: Seq<u8>) -> bool {
    owner.len() < 21 || owner.subrange(owner.len() - 21, owner.len() as int) != derived_marker()
}

/// Whether an address is derived from this seed for this owner.
pub open spec fn derivable(seed: Seq<char>, owner: Seq<u8>) -> bool {
    seed.len() <= max_seed_len() && may_own_seeded(owner)
}

impl Address {
    /// The address made of the given bytes.
    pub fn new(bytes: [u8; 32]) -> (a: Address)
        ensures
            a@ == bytes@,
            a.bytes == bytes,
    {
        Address { bytes }
    }

    /// The bytes of the address.
    pub fn to_bytes(&self) -> (bytes: [u8; 32])
        ensures
            bytes@ == self@,
            bytes == self.bytes,
    {
        self.bytes
    }
}

/// Calls `Pubkey::from_str`. The outcome is `address_from_text` of the text:
/// the decoded key's bytes, or the error that `from_str` returned. A text of
/// more than 44 characters has more than 44 bytes, which `from_str` refuses as
/// of the wrong size before it decodes anything.
#[verifier::external_body]
pub(crate) fn decode_address(text: &str) -> (r: Result<Address, AddressParseError>)
    ensures
        r matches Ok(a) ==> address_from_text(text@) is Ok && address_from_text(text@)->Ok_0 == a@,
        r matches Err(e) ==> address_from_text(text@) is Err && address_from_text(text@)->Err_0 == e,
        text@.len() > max_text_len() ==> r is Err && r->Err_0 == AddressParseError::WrongSize,
{
    match Pubkey::from_str(text) {
        Ok(key) => Ok(Address::new(key.to_bytes())),
        Err(ParsePubkeyError::WrongSize) => Err(AddressParseError::WrongSize),
        Err(ParsePubkeyError::Invalid) => Err(AddressParseError::Invalid),
    }
}

/// Calls `to_string` on the `Pubkey` of these bytes, which writes them in
/// base 58. The result is `text_of_address` of the bytes.
#[verifier::external_body]
pub(crate) fn encode_address(address: &Address) -> (text: String)
    ensures
        text@ == text_of_address(address@),
{
    Pubkey::new_from_array(address.bytes).to_string()
}

/// Calls `Pubkey::create_with_seed`. It derives an address unless the seed has
/// more than 32 bytes or the owner's address ends in the marker of derived
/// program addresses; the address is `seeded_address` of the three arguments.
#[verifier::external_body]
pub(crate) fn derive_seeded_address(base: &Address, seed: &str, owner: &Address) -> (r: Option<Address>)
    requires
        seed.is_ascii(),
    ensures
        (r is Some) == derivable(seed@, owner@),
        r matches Some(a) ==> a@ == seeded_address(base@, seed@, owner@),
{
    let derived = Pubkey::create_with_seed(
        &Pubkey::new_from_array(base.bytes),
        seed,
        &Pubkey::new_from_array(owner.bytes),
    );
    match derived {
        Ok(key) => Some(Address::new(key.to_bytes())),
        Err(_) => None,
    }
}

} // verus!
