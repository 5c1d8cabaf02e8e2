use vstd::prelude::*;
use spl_token::solana_program::pubkey::Pubkey;
use crate::text::UNAVAILABLE;

verus! {

/// A 32-byte ledger account address.
#[derive(Clone, Copy, Debug, PartialEq, Eq)]
pub struct Address {
    pub bytes: [u8; 32],
}

/// Text form of an address, as the ledger writes it.
pub uninterp spec fn base58_text(bytes: Seq<u8>) -> Seq<char>;

/// The address that a text decodes to, if it is a well-formed address text.
pub uninterp spec fn address_of_text(text: Seq<char>) -> Option<Seq<u8>>;

/// The program-derived address for the metadata program from `seed` and `mint`,
/// if a bump seed exists.
pub uninterp spec fn program_address_of(seed: Seq<u8>, mint: Seq<u8>) -> Option<Seq<u8>>;

/// The seed under which metadata accounts are derived.
pub open spec fn metadata_seed_spec() -> Seq<u8> {
    seq![109u8, 101u8, 116u8, 97u8, 100u8, 97u8, 116u8, 97u8]
}

/// The metadata account address of the token `mint`.
pub open spec fn metadata_address_spec(mint: Seq<u8>) -> Option<Seq<u8>> {
    program_address_of(metadata_seed_spec(), mint)
}

/// Why an address text was refused.
#[derive(Clone, Copy, Debug, PartialEq, Eq)]
pub enum AddressError {
    InvalidValue,
}

/// Relies on `Pubkey`'s `Display`, which writes the key in base58.
#[verifier::external_body]
fn base58_encode(a: &Address) -> (r: String)
    ensures
        r@ == base58_text(a.bytes@),
{
    Pubkey::new_from_array(a.bytes).to_string()
}

/// Relies on `Pubkey::from_str`: base58 decoding that accepts exactly 32 bytes.
#[verifier::external_body]
fn base58_decode(text: &str) -> (r: Option<Address>)
    ensures
        match r {
            Some(a) => address_of_text(text@) == Some(a.bytes@),
            None => address_of_text(text@) is None,
        },
{
    match text.parse::<Pubkey>() {
        Ok(k) => Some(Address { bytes: k.to_bytes() }),
        Err(_) => None,
    }
}

/// Relies on `Pubkey::try_find_program_address` with the seeds `seed`, the metadata
/// program id and `mint`, under the metadata program id; it returns `None` instead of
/// panicking when no bump seed exists.
#[verifier::external_body]
fn find_metadata_program_address(seed: &Vec<u8>, mint: &Address) -> (r: Option<Address>)
    ensures
        match r {
            Some(a) => program_address_of(seed@, mint.bytes@) == Some(a.bytes@),
            None => program_address_of(seed@, mint.bytes@) is None,
        },
{
    let program = mpl_token_metadata::ID;
    Pubkey::try_find_program_address(&[seed.as_slice(), program.as_ref(), &mint.bytes[..]], &program)
        .map(|(k, _)| Address { bytes: k.to_bytes() })
}

impl Address {
    /// The address with the given bytes.
    pub fn new(bytes: [u8; 32]) -> (r: Address)
        ensures
            r.bytes@ == bytes@,
    {
        Address { bytes }
    }

    /// The address written in base58 text.
    pub fn to_text(&self) -> (r: String)
        ensures
            r@ == base58_text(self.bytes@),
    {
        base58_encode(self)
    }
}

/// Reads an address from its base58 text.
pub fn parse_address(text: &str) -> (r: Result<Address, AddressError>)
    ensures
        match r {
            Ok(a) => address_of_text(text@) == Some(a.bytes@),
            Err(e) => address_of_text(text@) is None && e == AddressError::InvalidValue,
        },
{
    match base58_decode(text) {
        Some(a) => Ok(a),
        None => Err(AddressError::InvalidValue),
    }
}

/// The seed bytes `"metadata"`.
pub fn metadata_seed() -> (r: Vec<u8>)
    ensures
        r@ == metadata_seed_spec(),
{
    let r = vec![109u8, 101u8, 116u8, 97u8, 100u8, 97u8, 116u8, 97u8];
    assert(r@ =~= metadata_seed_spec());
    r
}

/// Derives the address of the metadata account that belongs to the token `mint`.
pub fn metadata_address(mint: &Address) -> (r: Option<Address>)
    ensures
        match r {
            Some(a) => metadata_address_spec(mint.bytes@) == Some(a.bytes@),
            None => metadata_address_spec(mint.bytes@) is None,
        },
{
    let seed = metadata_seed();
    find_metadata_program_address(&seed, mint)
}

/// Deriving the metadata address is deterministic: the same token address always
/// gives the same metadata address.
pub proof fn lemma_metadata_address_deterministic(a: Address, b: Address)
    requires
        a.bytes@ == b.bytes@,
    ensures
        metadata_address_spec(a.bytes@) == metadata_address_spec(b.bytes@),
{
}

/// The text of an optional authority address: its base58 form, or the placeholder.
pub open spec fn authority_text(key: Option<Address>) -> Seq<char> {
    match key {
        Some(a) => base58_text(a.bytes@),
        None => UNAVAILABLE@,
    }
}

/// Writes an optional address, or the placeholder when it is absent.
pub fn pubkey_to_string(pubkey: Option<Address>) -> (r: String)
    ensures
        r@ == authority_text(pubkey),
{
    match pubkey {
        Some(a) => a.to_text(),
        None => String::from_str(UNAVAILABLE),
    }
}

} // verus!
