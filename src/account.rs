use vstd::prelude::*;
use mpl_token_metadata::accounts::Metadata;
use spl_token::solana_program::program_pack::Pack;
use spl_token::solana_program::pubkey::Pubkey;
use spl_token::state::Mint;
use crate::address::Address;
use crate::text::{strip_null_padding, strip_nulls};

verus! {

/// Why the on-chain part of a lookup failed.
#[derive(Clone, Copy, Debug, PartialEq, Eq)]
pub enum FetchError {
    /// No metadata address could be derived from the token address.
    MetadataAddressNotFound,
    /// The metadata account could not be read from the ledger.
    MetadataAccountUnreadable,
    /// The metadata account does not hold a metadata record.
    InvalidMetadataLayout,
    /// The mint account could not be read from the ledger.
    MintAccountUnreadable,
    /// The mint account does not hold an initialized mint record.
    InvalidMintLayout,
}

/// A decoded mint account.
#[derive(Clone, Copy, Debug, PartialEq, Eq)]
pub struct MintRecord {
    pub mint_authority: Option<Address>,
    pub supply: u64,
    pub decimals: u8,
    pub is_initialized: bool,
    pub freeze_authority: Option<Address>,
}

/// Unsigned little-endian value of `b`.
pub open spec fn le_value(b: Seq<u8>) -> nat
    decreases b.len(),
{
    if b.len() == 0 {
        0
    } else {
        b[0] as nat + 256 * le_value(b.drop_first())
    }
}

/// The four-byte tag of an optional key at `at` is `[0, 0, 0, 0]` or `[1, 0, 0, 0]`.
pub open spec fn key_tag_valid(d: Seq<u8>, at: int) -> bool {
    &&& (d[at] == 0 || d[at] == 1)
    &&& d[at + 1] == 0
    &&& d[at + 2] == 0
    &&& d[at + 3] == 0
}

/// The optional key stored at `at`: a tag followed by 32 key bytes.
pub open spec fn key_at(d: Seq<u8>, at: int) -> Option<Seq<u8>> {
    if d[at] == 1 {
        Some(d.subrange(at + 4, at + 36))
    } else {
        None
    }
}

pub open spec fn key_bytes(k: Option<Address>) -> Option<Seq<u8>> {
    match k {
        Some(a) => Some(a.bytes@),
        None => None,
    }
}

/// An initialized mint account: 82 bytes holding the mint authority (tag and key),
/// the supply (8 bytes, little-endian), the decimals, the initialized flag (set) and
/// the freeze authority (tag and key).
pub open spec fn mint_layout_valid(d: Seq<u8>) -> bool {
    &&& d.len() == 82
    &&& key_tag_valid(d, 0)
    &&& d[45] == 1
    &&& key_tag_valid(d, 46)
}

/// `m` holds the fields stored in the mint account bytes `d`.
pub open spec fn mint_fields_of(m: MintRecord, d: Seq<u8>) -> bool {
    &&& key_bytes(m.mint_authority) == key_at(d, 0)
    &&& m.supply as nat == le_value(d.subrange(36, 44))
    &&& m.decimals == d[44]
    &&& m.is_initialized
    &&& key_bytes(m.freeze_authority) == key_at(d, 46)
}

/// The name, symbol and uri of a metadata account, if its bytes decode as one.
pub uninterp spec fn metadata_fields(data: Seq<u8>) -> Option<(Seq<char>, Seq<char>, Seq<char>)>;

/// Relies on `Mint::unpack` of spl-token: it accepts exactly the initialized mint
/// layout and reads the fields from it.
#[verifier::external_body]
fn unpack_mint(data: &Vec<u8>) -> (r: Option<MintRecord>)
    ensures
        r is Some <==> mint_layout_valid(data@),
        r matches Some(m) ==> mint_fields_of(m, data@),
{
    match Mint::unpack(data.as_slice()) {
        Ok(m) => Some(MintRecord {
            mint_authority: Option::from(m.mint_authority).map(|k: Pubkey| Address { bytes: k.to_bytes() }),
            supply: m.supply,
            decimals: m.decimals,
            is_initialized: m.is_initialized,
            freeze_authority: Option::from(m.freeze_authority).map(|k: Pubkey| Address { bytes: k.to_bytes() }),
        }),
        Err(_) => None,
    }
}

/// Relies on `Metadata::from_bytes` of mpl-token-metadata (a borsh decoding) for the
/// name, symbol and uri of a metadata account.
#[verifier::external_body]
fn unpack_metadata(data: &Vec<u8>) -> (r: Option<(String, String, String)>)
    ensures
        match r {
            Some((n, s, u)) => metadata_fields(data@) == Some((n@, s@, u@)),
            None => metadata_fields(data@) is None,
        },
{
    match Metadata::from_bytes(data.as_slice()) {
        Ok(m) => Some((m.name, m.symbol, m.uri)),
        Err(_) => None,
    }
}

/// Decodes the mint account read from the ledger; `None` means that the read failed.
pub fn decode_mint_account(account_data: Option<Vec<u8>>) -> (r: Result<MintRecord, FetchError>)
    ensures
        match account_data {
            None => r == Err::<MintRecord, FetchError>(FetchError::MintAccountUnreadable),
            Some(d) => match r {
                Ok(m) => mint_layout_valid(d@) && mint_fields_of(m, d@),
                Err(e) => !mint_layout_valid(d@) && e == FetchError::InvalidMintLayout,
            },
        },
{
    match account_data {
        None => Err(FetchError::MintAccountUnreadable),
        Some(d) => match unpack_mint(&d) {
            Some(m) => Ok(m),
            None => Err(FetchError::InvalidMintLayout),
        },
    }
}

/// The on-chain metadata of a token, with the fixed-width padding removed.
#[derive(Clone, Debug, PartialEq, Eq)]
pub struct OnChainMetadata {
    pub name: String,
    pub symbol: String,
    pub uri: String,
}

/// Decodes the metadata account read from the ledger; `None` means that the read failed.
pub fn decode_metadata_account(account_data: Option<Vec<u8>>) -> (r: Result<OnChainMetadata, FetchError>)
    ensures
        match account_data {
            None => r == Err::<OnChainMetadata, FetchError>(FetchError::MetadataAccountUnreadable),
            Some(d) => match (r, metadata_fields(d@)) {
                (Ok(m), Some((n, s, u))) => m.name@ == strip_nulls(n) && m.symbol@ == strip_nulls(s)
                    && m.uri@ == strip_nulls(u),
                (Err(e), None) => e == FetchError::InvalidMetadataLayout,
                _ => false,
            },
        },
{
    match account_data {
        None => Err(FetchError::MetadataAccountUnreadable),
        Some(d) => match unpack_metadata(&d) {
            Some((n, s, u)) => Ok(OnChainMetadata {
                name: strip_null_padding(n.as_str()),
                symbol: strip_null_padding(s.as_str()),
                uri: strip_null_padding(u.as_str()),
            }),
            None => Err(FetchError::InvalidMetadataLayout),
        },
    }
}

} // verus!
