use vstd::prelude::*;
use crate::account::{FetchError, MintRecord, OnChainMetadata};
use crate::address::{authority_text, pubkey_to_string};
use crate::offchain::{offchain_or_empty, opt_view, OffChainMetadata};
use crate::text::{decimal, decimal_string, shown, string_or_not_available};

verus! {

/// What is known of a token from its metadata account and what that account points to.
#[derive(Clone, Debug, PartialEq, Eq)]
pub struct TokenMetadata {
    pub name: String,
    pub symbol: String,
    pub offchain: OffChainMetadata,
    pub dns_records: Option<String>,
}

/// Everything reported about a token.
#[derive(Clone, Debug, PartialEq, Eq)]
pub struct TokenReport {
    pub metadata: TokenMetadata,
    pub mint: MintRecord,
}

/// Gathers the metadata of a token from its on-chain record, the off-chain document
/// if one was fetched and decoded, and the DNS record count.
pub fn token_metadata(
    on_chain: OnChainMetadata,
    document: Option<OffChainMetadata>,
    dns_records: Option<String>,
) -> (r: TokenMetadata)
    ensures
        r.name@ == on_chain.name@,
        r.symbol@ == on_chain.symbol@,
        match document {
            Some(d) => r.offchain == d,
            None => r.offchain.description is None && r.offchain.image is None
                && r.offchain.website is None,
        },
        r.dns_records == dns_records,
{
    TokenMetadata {
        name: on_chain.name,
        symbol: on_chain.symbol,
        offchain: offchain_or_empty(document),
        dns_records,
    }
}

/// Joins the two on-chain lookups: both must succeed, and a failed metadata lookup is
/// reported before a failed mint lookup.
pub fn token_report(
    metadata: Result<TokenMetadata, FetchError>,
    mint: Result<MintRecord, FetchError>,
) -> (r: Result<TokenReport, FetchError>)
    ensures
        match (metadata, mint) {
            (Err(e), _) => r == Err::<TokenReport, FetchError>(e),
            (Ok(_), Err(e)) => r == Err::<TokenReport, FetchError>(e),
            (Ok(t), Ok(m)) => r == Ok::<TokenReport, FetchError>(TokenReport { metadata: t, mint: m }),
        },
{
    match metadata {
        Err(e) => Err(e),
        Ok(t) => match mint {
            Err(e) => Err(e),
            Ok(m) => Ok(TokenReport { metadata: t, mint: m }),
        },
    }
}

/// The lines of the report on `t`, in their fixed order.
pub open spec fn report_text(t: TokenReport) -> Seq<Seq<char>> {
    seq![
        "Token Name: "@ + t.metadata.name@,
        "Token Symbol: "@ + t.metadata.symbol@,
        "Total Supply: "@ + decimal(t.mint.supply as nat),
        "Decimals: "@ + decimal(t.mint.decimals as nat),
        "Mint Authority: "@ + authority_text(t.mint.mint_authority),
        "Freeze Authority: "@ + authority_text(t.mint.freeze_authority),
        "Token Description: "@ + shown(opt_view(t.metadata.offchain.description)),
        "Token Image: "@ + shown(opt_view(t.metadata.offchain.image)),
        "Token Website: "@ + shown(opt_view(t.metadata.offchain.website)),
        "Number of DNS records: "@ + shown(opt_view(t.metadata.dns_records)),
    ]
}

fn labelled(label: &str, value: String) -> (r: String)
    ensures
        r@ == label@ + value@,
{
    let mut r = String::from_str(label);
    r.append(value.as_str());
    r
}

fn copy_text(v: &Option<String>) -> (r: Option<String>)
    ensures
        opt_view(r) == opt_view(*v),
{
    match v {
        Some(s) => Some(s.clone()),
        None => None,
    }
}

impl TokenReport {
    /// Renders the report as its lines; absent values show as the placeholder.
    pub fn report_lines(&self) -> (r: Vec<String>)
        ensures
            r@.len() == 10,
            forall|i: int| 0 <= i < 10 ==> #[trigger] r@[i]@ == report_text(*self)[i],
    {
        let t = &self.metadata;
        let m = &self.mint;
        let r = vec![
            labelled("Token Name: ", t.name.clone()),
            labelled("Token Symbol: ", t.symbol.clone()),
            labelled("Total Supply: ", decimal_string(m.supply)),
            labelled("Decimals: ", decimal_string(m.decimals as u64)),
            labelled("Mint Authority: ", pubkey_to_string(m.mint_authority)),
            labelled("Freeze Authority: ", pubkey_to_string(m.freeze_authority)),
            labelled("Token Description: ", string_or_not_available(copy_text(&t.offchain.description))),
            labelled("Token Image: ", string_or_not_available(copy_text(&t.offchain.image))),
            labelled("Token Website: ", string_or_not_available(copy_text(&t.offchain.website))),
            labelled("Number of DNS records: ", string_or_not_available(copy_text(&t.dns_records))),
        ];
        r
    }
}

} // verus!
