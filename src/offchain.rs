use vstd::prelude::*;
use url::Url;
use crate::text::{decimal, decimal_string, shown, UNAVAILABLE};

verus! {

/// The fields read from a token's off-chain JSON document; `website` comes from its
/// `external_url` key.
#[derive(Clone, Debug, PartialEq, Eq)]
pub struct OffChainMetadata {
    pub description: Option<String>,
    pub image: Option<String>,
    pub website: Option<String>,
}

impl Default for OffChainMetadata {
    fn default() -> (r: OffChainMetadata)
        ensures
            r.description is None,
            r.image is None,
            r.website is None,
    {
        OffChainMetadata { description: None, image: None, website: None }
    }
}

/// The document that was fetched, or the empty document when fetching or decoding
/// it failed: a missing off-chain document never fails a lookup.
pub fn offchain_or_empty(document: Option<OffChainMetadata>) -> (r: OffChainMetadata)
    ensures
        match document {
            Some(d) => r == d,
            None => r.description is None && r.image is None && r.website is None,
        },
{
    match document {
        Some(d) => d,
        None => OffChainMetadata::default(),
    }
}

/// The domain of a URL text, if the text parses as a URL that has a domain.
pub uninterp spec fn url_domain(text: Seq<char>) -> Option<Seq<char>>;

/// Relies on `url::Url::parse` and `Url::domain`: the domain of the parsed URL, if
/// both succeed.
#[verifier::external_body]
fn parse_url_domain(text: &str) -> (r: Option<String>)
    ensures
        match r {
            Some(d) => url_domain(text@) == Some(d@),
            None => url_domain(text@) is None,
        },
{
    match Url::parse(text) {
        Ok(u) => u.domain().map(|d| d.to_string()),
        Err(_) => None,
    }
}

pub open spec fn opt_view(v: Option<String>) -> Option<Seq<char>> {
    match v {
        Some(s) => Some(s@),
        None => None,
    }
}

/// The domain to look up for a website: none when there is no website or it has no
/// domain.
pub open spec fn lookup_domain(website: Option<Seq<char>>) -> Option<Seq<char>> {
    match website {
        Some(w) => url_domain(w),
        None => None,
    }
}

/// The DNS record count field: present only when a domain was looked up and the
/// resolver answered.
pub open spec fn dns_field(domain: Option<Seq<char>>, resolved: Option<u64>) -> Option<Seq<char>> {
    match (domain, resolved) {
        (Some(_), Some(n)) => Some(decimal(n as nat)),
        _ => None,
    }
}

/// Picks the domain whose address records are counted, or `None` when no lookup is
/// to be made.
pub fn dns_lookup_domain(website: &Option<String>) -> (r: Option<String>)
    ensures
        opt_view(r) == lookup_domain(opt_view(*website)),
{
    match website {
        Some(w) => parse_url_domain(w.as_str()),
        None => None,
    }
}

/// The DNS record count to report, from the domain that was looked up and the number
/// of records the resolver returned (`None` when it failed).
pub fn dns_records_field(domain: &Option<String>, resolved: Option<u64>) -> (r: Option<String>)
    ensures
        opt_view(r) == dns_field(opt_view(*domain), resolved),
{
    match (domain, resolved) {
        (Some(_), Some(n)) => Some(decimal_string(n)),
        _ => None,
    }
}

proof fn lemma_decimal_nonempty(n: nat)
    ensures
        decimal(n).len() > 0,
    decreases n,
{
    if n >= 10 {
        lemma_decimal_nonempty(n / 10);
    }
}

/// A website that is absent, does not parse as a URL or has no domain, or a resolver
/// that fails, leaves the DNS record count shown as the placeholder.
pub proof fn lemma_dns_count_degrades(website: Option<Seq<char>>, resolved: Option<u64>)
    requires
        website is None || url_domain(website.unwrap()) is None || resolved is None,
    ensures
        dns_field(lookup_domain(website), resolved) is None,
        shown(dns_field(lookup_domain(website), resolved)) == UNAVAILABLE@,
{
}

/// A resolver answer for a website's domain is shown as its decimal count, zero
/// included.
pub proof fn lemma_dns_count_shown(website: Seq<char>, resolved: u64)
    requires
        url_domain(website) is Some,
    ensures
        shown(dns_field(lookup_domain(Some(website)), Some(resolved))) == decimal(resolved as nat),
{
    lemma_decimal_nonempty(resolved as nat);
}

} // verus!
