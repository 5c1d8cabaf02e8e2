use prophetbots_cli::account::{FetchError, MintRecord, OnChainMetadata};
use prophetbots_cli::address::Address;
use prophetbots_cli::config::{Config, DEFAULT_RPC_URL};
use prophetbots_cli::offchain::{dns_lookup_domain, dns_records_field, offchain_or_empty, OffChainMetadata};
use prophetbots_cli::report::{token_metadata, token_report, TokenMetadata, TokenReport};

fn on_chain(name: &str, symbol: &str) -> OnChainMetadata {
    OnChainMetadata { name: name.to_string(), symbol: symbol.to_string(), uri: String::new() }
}

fn mint(supply: u64, decimals: u8) -> MintRecord {
    MintRecord { mint_authority: None, supply, decimals, is_initialized: true, freeze_authority: None }
}

#[test]
fn dns_domain_of_websites() {
    assert_eq!(dns_lookup_domain(&None), None);
    assert_eq!(dns_lookup_domain(&Some("not a url".to_string())), None);
    assert_eq!(dns_lookup_domain(&Some("".to_string())), None);
    assert_eq!(dns_lookup_domain(&Some("https://127.0.0.1/".to_string())), None);
    assert_eq!(dns_lookup_domain(&Some("mailto:me@example.org".to_string())), None);
    assert_eq!(dns_lookup_domain(&Some("https://sollamas.com".to_string())), Some("sollamas.com".to_string()));
    assert_eq!(
        dns_lookup_domain(&Some("https://abstractlabs.art/x?y=1".to_string())),
        Some("abstractlabs.art".to_string())
    );
}

#[test]
fn dns_field_degrades_to_unavailable() {
    let domain = Some("sollamas.com".to_string());
    assert_eq!(dns_records_field(&domain, Some(4)), Some("4".to_string()));
    assert_eq!(dns_records_field(&domain, Some(0)), Some("0".to_string()));
    assert_eq!(dns_records_field(&domain, None), None);
    assert_eq!(dns_records_field(&None, Some(3)), None);
    assert_eq!(dns_records_field(&None, None), None);
}

#[test]
fn missing_document_gives_empty_fields() {
    let empty = offchain_or_empty(None);
    assert_eq!(empty, OffChainMetadata { description: None, image: None, website: None });
    let doc = OffChainMetadata { description: Some("d".to_string()), image: None, website: Some("w".to_string()) };
    assert_eq!(offchain_or_empty(Some(doc.clone())), doc);
}

#[test]
fn stablecoin_report_lines() {
    let t = token_metadata(on_chain("USD Coin", "USDC"), None, None);
    let report = token_report(Ok(t), Ok(mint(5_034_943_429_186_550, 6))).unwrap();
    let lines = report.report_lines();
    assert_eq!(lines, vec![
        "Token Name: USD Coin",
        "Token Symbol: USDC",
        "Total Supply: 5034943429186550",
        "Decimals: 6",
        "Mint Authority: Not available",
        "Freeze Authority: Not available",
        "Token Description: Not available",
        "Token Image: Not available",
        "Token Website: Not available",
        "Number of DNS records: Not available",
    ]);
}

#[test]
fn nft_report_lines() {
    let doc = OffChainMetadata {
        description: Some("A llama.".to_string()),
        image: Some("https://arweave.net/IflrmClNlH_wXG_XdfZNfqvwEsmesWRbHtkGC87-WPI".to_string()),
        website: Some("https://sollamas.com".to_string()),
    };
    let domain = dns_lookup_domain(&doc.website);
    let dns = dns_records_field(&domain, Some(4));
    let t = token_metadata(on_chain("Alessio, the Pleasant", "LLAMA"), Some(doc), dns);
    let mut m = mint(1, 0);
    m.freeze_authority = Some(Address::new([0u8; 32]));
    let lines = token_report(Ok(t), Ok(m)).unwrap().report_lines();
    assert_eq!(lines[0], "Token Name: Alessio, the Pleasant");
    assert_eq!(lines[1], "Token Symbol: LLAMA");
    assert_eq!(lines[2], "Total Supply: 1");
    assert_eq!(lines[3], "Decimals: 0");
    assert_eq!(lines[5], "Freeze Authority: 11111111111111111111111111111111");
    assert_eq!(lines[6], "Token Description: A llama.");
    assert_eq!(lines[7], "Token Image: https://arweave.net/IflrmClNlH_wXG_XdfZNfqvwEsmesWRbHtkGC87-WPI");
    assert_eq!(lines[8], "Token Website: https://sollamas.com");
    assert_eq!(lines[9], "Number of DNS records: 4");
}

#[test]
fn empty_values_render_as_unavailable() {
    let doc = OffChainMetadata { description: Some(String::new()), image: None, website: None };
    let t = token_metadata(on_chain("N", "S"), Some(doc), None);
    let lines = TokenReport { metadata: t, mint: mint(0, 9) }.report_lines();
    assert_eq!(lines[2], "Total Supply: 0");
    assert_eq!(lines[6], "Token Description: Not available");
}

#[test]
fn token_report_failures() {
    let t = || TokenMetadata {
        name: "n".to_string(),
        symbol: "s".to_string(),
        offchain: offchain_or_empty(None),
        dns_records: None,
    };
    assert_eq!(
        token_report(Err(FetchError::InvalidMetadataLayout), Err(FetchError::MintAccountUnreadable)),
        Err(FetchError::InvalidMetadataLayout)
    );
    assert_eq!(token_report(Ok(t()), Err(FetchError::InvalidMintLayout)), Err(FetchError::InvalidMintLayout));
    assert_eq!(
        token_report(Err(FetchError::MetadataAccountUnreadable), Ok(mint(1, 0))),
        Err(FetchError::MetadataAccountUnreadable)
    );
    assert!(token_report(Ok(t()), Ok(mint(1, 0))).is_ok());
}

#[test]
fn config_default_endpoint() {
    let cfg = Config::default();
    assert_eq!(cfg.rpc_url(), "https://api.mainnet-beta.solana.com");
    assert_eq!(cfg.rpc_url(), DEFAULT_RPC_URL);
    assert_eq!(Config::new("http://localhost:8899".to_string()).rpc_url(), "http://localhost:8899");
}
