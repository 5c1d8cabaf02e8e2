use vstd::prelude::*;

verus! {

/// The ledger RPC endpoint used when none is configured.
pub const DEFAULT_RPC_URL: &'static str = "https://api.mainnet-beta.solana.com";

/// Settings of the tool: the ledger RPC endpoint.
#[derive(Clone, Debug, PartialEq, Eq)]
pub struct Config {
    rpc_url: String,
}

impl Config {
    pub closed spec fn rpc_url_spec(&self) -> Seq<char> {
        self.rpc_url@
    }

    /// A configuration that uses the endpoint `rpc_url`.
    pub fn new(rpc_url: String) -> (r: Config)
        ensures
            r.rpc_url_spec() == rpc_url@,
    {
        Config { rpc_url }
    }

    /// The ledger RPC endpoint.
    pub fn rpc_url(&self) -> (r: &str)
        ensures
            r@ == self.rpc_url_spec(),
    {
        self.rpc_url.as_str()
    }
}

impl Default for Config {
    fn default() -> (r: Config)
        ensures
            r.rpc_url_spec() == DEFAULT_RPC_URL@,
    {
        Config { rpc_url: String::from_str(DEFAULT_RPC_URL) }
    }
}

} // verus!
