//! The node's configuration: its id, its listen address, and the
//! wallet address that fee sub-transactions are routed to.
//!
//! Reading, prompting for and persisting the configuration is file and
//! console work and stays outside; this module owns the value and its
//! plain rules.

use vstd::prelude::*;

verus! {

/// The node's persistent identity and addresses. The wallet address
/// may still be missing until the operator supplies one.
pub struct Config {
    pub uuid: String,
    pub address: String,
    pub wallet_address: Option<String>,
}

impl Config {
    /// A configuration from its parts, unchanged.
    pub fn new(uuid: String, address: String, wallet_address: Option<String>) -> (r: Config)
        ensures
            r.uuid == uuid,
            r.address == address,
            r.wallet_address == wallet_address,
    {
        Config { uuid, address, wallet_address }
    }

    /// Whether a wallet address is configured; fee routing needs one.
    pub fn has_wallet_address(&self) -> (r: bool)
        ensures
            r == (self.wallet_address is Some),
    {
        self.wallet_address.is_some()
    }

    /// Record the operator's wallet address; nothing else changes.
    pub fn set_wallet_address(&mut self, wallet_address: String)
        ensures
            final(self).uuid == old(self).uuid,
            final(self).address == old(self).address,
            final(self).wallet_address == Some(wallet_address),
    {
        self.wallet_address = Some(wallet_address);
    }
}

} // verus!
