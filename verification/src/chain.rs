//! Chains: the one a user selects, the one a node reports, and their names.

use vstd::prelude::*;

verus! {

/// The signal with which a process is asked to stop.
#[derive(Debug, Clone, Copy, PartialEq, Eq, Structural)]
pub enum SignalKind {
    Term,
    Kill,
}

/// A chain that a node can be started on or found running.
#[derive(Debug, Clone, Copy, PartialEq, Eq, Structural)]
pub enum ChainSelection {
    Mainnet,
    Testnet,
    Testnet4,
    Signet,
    Regtest,
}

/// What a node was found to run: a known chain, a signet with a custom
/// challenge, or a chain by a name this library does not know.
#[derive(Debug, Clone, PartialEq, Eq)]
pub enum NetworkKind {
    Mainnet,
    Testnet,
    Testnet4,
    Signet,
    CustomSignet,
    Regtest,
    Unknown(String),
}

/// The value of bitcoind's `-chain` option for a chain.
pub open spec fn chain_core_arg(chain: ChainSelection) -> Seq<char> {
    match chain {
        ChainSelection::Mainnet => "main"@,
        ChainSelection::Testnet => "test"@,
        ChainSelection::Testnet4 => "testnet4"@,
        ChainSelection::Signet => "signet"@,
        ChainSelection::Regtest => "regtest"@,
    }
}

/// The name under which a network kind is shown to a user.
pub open spec fn network_kind_name(kind: NetworkKind) -> Seq<char> {
    match kind {
        NetworkKind::Mainnet => "mainnet"@,
        NetworkKind::Testnet => "testnet"@,
        NetworkKind::Testnet4 => "testnet4"@,
        NetworkKind::Signet => "signet"@,
        NetworkKind::CustomSignet => "custom signet"@,
        NetworkKind::Regtest => "regtest"@,
        NetworkKind::Unknown(chain) => "unknown ("@ + chain@ + ")"@,
    }
}

/// The kind of network a node runs, given the chain it reports and whether a
/// custom signet challenge was supplied.
pub open spec fn detected_kind(chain: ChainSelection, has_challenge: bool) -> NetworkKind {
    match chain {
        ChainSelection::Mainnet => NetworkKind::Mainnet,
        ChainSelection::Testnet => NetworkKind::Testnet,
        ChainSelection::Testnet4 => NetworkKind::Testnet4,
        ChainSelection::Signet => if has_challenge {
            NetworkKind::CustomSignet
        } else {
            NetworkKind::Signet
        },
        ChainSelection::Regtest => NetworkKind::Regtest,
    }
}

/// Calls `bitcoin::Network::to_core_arg` on the `bitcoin::Network` that `chain`
/// stands for (mainnet is `Network::Bitcoin`, each other chain the variant of
/// its own name). Claimed, as the bitcoin crate's source writes it: "main",
/// "test", "testnet4", "signet" and "regtest" in that order.
#[verifier::external_body]
fn bitcoin_core_arg(chain: ChainSelection) -> (s: &'static str)
    ensures
        s@ == chain_core_arg(chain),
{
    let network = match chain {
        ChainSelection::Mainnet => bitcoin::Network::Bitcoin,
        ChainSelection::Testnet => bitcoin::Network::Testnet,
        ChainSelection::Testnet4 => bitcoin::Network::Testnet4,
        ChainSelection::Signet => bitcoin::Network::Signet,
        ChainSelection::Regtest => bitcoin::Network::Regtest,
    };
    network.to_core_arg()
}

impl ChainSelection {
    /// The `-chain=...` argument that starts bitcoind on this chain.
    pub fn chain_argument(self) -> (s: String)
        ensures
            s@ == "-chain="@ + chain_core_arg(self),
    {
        let mut s = String::from_str("-chain=");
        s.append(bitcoin_core_arg(self));
        s
    }
}

impl NetworkKind {
    /// The name under which this kind is shown to a user.
    pub fn to_string(&self) -> (s: String)
        ensures
            s@ == network_kind_name(*self),
    {
        match self {
            NetworkKind::Mainnet => String::from_str("mainnet"),
            NetworkKind::Testnet => String::from_str("testnet"),
            NetworkKind::Testnet4 => String::from_str("testnet4"),
            NetworkKind::Signet => String::from_str("signet"),
            NetworkKind::CustomSignet => String::from_str("custom signet"),
            NetworkKind::Regtest => String::from_str("regtest"),
            NetworkKind::Unknown(chain) => {
                let mut s = String::from_str("unknown (");
                s.append(chain.as_str());
                s.append(")");
                s
            },
        }
    }
}

/// The kind of network a node runs, from the chain that it reports, where a
/// signet counts as a custom signet when a challenge was supplied.
pub fn detect_network_with_override(chain: ChainSelection, signet_challenge: Option<&str>) -> (kind:
    NetworkKind)
    ensures
        kind == detected_kind(chain, signet_challenge is Some),
{
    match chain {
        ChainSelection::Mainnet => NetworkKind::Mainnet,
        ChainSelection::Testnet => NetworkKind::Testnet,
        ChainSelection::Testnet4 => NetworkKind::Testnet4,
        ChainSelection::Signet => {
            if signet_challenge.is_some() {
                NetworkKind::CustomSignet
            } else {
                NetworkKind::Signet
            }
        },
        ChainSelection::Regtest => NetworkKind::Regtest,
    }
}

/// The kind of network a node runs, from the chain that it reports, with no
/// signet challenge supplied.
pub fn detect_network(chain: ChainSelection) -> (kind: NetworkKind)
    ensures
        kind == detected_kind(chain, false),
{
    detect_network_with_override(chain, None)
}

} // verus!
