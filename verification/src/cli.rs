//! The command line, as plain values: what each command is given.

use vstd::prelude::*;
use crate::chain::ChainSelection;

verus! {

/// A parsed command line.
#[derive(Debug)]
pub struct Cli {
    pub command: Commands,
}

/// The commands of the tool.
#[derive(Debug)]
pub enum Commands {
    /// Start a local Bitcoin Core node.
    Node(NodeArgs),
    /// Install Bitcoin Inquisition release assets.
    Inquisition(InquisitionArgs),
    /// Detect the chain the local Bitcoin Core node is running on.
    DetectNetwork(RpcArgs),
    /// Kill a process by PID.
    Kill(ProcessArgs),
}

/// The subcommands of `node`.
#[derive(Debug)]
pub enum NodeCommands {
    /// Start bitcoind with a selected chain.
    Start(NodeStartArgs),
}

/// The arguments of `node`.
#[derive(Debug)]
pub struct NodeArgs {
    pub command: NodeCommands,
}

/// The arguments of `inquisition`.
#[derive(Debug)]
pub struct InquisitionArgs {
    /// The release tag or version to install (for example v29.4-inq or 29.4-inq);
    /// none lists the available releases instead.
    pub install: Option<String>,
    /// Destination directory for the downloaded release asset.
    pub dir: Option<String>,
    /// Print the chosen release and asset instead of downloading.
    pub dry_run: bool,
}

/// How to reach a node over RPC.
#[derive(Debug, Clone)]
pub struct RpcArgs {
    /// RPC endpoint, for example http://127.0.0.1:8332
    pub rpc_url: Option<String>,
    /// RPC username for user/pass auth.
    pub rpc_user: Option<String>,
    /// RPC password for user/pass auth.
    pub rpc_password: Option<String>,
    /// Path to the cookie file for cookie auth.
    pub cookie_file: Option<String>,
    /// Optional signet challenge marker to distinguish a custom signet chain.
    pub signet_challenge: Option<String>,
}

/// The arguments of `node start`.
#[derive(Debug, Clone)]
pub struct NodeStartArgs {
    /// Bitcoin Core chain to start.
    pub chain: ChainSelection,
    /// Signet challenge for custom signet networks.
    pub signetchallenge: Option<String>,
    /// Data directory for bitcoind.
    pub datadir: Option<String>,
    /// Run in the foreground instead of daemonizing.
    pub foreground: bool,
    /// Print the command instead of executing it.
    pub dry_run: bool,
}

/// The arguments of `kill`.
#[derive(Debug, Clone)]
pub struct ProcessArgs {
    /// Process ID to terminate.
    pub pid: u32,
    /// Send SIGKILL instead of SIGTERM.
    pub force: bool,
}

} // verus!
