//! Planning and checking for a command-line helper around Bitcoin Core and
//! Bitcoin Inquisition: which node to start and how, which release asset to
//! install, how to reach a local node and which chain it runs.

pub mod autodetect;
pub mod chain;
pub mod cli;
pub mod command;
pub mod error;
pub mod laws;
pub mod lookup;
pub mod release;
pub mod rpc;
pub mod text;

pub use autodetect::{AutoDetectAction, AutoDetectEvent, AutoDetectSearch};
pub use chain::{ChainSelection, NetworkKind, SignalKind, detect_network, detect_network_with_override};
pub use cli::{
    Cli, Commands, InquisitionArgs, NodeArgs, NodeCommands, NodeStartArgs, ProcessArgs, RpcArgs,
};
pub use command::{
    CommandLine, NodeStartCommand, bitcoind_arguments, check_node_start, curl_download_command,
    gh_release_download_command, kill_command, release_list_command, start_node_command,
};
pub use error::InqError;
pub use lookup::{
    ExecutablePath, bitcoin_cli_binary, bitcoind_binary, find_executable, gh_exists,
};
pub use release::{
    GitHubAsset, GitHubRelease, InquisitionAction, InstallPlan, inquisition_action,
    inquisition_asset_name, normalize_tag, plan_inquisition_install, release_tags,
    resolve_release_tag,
};
pub use rpc::{RpcAuth, default_cookie_paths, default_rpc_urls, rpc_auth};
