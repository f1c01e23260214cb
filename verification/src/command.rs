//! The external programs that the tool runs, and with which arguments.

use vstd::prelude::*;
use crate::chain::{ChainSelection, chain_core_arg};
use crate::cli::NodeStartArgs;
use crate::error::InqError;
use crate::lookup::ExecutablePath;
use crate::text::{decimal, decimal_string, owned_strings, str_views, string_views};

verus! {

/// A program and its arguments.
#[derive(Debug, Clone)]
pub struct CommandLine {
    pub program: String,
    pub args: Vec<String>,
}

/// Whether a command line runs `program` with exactly `args`.
pub open spec fn runs(c: CommandLine, program: Seq<char>, args: Seq<Seq<char>>) -> bool {
    c.program@ == program && string_views(c.args@) == args
}

fn command(program: &str, args: &[&str]) -> (c: CommandLine)
    ensures
        runs(c, program@, str_views(args@)),
{
    CommandLine { program: String::from_str(program), args: owned_strings(args) }
}

/// The GitHub API path of the Inquisition release list.
pub open spec fn release_list_api_path() -> Seq<char> {
    "repos/bitcoin-inquisition/bitcoin/releases?per_page=100"@
}

/// The URL of the Inquisition release list.
pub open spec fn release_list_url() -> Seq<char> {
    "https://api.github.com/repos/bitcoin-inquisition/bitcoin/releases?per_page=100"@
}

/// How the release list is fetched: through `gh api` where `gh` is
/// available, else through `curl -fsSL`.
pub fn release_list_command(gh_available: bool) -> (c: CommandLine)
    ensures
        gh_available ==> runs(c, "gh"@, seq!["api"@, release_list_api_path()]),
        !gh_available ==> runs(c, "curl"@, seq!["-fsSL"@, release_list_url()]),
{
    if gh_available {
        let args: [&str; 2] = ["api", "repos/bitcoin-inquisition/bitcoin/releases?per_page=100"];
        let c = command("gh", args.as_slice());
        assert(str_views(args@) =~= seq!["api"@, release_list_api_path()]);
        c
    } else {
        let args: [&str; 2] = [
            "-fsSL",
            "https://api.github.com/repos/bitcoin-inquisition/bitcoin/releases?per_page=100",
        ];
        let c = command("curl", args.as_slice());
        assert(str_views(args@) =~= seq!["-fsSL"@, release_list_url()]);
        c
    }
}

/// How `gh release download` fetches one asset of a release into a directory.
pub fn gh_release_download_command(tag: &str, asset_name: &str, dir: &str) -> (c: CommandLine)
    ensures
        runs(
            c,
            "gh"@,
            seq![
                "release"@,
                "download"@,
                tag@,
                "--repo"@,
                "bitcoin-inquisition/bitcoin"@,
                "--pattern"@,
                asset_name@,
                "--dir"@,
                dir@,
            ],
        ),
{
    let args: [&str; 9] = [
        "release",
        "download",
        tag,
        "--repo",
        "bitcoin-inquisition/bitcoin",
        "--pattern",
        asset_name,
        "--dir",
        dir,
    ];
    let c = command("gh", args.as_slice());
    assert(str_views(args@) =~= seq![
        "release"@,
        "download"@,
        tag@,
        "--repo"@,
        "bitcoin-inquisition/bitcoin"@,
        "--pattern"@,
        asset_name@,
        "--dir"@,
        dir@,
    ]);
    c
}

/// How `curl` downloads a URL into a file, failing on HTTP errors and
/// following redirects.
pub fn curl_download_command(url: &str, file: &str) -> (c: CommandLine)
    ensures
        runs(c, "curl"@, seq!["-fL"@, url@, "-o"@, file@]),
{
    let args: [&str; 4] = ["-fL", url, "-o", file];
    let c = command("curl", args.as_slice());
    assert(str_views(args@) =~= seq!["-fL"@, url@, "-o"@, file@]);
    c
}

/// The arguments that terminate a process: on Windows `taskkill /PID <pid>`,
/// with `/F` when forced; elsewhere `kill -15 <pid>`, or `kill -9 <pid>` when
/// forced.
pub open spec fn kill_arg_views(pid: u32, force: bool, windows: bool) -> Seq<Seq<char>> {
    if windows {
        seq!["/PID"@, decimal(pid as nat)] + if force {
            seq!["/F"@]
        } else {
            Seq::empty()
        }
    } else {
        seq![if force { "-9"@ } else { "-15"@ }, decimal(pid as nat)]
    }
}

/// How a process is terminated, on Windows with `taskkill` and elsewhere with
/// `kill`.
pub fn kill_command(pid: u32, force: bool, windows: bool) -> (c: CommandLine)
    ensures
        runs(c, if windows { "taskkill"@ } else { "kill"@ }, kill_arg_views(pid, force, windows)),
{
    let id = decimal_string(pid);
    if windows {
        let mut args: Vec<String> = Vec::new();
        args.push(String::from_str("/PID"));
        args.push(id);
        if force {
            args.push(String::from_str("/F"));
        }
        assert(string_views(args@) =~= kill_arg_views(pid, force, windows));
        CommandLine { program: String::from_str("taskkill"), args }
    } else {
        let mut args: Vec<String> = Vec::new();
        let signal = if force {
            "-9"
        } else {
            "-15"
        };
        args.push(String::from_str(signal));
        args.push(id);
        assert(string_views(args@) =~= kill_arg_views(pid, force, windows));
        CommandLine { program: String::from_str("kill"), args }
    }
}

/// The arguments bitcoind is started with: the chain, then the data directory
/// and the signet challenge where given, then `-daemon` unless it is to run in
/// the foreground.
pub open spec fn bitcoind_arg_views(a: NodeStartArgs) -> Seq<Seq<char>> {
    seq!["-chain="@ + chain_core_arg(a.chain)] + match a.datadir {
        Some(d) => seq!["-datadir="@ + d@],
        None => Seq::empty(),
    } + match a.signetchallenge {
        Some(c) => seq!["-signetchallenge="@ + c@],
        None => Seq::empty(),
    } + if a.foreground {
        Seq::empty()
    } else {
        seq!["-daemon"@]
    }
}

/// Whether the arguments of `node start` are refused: a signet challenge is
/// given for a chain other than signet.
pub open spec fn node_start_refused(a: NodeStartArgs) -> bool {
    a.chain != ChainSelection::Signet && a.signetchallenge is Some
}

/// The arguments bitcoind is started with for `node start`.
pub fn bitcoind_arguments(args: &NodeStartArgs) -> (v: Vec<String>)
    ensures
        string_views(v@) == bitcoind_arg_views(*args),
{
    let mut v: Vec<String> = Vec::new();
    v.push(args.chain.chain_argument());
    if let Some(datadir) = &args.datadir {
        let mut a = String::from_str("-datadir=");
        a.append(datadir.as_str());
        v.push(a);
    }
    if let Some(challenge) = &args.signetchallenge {
        let mut a = String::from_str("-signetchallenge=");
        a.append(challenge.as_str());
        v.push(a);
    }
    if !args.foreground {
        v.push(String::from_str("-daemon"));
    }
    assert(string_views(v@) =~= bitcoind_arg_views(*args));
    v
}

/// The refusal of `node start` arguments that give a signet challenge for a
/// chain other than signet.
pub fn check_node_start(args: &NodeStartArgs) -> (res: Result<(), InqError>)
    ensures
        node_start_refused(*args) ==> res == Err::<(), InqError>(
            InqError::SignetChallengeRequiresSignet,
        ),
        !node_start_refused(*args) ==> res is Ok,
{
    if args.chain != ChainSelection::Signet && args.signetchallenge.is_some() {
        Err(InqError::SignetChallengeRequiresSignet)
    } else {
        Ok(())
    }
}

/// bitcoind and the arguments it is started with.
#[derive(Debug, Clone)]
pub struct NodeStartCommand {
    pub binary: ExecutablePath,
    pub args: Vec<String>,
}

/// How `node start` starts bitcoind, given where bitcoind was found on the
/// search path (by `bitcoind_binary`), if anywhere: arguments that are refused
/// stay refused; else without bitcoind there is nothing to start; else it is
/// started from where it was found with the arguments of `bitcoind_arguments`.
pub fn start_node_command(args: &NodeStartArgs, binary: Option<ExecutablePath>) -> (res: Result<
    NodeStartCommand,
    InqError,
>)
    ensures
        node_start_refused(*args) ==> res == Err::<NodeStartCommand, InqError>(
            InqError::SignetChallengeRequiresSignet,
        ),
        !node_start_refused(*args) && binary is None ==> res == Err::<NodeStartCommand, InqError>(
            InqError::BitcoindNotFound,
        ),
        !node_start_refused(*args) && binary is Some ==> (res matches Ok(c) && c.binary
            == binary.unwrap() && string_views(c.args@) == bitcoind_arg_views(*args)),
{
    check_node_start(args)?;
    match binary {
        Some(b) => Ok(NodeStartCommand { binary: b, args: bitcoind_arguments(args) }),
        None => Err(InqError::BitcoindNotFound),
    }
}

} // verus!
