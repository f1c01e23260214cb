use bitcoin_inq::lookup::{candidate_paths, first_existing, probe_candidates};
use bitcoin_inq::release::{inquisition_action, release_tags, InquisitionAction};
use bitcoin_inq::text::{decimal_string, join_with_spaces, str_eq, strip_v_prefix};
use bitcoin_inq::{
    bitcoind_arguments, bitcoind_binary, bitcoin_cli_binary, check_node_start,
    curl_download_command, default_cookie_paths, default_rpc_urls, detect_network,
    detect_network_with_override, find_executable, gh_exists, gh_release_download_command,
    inquisition_asset_name, kill_command, normalize_tag, plan_inquisition_install,
    release_list_command, resolve_release_tag, rpc_auth, start_node_command, AutoDetectAction,
    AutoDetectEvent, AutoDetectSearch, ChainSelection, ExecutablePath, GitHubAsset, GitHubRelease, InqError, NetworkKind,
    NodeStartArgs, RpcArgs, RpcAuth,
};

fn release(tag: &str, latest: bool, assets: &[(&str, &str)]) -> GitHubRelease {
    GitHubRelease {
        tag_name: tag.to_string(),
        is_latest: latest,
        assets: assets
            .iter()
            .map(|(n, u)| GitHubAsset { name: n.to_string(), browser_download_url: u.to_string() })
            .collect(),
    }
}

fn strings(v: &[&str]) -> Vec<String> {
    v.iter().map(|s| s.to_string()).collect()
}

fn rpc_args(cookie: Option<&str>, user: Option<&str>, password: Option<&str>) -> RpcArgs {
    RpcArgs {
        rpc_url: None,
        rpc_user: user.map(String::from),
        rpc_password: password.map(String::from),
        cookie_file: cookie.map(String::from),
        signet_challenge: None,
    }
}

fn start_args(chain: ChainSelection, challenge: Option<&str>, datadir: Option<&str>, foreground: bool) -> NodeStartArgs {
    NodeStartArgs {
        chain,
        signetchallenge: challenge.map(String::from),
        datadir: datadir.map(String::from),
        foreground,
        dry_run: false,
    }
}

#[test]
fn displays_network_names() {
    assert_eq!(NetworkKind::Mainnet.to_string(), "mainnet");
    assert_eq!(NetworkKind::CustomSignet.to_string(), "custom signet");
}

#[test]
fn normalizes_release_tags() {
    assert_eq!(normalize_tag("v29.4-inq"), "29.4-inq");
    assert_eq!(normalize_tag("29.4-inq"), "29.4-inq");
}

#[test]
fn normalize_removes_only_one_v() {
    assert_eq!(normalize_tag("vv1"), "v1");
    assert_eq!(normalize_tag(""), "");
    assert_eq!(normalize_tag("v"), "");
}

#[test]
fn displays_every_network_name() {
    assert_eq!(NetworkKind::Testnet.to_string(), "testnet");
    assert_eq!(NetworkKind::Testnet4.to_string(), "testnet4");
    assert_eq!(NetworkKind::Signet.to_string(), "signet");
    assert_eq!(NetworkKind::Regtest.to_string(), "regtest");
    assert_eq!(NetworkKind::Unknown("foo".to_string()).to_string(), "unknown (foo)");
}

#[test]
fn chain_arguments_follow_bitcoin_core_names() {
    assert_eq!(ChainSelection::Mainnet.chain_argument(), "-chain=main");
    assert_eq!(ChainSelection::Testnet.chain_argument(), "-chain=test");
    assert_eq!(ChainSelection::Testnet4.chain_argument(), "-chain=testnet4");
    assert_eq!(ChainSelection::Signet.chain_argument(), "-chain=signet");
    assert_eq!(ChainSelection::Regtest.chain_argument(), "-chain=regtest");
}

#[test]
fn detects_networks_and_custom_signet() {
    assert_eq!(detect_network(ChainSelection::Mainnet), NetworkKind::Mainnet);
    assert_eq!(detect_network(ChainSelection::Signet), NetworkKind::Signet);
    assert_eq!(detect_network_with_override(ChainSelection::Signet, Some("51")), NetworkKind::CustomSignet);
    assert_eq!(detect_network_with_override(ChainSelection::Regtest, Some("51")), NetworkKind::Regtest);
    assert_eq!(detect_network_with_override(ChainSelection::Testnet4, None), NetworkKind::Testnet4);
}

#[test]
fn rpc_auth_prefers_cookie_file() {
    let auth = rpc_auth(&rpc_args(Some("/c"), Some("u"), Some("p"))).unwrap();
    assert_eq!(auth, RpcAuth::CookieFile("/c".to_string()));
}

#[test]
fn rpc_auth_uses_user_and_password() {
    let auth = rpc_auth(&rpc_args(None, Some("u"), Some("p"))).unwrap();
    assert_eq!(auth, RpcAuth::UserPass("u".to_string(), "p".to_string()));
}

#[test]
fn rpc_auth_refuses_partial_credentials() {
    assert_eq!(rpc_auth(&rpc_args(None, Some("u"), None)), Err(InqError::MissingRpcCredentials));
    assert_eq!(rpc_auth(&rpc_args(None, None, None)), Err(InqError::MissingRpcCredentials));
}

#[test]
fn default_rpc_urls_in_order() {
    assert_eq!(
        default_rpc_urls(),
        strings(&[
            "http://127.0.0.1:8332",
            "http://127.0.0.1:18332",
            "http://127.0.0.1:38332",
            "http://127.0.0.1:18443",
            "http://127.0.0.1:48332",
        ])
    );
}

#[test]
fn cookie_paths_need_a_home() {
    assert!(default_cookie_paths(None, true).is_empty());
}

#[test]
fn cookie_paths_under_dot_bitcoin() {
    let paths = default_cookie_paths(Some("/home/u"), false);
    assert_eq!(paths.len(), 5);
    assert_eq!(paths[0], strings(&["/home/u", ".bitcoin", ".cookie"]));
    assert_eq!(paths[1], strings(&["/home/u", ".bitcoin", "testnet3", ".cookie"]));
    assert_eq!(paths[4], strings(&["/home/u", ".bitcoin", "regtest", ".cookie"]));
}

#[test]
fn cookie_paths_on_macos() {
    let paths = default_cookie_paths(Some("/Users/u"), true);
    assert_eq!(paths.len(), 10);
    assert_eq!(paths[5], strings(&["/Users/u", "Library", "Application Support", "Bitcoin", ".cookie"]));
    assert_eq!(paths[8], strings(&["/Users/u", "Library", "Application Support", "Bitcoin", "signet", ".cookie"]));
}

fn sample_releases() -> Vec<GitHubRelease> {
    vec![
        release("v29.4-inq", false, &[("bitcoin-29.4-inq-x86_64-linux-gnu.tar.gz", "https://x/a")]),
        release("v29.5-inq", true, &[
            ("bitcoin-29.5-inq-aarch64-linux-gnu.tar.gz", "https://x/b"),
            ("bitcoin-29.5-inq-x86_64-linux-gnu.tar.gz", "https://x/c"),
        ]),
        release("v28.0-inq", true, &[]),
    ]
}

#[test]
fn resolves_latest_release() {
    let rs = sample_releases();
    assert_eq!(resolve_release_tag(None, &rs), Ok("v29.5-inq".to_string()));
    assert_eq!(resolve_release_tag(Some("latest"), &rs), Ok("v29.5-inq".to_string()));
}

#[test]
fn resolves_tag_with_or_without_v() {
    let rs = sample_releases();
    assert_eq!(resolve_release_tag(Some("v29.4-inq"), &rs), Ok("v29.4-inq".to_string()));
    assert_eq!(resolve_release_tag(Some("29.4-inq"), &rs), Ok("v29.4-inq".to_string()));
}

#[test]
fn resolves_request_with_v_added() {
    let rs = vec![release("28.1", false, &[]), release("v28.1-inq", false, &[])];
    assert_eq!(resolve_release_tag(Some("28.1-inq"), &rs), Ok("v28.1-inq".to_string()));
    assert_eq!(resolve_release_tag(Some("28.1"), &rs), Ok("28.1".to_string()));
}

#[test]
fn refuses_unknown_tag() {
    let rs = sample_releases();
    let err = resolve_release_tag(Some("30.0"), &rs).unwrap_err();
    assert_eq!(err, InqError::UnknownReleaseTag("30.0".to_string()));
    assert_eq!(err.message(), "unknown Inquisition release tag: 30.0");
}

#[test]
fn refuses_latest_without_marked_release() {
    let rs = vec![release("v1", false, &[])];
    assert_eq!(resolve_release_tag(None, &rs), Err(InqError::LatestReleaseUnknown));
    assert_eq!(resolve_release_tag(Some("latest"), &[]), Err(InqError::LatestReleaseUnknown));
}

#[test]
fn names_assets_per_platform() {
    assert_eq!(
        inquisition_asset_name("v29.4-inq", "linux", "x86_64"),
        Ok("bitcoin-29.4-inq-x86_64-linux-gnu.tar.gz".to_string())
    );
    assert_eq!(
        inquisition_asset_name("29.4-inq", "macos", "arm64"),
        Ok("bitcoin-29.4-inq-arm64-apple-darwin-unsigned.tar.gz".to_string())
    );
    assert_eq!(
        inquisition_asset_name("v1", "macos", "aarch64"),
        Ok("bitcoin-1-arm64-apple-darwin-unsigned.tar.gz".to_string())
    );
    assert_eq!(
        inquisition_asset_name("v1", "windows", "x86_64"),
        Ok("bitcoin-1-win64-codesigning.tar.gz".to_string())
    );
    assert_eq!(inquisition_asset_name("v1", "freebsd", "x86_64"), Err(InqError::UnsupportedPlatform));
    assert_eq!(inquisition_asset_name("v1", "windows", "aarch64"), Err(InqError::UnsupportedPlatform));
}

#[test]
fn plans_install_of_latest() {
    let rs = sample_releases();
    let plan = plan_inquisition_install("latest", &rs, "linux", "x86_64").unwrap();
    assert_eq!(plan.tag, "v29.5-inq");
    assert_eq!(plan.asset_name, "bitcoin-29.5-inq-x86_64-linux-gnu.tar.gz");
    assert_eq!(plan.download_url, "https://x/c");
}

#[test]
fn plan_reports_missing_asset() {
    let rs = sample_releases();
    let err = plan_inquisition_install("28.0-inq", &rs, "linux", "x86_64").unwrap_err();
    assert_eq!(err, InqError::AssetNotFound("bitcoin-28.0-inq-x86_64-linux-gnu.tar.gz".to_string()));
}

#[test]
fn plan_refusals_come_in_order() {
    let rs = sample_releases();
    assert_eq!(
        plan_inquisition_install("9", &rs, "plan9", "mips").unwrap_err(),
        InqError::UnknownReleaseTag("9".to_string())
    );
    assert_eq!(
        plan_inquisition_install("29.4-inq", &rs, "plan9", "mips").unwrap_err(),
        InqError::UnsupportedPlatform
    );
}

#[test]
fn release_list_commands() {
    let gh = release_list_command(true);
    assert_eq!(gh.program, "gh");
    assert_eq!(gh.args, strings(&["api", "repos/bitcoin-inquisition/bitcoin/releases?per_page=100"]));
    let curl = release_list_command(false);
    assert_eq!(curl.program, "curl");
    assert_eq!(
        curl.args,
        strings(&["-fsSL", "https://api.github.com/repos/bitcoin-inquisition/bitcoin/releases?per_page=100"])
    );
}

#[test]
fn download_commands() {
    let gh = gh_release_download_command("v1", "a.tar.gz", "/tmp/d");
    assert_eq!(gh.program, "gh");
    assert_eq!(
        gh.args,
        strings(&["release", "download", "v1", "--repo", "bitcoin-inquisition/bitcoin", "--pattern", "a.tar.gz", "--dir", "/tmp/d"])
    );
    let curl = curl_download_command("https://x/a", "/tmp/d/a.tar.gz");
    assert_eq!(curl.program, "curl");
    assert_eq!(curl.args, strings(&["-fL", "https://x/a", "-o", "/tmp/d/a.tar.gz"]));
}

#[test]
fn kill_commands() {
    let soft = kill_command(1234, false, false);
    assert_eq!(soft.program, "kill");
    assert_eq!(soft.args, strings(&["-15", "1234"]));
    let hard = kill_command(1234, true, false);
    assert_eq!(hard.args, strings(&["-9", "1234"]));
    let win = kill_command(7, true, true);
    assert_eq!(win.program, "taskkill");
    assert_eq!(win.args, strings(&["/PID", "7", "/F"]));
    let win_soft = kill_command(7, false, true);
    assert_eq!(win_soft.args, strings(&["/PID", "7"]));
}

#[test]
fn bitcoind_arguments_in_order() {
    let args = start_args(ChainSelection::Signet, Some("5121"), Some("/data"), false);
    assert_eq!(
        bitcoind_arguments(&args),
        strings(&["-chain=signet", "-datadir=/data", "-signetchallenge=5121", "-daemon"])
    );
    let fg = start_args(ChainSelection::Regtest, None, None, true);
    assert_eq!(bitcoind_arguments(&fg), strings(&["-chain=regtest"]));
}

#[test]
fn signet_challenge_needs_signet() {
    let bad = start_args(ChainSelection::Regtest, Some("51"), None, false);
    assert_eq!(check_node_start(&bad), Err(InqError::SignetChallengeRequiresSignet));
    assert_eq!(
        start_node_command(&bad, Some(bin("/bin", "bitcoind"))).unwrap_err(),
        InqError::SignetChallengeRequiresSignet
    );
    let good = start_args(ChainSelection::Signet, Some("51"), None, false);
    assert_eq!(check_node_start(&good), Ok(()));
}

#[test]
fn start_node_without_search_path() {
    let args = start_args(ChainSelection::Regtest, None, None, false);
    assert_eq!(start_node_command(&args, None).unwrap_err(), InqError::BitcoindNotFound);
    assert_eq!(bitcoind_binary(&vec![]).unwrap_err(), InqError::BitcoindNotFound);
    assert_eq!(bitcoin_cli_binary(&vec![]).unwrap_err(), InqError::BitcoinCliNotFound);
    assert!(!gh_exists(&vec![]));
}

#[test]
fn finds_an_existing_file() {
    let dirs = strings(&["/nonexistent-dir-for-test", "/bin"]);
    let found = find_executable(&dirs, &["no-such-program-xyz", "sh"]).expect("sh in /bin");
    assert_eq!(found.dir, "/bin");
    assert_eq!(found.file, "sh");
    assert!(find_executable(&dirs, &["no-such-program-xyz"]).is_none());
}

#[test]
fn decimal_strings() {
    assert_eq!(decimal_string(0), "0");
    assert_eq!(decimal_string(7), "7");
    assert_eq!(decimal_string(10), "10");
    assert_eq!(decimal_string(4294967295), "4294967295");
}

#[test]
fn text_helpers() {
    assert!(str_eq("abc", "abc"));
    assert!(!str_eq("abc", "abd"));
    assert!(!str_eq("ab", "abc"));
    assert_eq!(strip_v_prefix("v1"), "1");
    assert_eq!(strip_v_prefix("1"), "1");
    assert_eq!(join_with_spaces(&strings(&["a", "b", "c"])), "a b c");
    assert_eq!(join_with_spaces(&vec![]), "");
}

#[test]
fn error_messages() {
    assert_eq!(InqError::TerminationFailed(42).message(), "failed to terminate process 42");
    assert_eq!(InqError::BitcoindNotFound.message(), "could not find bitcoind on PATH");
    assert_eq!(InqError::BitcoinCliNotFound.message(), "could not find bitcoin-cli on PATH");
    assert_eq!(
        InqError::MissingRpcCredentials.message(),
        "provide --cookie-file, both --rpc-user and --rpc-password, or use auto-detect"
    );
    assert_eq!(InqError::ReleaseListUnavailable.message(), "failed to fetch Inquisition release list");
    assert_eq!(InqError::LatestReleaseUnknown.message(), "could not determine latest Inquisition release");
    assert_eq!(InqError::UnsupportedPlatform.message(), "unsupported platform for Inquisition release assets");
    assert_eq!(InqError::ReleaseMetadataMissing("v1".to_string()).message(), "release metadata missing for v1");
    assert_eq!(InqError::AssetNotFound("a".to_string()).message(), "no matching asset found for a");
    assert_eq!(InqError::GhDownloadFailed.message(), "gh release download failed");
    assert_eq!(InqError::CurlDownloadFailed.message(), "curl download failed");
    assert_eq!(
        InqError::SignetChallengeRequiresSignet.message(),
        "--signetchallenge is only valid with --chain=signet"
    );
    assert_eq!(InqError::BitcoindFailed.message(), "bitcoind exited with a non-zero status");
    assert_eq!(
        InqError::AutoDetectFailed.message(),
        "could not auto-detect a local Bitcoin Core node; pass --rpc-url and auth flags explicitly"
    );
}

#[test]
fn auto_detect_visits_every_pair_in_order() {
    let mut search = AutoDetectSearch::new(2, 2);
    let mut seen = Vec::new();
    let mut action = search.action();
    loop {
        match action {
            AutoDetectAction::CheckCookie { url, cookie } => {
                seen.push((url, cookie));
                action = search.advance(AutoDetectEvent::CookieExists(cookie == 1));
            }
            AutoDetectAction::Query { .. } => {
                action = search.advance(AutoDetectEvent::Answer(None));
            }
            AutoDetectAction::Found(_) => panic!("no node answers"),
            AutoDetectAction::GiveUp => break,
        }
    }
    assert_eq!(seen, vec![(0, 0), (0, 1), (1, 0), (1, 1)]);
    assert_eq!(search.action(), AutoDetectAction::GiveUp);
}

#[test]
fn auto_detect_skips_missing_cookie_and_stops_at_answer() {
    let mut search = AutoDetectSearch::new(3, 2);
    assert_eq!(search.action(), AutoDetectAction::CheckCookie { url: 0, cookie: 0 });
    assert_eq!(
        search.advance(AutoDetectEvent::CookieExists(false)),
        AutoDetectAction::CheckCookie { url: 0, cookie: 1 }
    );
    assert_eq!(
        search.advance(AutoDetectEvent::CookieExists(true)),
        AutoDetectAction::Query { url: 0, cookie: 1 }
    );
    assert_eq!(
        search.advance(AutoDetectEvent::Answer(None)),
        AutoDetectAction::CheckCookie { url: 1, cookie: 0 }
    );
    assert_eq!(
        search.advance(AutoDetectEvent::CookieExists(true)),
        AutoDetectAction::Query { url: 1, cookie: 0 }
    );
    assert_eq!(
        search.advance(AutoDetectEvent::Answer(Some(NetworkKind::Regtest))),
        AutoDetectAction::Found(NetworkKind::Regtest)
    );
    assert_eq!(search.action(), AutoDetectAction::GiveUp);
}

#[test]
fn auto_detect_ignores_events_that_do_not_fit() {
    let mut search = AutoDetectSearch::new(1, 1);
    assert_eq!(
        search.advance(AutoDetectEvent::Answer(Some(NetworkKind::Mainnet))),
        AutoDetectAction::CheckCookie { url: 0, cookie: 0 }
    );
}

#[test]
fn auto_detect_without_cookies_gives_up() {
    let search = AutoDetectSearch::new(5, 0);
    assert_eq!(search.action(), AutoDetectAction::GiveUp);
    let none = AutoDetectSearch::new(0, 3);
    assert_eq!(none.action(), AutoDetectAction::GiveUp);
}

fn bin(dir: &str, file: &str) -> ExecutablePath {
    ExecutablePath { dir: dir.to_string(), file: file.to_string() }
}

#[test]
fn start_node_uses_found_binary() {
    let args = start_args(ChainSelection::Signet, Some("51"), None, false);
    let cmd = start_node_command(&args, Some(bin("/opt/b", "bitcoin-qt"))).unwrap();
    assert_eq!(cmd.binary.dir, "/opt/b");
    assert_eq!(cmd.binary.file, "bitcoin-qt");
    assert_eq!(cmd.args, strings(&["-chain=signet", "-signetchallenge=51", "-daemon"]));
}

#[test]
fn candidate_paths_go_directory_by_directory() {
    let dirs = strings(&["/a", "/b"]);
    let c = candidate_paths(&dirs, &["bitcoind", "bitcoin-qt"]);
    let pairs: Vec<(String, String)> = c.into_iter().map(|p| (p.dir, p.file)).collect();
    assert_eq!(
        pairs,
        vec![
            ("/a".to_string(), "bitcoind".to_string()),
            ("/a".to_string(), "bitcoin-qt".to_string()),
            ("/b".to_string(), "bitcoind".to_string()),
            ("/b".to_string(), "bitcoin-qt".to_string()),
        ]
    );
}

#[test]
fn first_existing_picks_first_true() {
    assert_eq!(first_existing(&vec![false, true, true]), Some(1));
    assert_eq!(first_existing(&vec![false, false]), None);
    assert_eq!(first_existing(&vec![]), None);
}

#[test]
fn probing_stops_at_first_file() {
    let cands = vec![bin("/nonexistent-dir-for-test", "sh"), bin("/bin", "sh"), bin("/bin", "sh")];
    assert_eq!(probe_candidates(&cands), vec![false, true]);
    let none = vec![bin("/nonexistent-dir-for-test", "sh")];
    assert_eq!(probe_candidates(&none), vec![false]);
}

#[test]
fn inquisition_without_version_lists_releases() {
    let rs = sample_releases();
    match inquisition_action(None, &rs, "linux", "x86_64").unwrap() {
        InquisitionAction::ListReleases(tags) => {
            assert_eq!(tags, strings(&["v29.4-inq", "v29.5-inq", "v28.0-inq"]))
        }
        InquisitionAction::Install(_) => panic!("expected a listing"),
    }
    assert_eq!(release_tags(&[]), Vec::<String>::new());
}

#[test]
fn inquisition_with_version_installs() {
    let rs = sample_releases();
    match inquisition_action(Some("29.4-inq"), &rs, "linux", "x86_64").unwrap() {
        InquisitionAction::Install(plan) => {
            assert_eq!(plan.tag, "v29.4-inq");
            assert_eq!(plan.download_url, "https://x/a");
        }
        InquisitionAction::ListReleases(_) => panic!("expected an install"),
    }
    assert_eq!(
        inquisition_action(Some("nope"), &rs, "linux", "x86_64").unwrap_err(),
        InqError::UnknownReleaseTag("nope".to_string())
    );
}

#[test]
fn network_names_are_distinct() {
    let kinds = vec![
        NetworkKind::Mainnet,
        NetworkKind::Testnet,
        NetworkKind::Testnet4,
        NetworkKind::Signet,
        NetworkKind::CustomSignet,
        NetworkKind::Regtest,
        NetworkKind::Unknown("custom".to_string()),
    ];
    for (i, a) in kinds.iter().enumerate() {
        for (j, b) in kinds.iter().enumerate() {
            assert_eq!(a.to_string() == b.to_string(), i == j);
        }
    }
}

#[test]
fn tag_forms_resolve_to_same_release() {
    let rs = vec![release("v1.0", false, &[]), release("2.0", false, &[]), release("v3.0", true, &[])];
    for tag in ["v1.0", "2.0", "v3.0"] {
        let short = normalize_tag(tag);
        assert_eq!(resolve_release_tag(Some(tag), &rs), Ok(tag.to_string()));
        assert_eq!(resolve_release_tag(Some(&short), &rs), Ok(tag.to_string()));
    }
}
