//! Properties that hold across the library's functions and inputs.

use vstd::prelude::*;
use crate::chain::{ChainSelection, NetworkKind, chain_core_arg, detected_kind, network_kind_name};
use crate::release::{
    GitHubRelease, asks_latest, asset_file_name, platform_suffix, first_latest_tag, first_matching_tag,
    first_release_tagged, resolved_tag, tag_matches,
};
use crate::cli::NodeStartArgs;
use crate::command::{bitcoind_arg_views, kill_arg_views, node_start_refused};
use crate::rpc::{cookie_files_under, cookie_subdirs, default_cookie_path_views, default_rpc_url_views};
use crate::text::{decimal, digit_char, strip_v};

verus! {

/// A tag with a leading `v` and the same tag without it normalize alike,
/// where the rest does not itself start with `v`.
pub proof fn lemma_normalize_ignores_one_v(x: Seq<char>)
    requires
        x.len() == 0 || x[0] != 'v',
    ensures
        strip_v(seq!['v'] + x) == strip_v(x),
        strip_v(x) == x,
{
    assert((seq!['v'] + x).skip(1) =~= x);
}

/// Normalizing removes at most one leading `v`: the tag is either unchanged
/// or is `v` followed by the normalized tag.
pub proof fn lemma_normalize_drops_at_most_one_v(t: Seq<char>)
    ensures
        strip_v(t) == t || (t.len() > 0 && t[0] == 'v' && t == seq!['v'] + strip_v(t)),
{
    if t.len() > 0 && t[0] == 'v' {
        assert(t =~= seq!['v'] + t.skip(1));
    }
}

/// The asset of a release is the same whether its tag is written with or
/// without the leading `v`.
pub proof fn lemma_asset_name_ignores_one_v(x: Seq<char>, suffix: Seq<char>)
    requires
        x.len() == 0 || x[0] != 'v',
    ensures
        asset_file_name(seq!['v'] + x, suffix) == asset_file_name(x, suffix),
{
    lemma_normalize_ignores_one_v(x);
}

/// Asking for no tag and asking for `latest` resolve to the same release.
pub proof fn lemma_latest_request_aliases(rs: Seq<GitHubRelease>)
    ensures
        resolved_tag(None, rs) == resolved_tag(Some("latest"@), rs),
{
}

proof fn lemma_latest_is_listed(rs: Seq<GitHubRelease>)
    ensures
        first_latest_tag(rs) matches Some(t) ==> first_release_tagged(rs, t) is Some,
    decreases rs.len(),
{
    if rs.len() > 0 && !rs[0].is_latest {
        lemma_latest_is_listed(rs.drop_first());
        if let Some(t) = first_latest_tag(rs) {
            if rs[0].tag_name@ != t {
                assert(first_release_tagged(rs, t) == first_release_tagged(rs.drop_first(), t));
            }
        }
    }
}

proof fn lemma_match_is_listed(rs: Seq<GitHubRelease>, r: Seq<char>)
    ensures
        first_matching_tag(rs, r) matches Some(t) ==> first_release_tagged(rs, t) is Some,
    decreases rs.len(),
{
    if rs.len() > 0 && !tag_matches(r, rs[0].tag_name@) {
        lemma_match_is_listed(rs.drop_first(), r);
        if let Some(t) = first_matching_tag(rs, r) {
            if rs[0].tag_name@ != t {
                assert(first_release_tagged(rs, t) == first_release_tagged(rs.drop_first(), t));
            }
        }
    }
}

/// A resolved tag is always the tag of a listed release, so planning an
/// install never ends in a missing release entry.
pub proof fn lemma_resolved_tag_is_listed(requested: Option<Seq<char>>, rs: Seq<GitHubRelease>)
    ensures
        resolved_tag(requested, rs) matches Some(t) ==> first_release_tagged(rs, t) is Some,
{
    lemma_latest_is_listed(rs);
    if !asks_latest(requested) {
        lemma_match_is_listed(rs, requested.unwrap());
    }
}

/// The release tags are told apart by their normalized forms, and none starts
/// with two `v`s.
pub open spec fn tags_well_formed(rs: Seq<GitHubRelease>) -> bool {
    &&& forall|k: int, l: int|
        0 <= k < rs.len() && 0 <= l < rs.len() && k != l ==> strip_v(#[trigger] rs[k].tag_name@)
            != strip_v(#[trigger] rs[l].tag_name@)
    &&& forall|k: int|
        0 <= k < rs.len() ==> !(#[trigger] rs[k].tag_name@.len() >= 2 && rs[k].tag_name@[0] == 'v'
            && rs[k].tag_name@[1] == 'v')
}

proof fn lemma_only_one_answers(rs: Seq<GitHubRelease>, i: int, r: Seq<char>)
    requires
        tags_well_formed(rs),
        0 <= i < rs.len(),
        r == rs[i].tag_name@ || r == strip_v(rs[i].tag_name@),
    ensures
        forall|k: int| 0 <= k < rs.len() ==> (tag_matches(r, #[trigger] rs[k].tag_name@) <==> k == i),
{
    let t = rs[i].tag_name@;
    lemma_normalize_drops_at_most_one_v(t);
    assert forall|k: int| 0 <= k < rs.len() implies (tag_matches(r, #[trigger] rs[k].tag_name@)
        <==> k == i) by {
        let tk = rs[k].tag_name@;
        lemma_normalize_drops_at_most_one_v(tk);
        if k == i {
            if r == strip_v(t) && r != t {
                assert(strip_v(tk) == r);
            }
        } else {
            assert(strip_v(tk) != strip_v(t));
            if tag_matches(r, tk) {
                if tk == seq!['v'] + r {
                    assert(tk.skip(1) =~= r);
                    assert(strip_v(tk) == r);
                    if r == t {
                        if t.len() > 0 && t[0] == 'v' {
                            assert(tk[1] == 'v');
                        }
                    }
                } else if tk == r {
                    if r == t {
                    } else {
                        if tk.len() > 0 && tk[0] == 'v' {
                            assert(t[1] == 'v');
                        }
                    }
                }
            }
        }
    }
}

proof fn lemma_first_match_is_unique(rs: Seq<GitHubRelease>, i: int, r: Seq<char>)
    requires
        0 <= i < rs.len(),
        forall|k: int| 0 <= k < rs.len() ==> (tag_matches(r, #[trigger] rs[k].tag_name@) <==> k == i),
    ensures
        first_matching_tag(rs, r) == Some(rs[i].tag_name@),
    decreases rs.len(),
{
    if i > 0 {
        let rest = rs.drop_first();
        assert(!tag_matches(r, rs[0].tag_name@));
        assert forall|k: int| 0 <= k < rest.len() implies (tag_matches(r, #[trigger] rest[k].tag_name@)
            <==> k == i - 1) by {
            assert(rest[k] == rs[k + 1]);
        }
        lemma_first_match_is_unique(rest, i - 1, r);
    } else {
        assert(tag_matches(r, rs[0].tag_name@));
    }
}

/// A release can be asked for by its tag or by its tag without the leading
/// `v`, and both requests resolve to it, where the tags are told apart by
/// their normalized forms, none starts with two `v`s, and the request is not
/// the word `latest`.
pub proof fn lemma_tag_forms_resolve_alike(rs: Seq<GitHubRelease>, i: int)
    requires
        tags_well_formed(rs),
        0 <= i < rs.len(),
        strip_v(rs[i].tag_name@) != "latest"@,
    ensures
        resolved_tag(Some(rs[i].tag_name@), rs) == Some(rs[i].tag_name@),
        resolved_tag(Some(strip_v(rs[i].tag_name@)), rs) == Some(rs[i].tag_name@),
{
    let t = rs[i].tag_name@;
    reveal_strlit("latest");
    if t == "latest"@ {
        assert(t[0] == 'l');
    }
    lemma_only_one_answers(rs, i, t);
    lemma_first_match_is_unique(rs, i, t);
    lemma_only_one_answers(rs, i, strip_v(t));
    lemma_first_match_is_unique(rs, i, strip_v(t));
}

/// A signet challenge changes what is detected only on signet, where it turns
/// a signet into a custom signet.
pub proof fn lemma_challenge_only_marks_signet(chain: ChainSelection)
    ensures
        chain != ChainSelection::Signet ==> detected_kind(chain, true) == detected_kind(
            chain,
            false,
        ),
        chain == ChainSelection::Signet ==> detected_kind(chain, true) == NetworkKind::CustomSignet
            && detected_kind(chain, false) == NetworkKind::Signet,
{
}

/// Whether two network kinds are the same, where unknown chains count as
/// the same when their names hold the same characters.
pub open spec fn same_kind(k1: NetworkKind, k2: NetworkKind) -> bool {
    match (k1, k2) {
        (NetworkKind::Unknown(a), NetworkKind::Unknown(b)) => a@ == b@,
        (NetworkKind::Unknown(_), _) => false,
        (_, NetworkKind::Unknown(_)) => false,
        _ => k1 == k2,
    }
}

proof fn lemma_name_shape(k: NetworkKind)
    ensures
        k is Unknown ==> network_kind_name(k).len() >= 10 && network_kind_name(k)[0] == 'u'
            && network_kind_name(k).subrange(9, network_kind_name(k).len() - 1) == k->Unknown_0@,
        !(k is Unknown) ==> network_kind_name(k).len() > 0 && network_kind_name(k)[0] != 'u',
{
    reveal_strlit("mainnet");
    reveal_strlit("testnet");
    reveal_strlit("testnet4");
    reveal_strlit("signet");
    reveal_strlit("custom signet");
    reveal_strlit("regtest");
    reveal_strlit("unknown (");
    reveal_strlit(")");
    if let NetworkKind::Unknown(c) = k {
        let n = network_kind_name(k);
        assert(n.subrange(9, n.len() - 1) =~= c@);
    }
}

/// The name shown for a network kind tells the kind: two kinds are shown
/// alike exactly when they are the same kind (unknown chains by their names).
pub proof fn lemma_name_determines_kind(k1: NetworkKind, k2: NetworkKind)
    ensures
        network_kind_name(k1) == network_kind_name(k2) <==> same_kind(k1, k2),
{
    reveal_strlit("mainnet");
    reveal_strlit("testnet");
    reveal_strlit("testnet4");
    reveal_strlit("signet");
    reveal_strlit("custom signet");
    reveal_strlit("regtest");
    lemma_name_shape(k1);
    lemma_name_shape(k2);
    let n1 = network_kind_name(k1);
    let n2 = network_kind_name(k2);
    if n1 == n2 {
        assert(n1[0] == n2[0]);
        assert(n1.len() == n2.len());
        if !(k1 is Unknown) && !(k2 is Unknown) {
            assert(n1[1] == n2[1]);
            assert(n1[2] == n2[2]);
        }
    }
}

/// Whether a character is one of the decimal digits.
pub open spec fn is_decimal_digit(c: char) -> bool {
    '0' <= c && c <= '9'
}

/// The number that a string of decimal digits stands for, most significant
/// first, each character standing for its code point minus that of `'0'`.
pub open spec fn decimal_value(s: Seq<char>) -> int
    decreases s.len(),
{
    if s.len() == 0 {
        0
    } else {
        decimal_value(s.drop_last()) * 10 + ((s.last() as int) - ('0' as int))
    }
}

proof fn lemma_digit_code(d: int)
    requires
        0 <= d < 10,
    ensures
        (digit_char(d) as int) - ('0' as int) == d,
        is_decimal_digit(digit_char(d)),
{
}

/// The decimal notation of a number (as a process id is written on the
/// command line) is made of digits only, has no leading zero, and reads back
/// as that number.
pub proof fn lemma_decimal_reads_back(n: nat)
    ensures
        decimal_value(decimal(n)) == n,
        decimal(n).len() >= 1,
        forall|i: int| 0 <= i < decimal(n).len() ==> is_decimal_digit(#[trigger] decimal(n)[i]),
        n > 0 ==> decimal(n)[0] != '0',
    decreases n,
{
    if n < 10 {
        lemma_digit_code(n as int);
        let s = decimal(n);
        assert(s.drop_last() =~= Seq::<char>::empty());
        assert(decimal_value(s.drop_last()) == 0);
    } else {
        let q = (n / 10) as nat;
        let r = (n % 10) as int;
        lemma_decimal_reads_back(q);
        lemma_digit_code(r);
        let s = decimal(n);
        assert(s == decimal(q).push(digit_char(r)));
        assert(s.drop_last() =~= decimal(q));
        assert(n == q * 10 + r) by (nonlinear_arith)
            requires
                q == n / 10,
                r == n % 10,
        ;
        assert(q > 0);
        assert forall|i: int| 0 <= i < s.len() implies is_decimal_digit(#[trigger] s[i]) by {
            if i < s.len() - 1 {
                assert(s[i] == decimal(q)[i]);
            }
        }
        assert(s[0] == decimal(q)[0]);
    }
}

/// Whether a host is one for which Inquisition publishes a release asset:
/// Linux on x86_64 or aarch64, macOS on x86_64 or Apple silicon (which Rust
/// calls aarch64 and some tools arm64), and Windows on x86_64.
pub open spec fn supported_host(os: Seq<char>, arch: Seq<char>) -> bool {
    ||| os == "linux"@ && (arch == "x86_64"@ || arch == "aarch64"@)
    ||| os == "macos"@ && (arch == "x86_64"@ || arch == "aarch64"@ || arch == "arm64"@)
    ||| os == "windows"@ && arch == "x86_64"@
}

/// The asset suffix names the host: a Linux asset is the build for the host's
/// own architecture (`<arch>-linux-gnu.tar.gz`); a macOS asset is the darwin
/// build for the host's architecture, Apple silicon being called `arm64`; the
/// Windows asset is the 64-bit one. Hosts outside these get no asset.
pub proof fn lemma_suffix_names_host(os: Seq<char>, arch: Seq<char>)
    ensures
        platform_suffix(os, arch) is Some <==> supported_host(os, arch),
        os == "linux"@ && supported_host(os, arch) ==> platform_suffix(os, arch) == Some(
            arch + "-linux-gnu.tar.gz"@,
        ),
        os == "macos"@ && arch == "x86_64"@ ==> platform_suffix(os, arch) == Some(
            arch + "-apple-darwin-unsigned.tar.gz"@,
        ),
        os == "macos"@ && (arch == "aarch64"@ || arch == "arm64"@) ==> platform_suffix(os, arch)
            == Some("arm64"@ + "-apple-darwin-unsigned.tar.gz"@),
        os == "windows"@ && arch == "x86_64"@ ==> platform_suffix(os, arch) == Some(
            "win64"@ + "-codesigning.tar.gz"@,
        ),
{
    reveal_strlit("linux");
    reveal_strlit("macos");
    reveal_strlit("windows");
    reveal_strlit("x86_64");
    reveal_strlit("aarch64");
    reveal_strlit("arm64");
    reveal_strlit("-linux-gnu.tar.gz");
    reveal_strlit("x86_64-linux-gnu.tar.gz");
    reveal_strlit("aarch64-linux-gnu.tar.gz");
    reveal_strlit("-apple-darwin-unsigned.tar.gz");
    reveal_strlit("x86_64-apple-darwin-unsigned.tar.gz");
    reveal_strlit("arm64-apple-darwin-unsigned.tar.gz");
    reveal_strlit("win64");
    reveal_strlit("-codesigning.tar.gz");
    reveal_strlit("win64-codesigning.tar.gz");
    assert("linux"@.len() == 5 && "macos"@.len() == 5 && "windows"@.len() == 7);
    assert("linux"@[0] == 'l' && "macos"@[0] == 'm');
    assert("x86_64"@.len() == 6 && "aarch64"@.len() == 7 && "arm64"@.len() == 5);
    assert("x86_64"@[0] == 'x' && "arm64"@[0] == 'a' && "aarch64"@[1] == 'a' && "arm64"@[1] == 'r');
    assert("linux"@ != "macos"@);
    assert("linux"@ != "windows"@);
    assert("macos"@ != "windows"@);
    assert("x86_64"@ != "aarch64"@);
    assert("x86_64"@ != "arm64"@);
    assert("aarch64"@ != "arm64"@);
    assert("x86_64"@ + "-linux-gnu.tar.gz"@ =~= "x86_64-linux-gnu.tar.gz"@);
    assert("aarch64"@ + "-linux-gnu.tar.gz"@ =~= "aarch64-linux-gnu.tar.gz"@);
    assert("x86_64"@ + "-apple-darwin-unsigned.tar.gz"@ =~= "x86_64-apple-darwin-unsigned.tar.gz"@);
    assert("arm64"@ + "-apple-darwin-unsigned.tar.gz"@ =~= "arm64-apple-darwin-unsigned.tar.gz"@);
    assert("win64"@ + "-codesigning.tar.gz"@ =~= "win64-codesigning.tar.gz"@);
}

/// The asset file name for a supported host is `bitcoin-`, the tag without
/// its leading `v`, `-`, then the host's suffix; in particular on Linux it
/// ends with the host's architecture followed by `-linux-gnu.tar.gz`.
pub proof fn lemma_asset_name_for_linux(tag: Seq<char>, arch: Seq<char>)
    requires
        supported_host("linux"@, arch),
    ensures
        platform_suffix("linux"@, arch) matches Some(suffix) && asset_file_name(tag, suffix)
            == "bitcoin-"@ + strip_v(tag) + "-"@ + arch + "-linux-gnu.tar.gz"@,
{
    lemma_suffix_names_host("linux"@, arch);
}

/// A node is reported as running the network it reports: the name shown for
/// the detected kind begins with bitcoind's own name for the reported chain
/// (`main` for mainnet, `test` for testnet, and so on), no known chain is
/// shown as unknown, and distinct chains are never detected as the same kind.
pub proof fn lemma_detection_keeps_the_chain(c1: ChainSelection, c2: ChainSelection, has_challenge: bool)
    ensures
        network_kind_name(detected_kind(c1, false)).take(chain_core_arg(c1).len() as int)
            == chain_core_arg(c1),
        !(detected_kind(c1, has_challenge) is Unknown),
        c1 != c2 ==> detected_kind(c1, has_challenge) != detected_kind(c2, has_challenge),
{
    reveal_strlit("main");
    reveal_strlit("test");
    reveal_strlit("testnet4");
    reveal_strlit("signet");
    reveal_strlit("regtest");
    reveal_strlit("mainnet");
    reveal_strlit("testnet");
    let n = network_kind_name(detected_kind(c1, false));
    let a = chain_core_arg(c1);
    assert(n.take(a.len() as int) =~= a);
}

/// A signet challenge belongs to signet alone: `node start` is refused
/// exactly when a challenge is given for another chain. Any chain started
/// without a challenge, and signet with or without one, is accepted.
pub proof fn lemma_only_foreign_challenges_refused(a: NodeStartArgs)
    ensures
        a.signetchallenge is None ==> !node_start_refused(a),
        a.chain == ChainSelection::Signet ==> !node_start_refused(a),
        a.signetchallenge is Some && a.chain != ChainSelection::Signet ==> node_start_refused(a),
{
}

/// Bitcoin Core's data directory for a chain, relative to the base data
/// directory: none for mainnet, `testnet3` for testnet (whose `-chain` name
/// is `test`), and the chain's `-chain` name for the others.
pub open spec fn chain_data_subdir(c: ChainSelection) -> Seq<Seq<char>> {
    match c {
        ChainSelection::Mainnet => Seq::empty(),
        ChainSelection::Testnet => seq!["testnet3"@],
        _ => seq![chain_core_arg(c)],
    }
}

/// The cookie files are looked for in the data directory of each chain, in
/// the order mainnet, testnet, testnet4, signet, regtest, each once.
pub proof fn lemma_cookie_dirs_follow_chains()
    ensures
        cookie_subdirs() == seq![
            chain_data_subdir(ChainSelection::Mainnet),
            chain_data_subdir(ChainSelection::Testnet),
            chain_data_subdir(ChainSelection::Testnet4),
            chain_data_subdir(ChainSelection::Signet),
            chain_data_subdir(ChainSelection::Regtest),
        ],
        forall|i: int, j: int|
            0 <= i < j < 5 ==> #[trigger] cookie_subdirs()[i] != #[trigger] cookie_subdirs()[j],
{
    reveal_strlit("testnet3");
    reveal_strlit("testnet4");
    reveal_strlit("signet");
    reveal_strlit("regtest");
    assert(cookie_subdirs() =~= seq![
        chain_data_subdir(ChainSelection::Mainnet),
        chain_data_subdir(ChainSelection::Testnet),
        chain_data_subdir(ChainSelection::Testnet4),
        chain_data_subdir(ChainSelection::Signet),
        chain_data_subdir(ChainSelection::Regtest),
    ]);
    assert forall|i: int, j: int| 0 <= i < j < 5 implies #[trigger] cookie_subdirs()[i]
        != #[trigger] cookie_subdirs()[j] by {
        let x = cookie_subdirs()[i];
        let y = cookie_subdirs()[j];
        if x.len() == y.len() && x.len() == 1 {
            assert(x[0].len() != y[0].len() || x[0][0] != y[0][0] || x[0][7] != y[0][7]);
        }
    }
}

/// Each default cookie path is the home directory, then `.bitcoin` (or on
/// macOS also `Library/Application Support/Bitcoin`), then a chain's data
/// directory, then the file `.cookie`.
pub proof fn lemma_cookie_paths_shape(home: Seq<char>, macos: bool)
    ensures
        default_cookie_path_views(Some(home), macos).len() == if macos { 10int } else { 5int },
        forall|k: int|
            0 <= k < 5 ==> #[trigger] default_cookie_path_views(Some(home), macos)[k] == seq![
                home,
                ".bitcoin"@,
            ] + cookie_subdirs()[k] + seq![".cookie"@],
        macos ==> forall|k: int|
            5 <= k < 10 ==> #[trigger] default_cookie_path_views(Some(home), macos)[k] == seq![
                home,
                "Library"@,
                "Application Support"@,
                "Bitcoin"@,
            ] + cookie_subdirs()[k - 5] + seq![".cookie"@],
        default_cookie_path_views(None, macos).len() == 0,
{
    let a = cookie_files_under(seq![home, ".bitcoin"@]);
    let b = cookie_files_under(seq![home, "Library"@, "Application Support"@, "Bitcoin"@]);
    assert(a.len() == 5);
    assert(b.len() == 5);
}

/// The signal number that `kill` sends: SIGKILL (9) when forced, SIGTERM (15)
/// otherwise.
pub open spec fn kill_signal_number(force: bool) -> nat {
    if force {
        9
    } else {
        15
    }
}

/// How a process is terminated: outside Windows, `kill` gets `-` and the
/// number of the signal (SIGKILL when forced, SIGTERM otherwise) and then the
/// process id; on Windows `taskkill` gets `/PID` and the process id, and `/F`
/// exactly when forced. The process id argument reads back as the pid.
pub proof fn lemma_kill_targets_the_pid(pid: u32, force: bool, windows: bool)
    ensures
        !windows ==> kill_arg_views(pid, force, windows).len() == 2 && kill_arg_views(
            pid,
            force,
            windows,
        )[0] == seq!['-'] + decimal(kill_signal_number(force)) && decimal_value(
            kill_arg_views(pid, force, windows)[1],
        ) == pid,
        windows ==> kill_arg_views(pid, force, windows).len() == (if force { 3int } else { 2int })
            && kill_arg_views(pid, force, windows)[0] == "/PID"@ && decimal_value(
            kill_arg_views(pid, force, windows)[1],
        ) == pid,
        windows && force ==> kill_arg_views(pid, force, windows)[2] == "/F"@,
{
    reveal_strlit("-9");
    reveal_strlit("-15");
    reveal_with_fuel(decimal, 3);
    lemma_decimal_reads_back(pid as nat);
    if !windows {
        if force {
            assert(seq!['-'] + decimal(9) =~= "-9"@);
        } else {
            assert(decimal(15) =~= seq!['1', '5']);
            assert(seq!['-'] + decimal(15) =~= "-15"@);
        }
    }
}

/// Bitcoin Core's default RPC port for a chain.
pub open spec fn default_rpc_port(c: ChainSelection) -> nat {
    match c {
        ChainSelection::Mainnet => 8332,
        ChainSelection::Testnet => 18332,
        ChainSelection::Testnet4 => 48332,
        ChainSelection::Signet => 38332,
        ChainSelection::Regtest => 18443,
    }
}

/// The address of a chain's RPC server on this machine.
pub open spec fn local_rpc_url(c: ChainSelection) -> Seq<char> {
    "http://127.0.0.1:"@ + decimal(default_rpc_port(c))
}

/// A local node is looked for on this machine at Bitcoin Core's default RPC
/// port of each chain, in the order mainnet, testnet, signet, regtest,
/// testnet4.
pub proof fn lemma_rpc_urls_are_default_ports()
    ensures
        default_rpc_url_views() == seq![
            local_rpc_url(ChainSelection::Mainnet),
            local_rpc_url(ChainSelection::Testnet),
            local_rpc_url(ChainSelection::Signet),
            local_rpc_url(ChainSelection::Regtest),
            local_rpc_url(ChainSelection::Testnet4),
        ],
{
    reveal_strlit("http://127.0.0.1:");
    reveal_strlit("http://127.0.0.1:8332");
    reveal_strlit("http://127.0.0.1:18332");
    reveal_strlit("http://127.0.0.1:38332");
    reveal_strlit("http://127.0.0.1:18443");
    reveal_strlit("http://127.0.0.1:48332");
    reveal_with_fuel(decimal, 6);
    assert(decimal(8332) =~= seq!['8', '3', '3', '2']);
    assert(decimal(18332) =~= seq!['1', '8', '3', '3', '2']);
    assert(decimal(38332) =~= seq!['3', '8', '3', '3', '2']);
    assert(decimal(18443) =~= seq!['1', '8', '4', '4', '3']);
    assert(decimal(48332) =~= seq!['4', '8', '3', '3', '2']);
    assert(local_rpc_url(ChainSelection::Mainnet) =~= "http://127.0.0.1:8332"@);
    assert(local_rpc_url(ChainSelection::Testnet) =~= "http://127.0.0.1:18332"@);
    assert(local_rpc_url(ChainSelection::Signet) =~= "http://127.0.0.1:38332"@);
    assert(local_rpc_url(ChainSelection::Regtest) =~= "http://127.0.0.1:18443"@);
    assert(local_rpc_url(ChainSelection::Testnet4) =~= "http://127.0.0.1:48332"@);
    assert(default_rpc_url_views() =~= seq![
        local_rpc_url(ChainSelection::Mainnet),
        local_rpc_url(ChainSelection::Testnet),
        local_rpc_url(ChainSelection::Signet),
        local_rpc_url(ChainSelection::Regtest),
        local_rpc_url(ChainSelection::Testnet4),
    ]);
}

/// bitcoind is started on the selected chain, daemonized exactly unless it is
/// to run in the foreground, and given a data directory and a signet
/// challenge exactly when those were asked for; nothing else is passed.
pub proof fn lemma_bitcoind_args_follow_request(a: NodeStartArgs)
    ensures
        bitcoind_arg_views(a)[0] == "-chain="@ + chain_core_arg(a.chain),
        bitcoind_arg_views(a).len() == 1 + (if a.datadir is Some { 1int } else { 0int }) + (
        if a.signetchallenge is Some {
            1int
        } else {
            0int
        }) + (if a.foreground { 0int } else { 1int }),
        bitcoind_arg_views(a).contains("-daemon"@) <==> !a.foreground,
        a.datadir matches Some(d) ==> bitcoind_arg_views(a)[1] == "-datadir="@ + d@,
        a.signetchallenge matches Some(c) ==> bitcoind_arg_views(a)[if a.datadir is Some {
            2int
        } else {
            1int
        }] == "-signetchallenge="@ + c@,
{
    reveal_strlit("-daemon");
    reveal_strlit("-chain=");
    reveal_strlit("-datadir=");
    reveal_strlit("-signetchallenge=");
    let v = bitcoind_arg_views(a);
    if a.foreground {
        assert forall|i: int| 0 <= i < v.len() implies v[i] != "-daemon"@ by {
            if v[i].len() == 7 {
                assert(v[i][1] != 'd' || v[i][3] != 'e');
            }
        }
    } else {
        assert(v[v.len() - 1] == "-daemon"@);
    }
}

} // verus!
