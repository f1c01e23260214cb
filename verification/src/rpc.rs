//! Reaching a node over RPC: which credentials to use, and where a local node
//! is looked for when none is named.

use vstd::prelude::*;
use crate::cli::RpcArgs;
use crate::error::InqError;
use crate::text::{opt_view, owned_strings, str_views, string_views};

verus! {

/// The credentials that an RPC connection is opened with.
#[derive(Debug, Clone, PartialEq, Eq)]
pub enum RpcAuth {
    /// Read user and password from this cookie file.
    CookieFile(String),
    /// This user and this password.
    UserPass(String, String),
}

/// The credentials that the arguments select: the cookie file where one is
/// given, else the user and password where both are given, else none.
pub fn rpc_auth(args: &RpcArgs) -> (res: Result<RpcAuth, InqError>)
    ensures
        match (args.cookie_file, args.rpc_user, args.rpc_password) {
            (Some(c), _, _) => res matches Ok(RpcAuth::CookieFile(f)) && f@ == c@,
            (None, Some(u), Some(p)) => res matches Ok(RpcAuth::UserPass(uu, pp)) && uu@ == u@
                && pp@ == p@,
            _ => res == Err::<RpcAuth, InqError>(InqError::MissingRpcCredentials),
        },
{
    if let Some(cookie_file) = &args.cookie_file {
        return Ok(RpcAuth::CookieFile(cookie_file.clone()));
    }
    match (&args.rpc_user, &args.rpc_password) {
        (Some(user), Some(password)) => Ok(RpcAuth::UserPass(user.clone(), password.clone())),
        _ => Err(InqError::MissingRpcCredentials),
    }
}

/// The RPC addresses at which a local node is looked for, in order: mainnet,
/// testnet, signet, regtest and testnet4 ports on 127.0.0.1.
pub open spec fn default_rpc_url_views() -> Seq<Seq<char>> {
    seq![
        "http://127.0.0.1:8332"@,
        "http://127.0.0.1:18332"@,
        "http://127.0.0.1:38332"@,
        "http://127.0.0.1:18443"@,
        "http://127.0.0.1:48332"@,
    ]
}

/// The RPC addresses at which a local node is looked for.
pub fn default_rpc_urls() -> (urls: Vec<String>)
    ensures
        string_views(urls@) == default_rpc_url_views(),
{
    let mut urls: Vec<String> = Vec::new();
    urls.push(String::from_str("http://127.0.0.1:8332"));
    urls.push(String::from_str("http://127.0.0.1:18332"));
    urls.push(String::from_str("http://127.0.0.1:38332"));
    urls.push(String::from_str("http://127.0.0.1:18443"));
    urls.push(String::from_str("http://127.0.0.1:48332"));
    assert(string_views(urls@) =~= default_rpc_url_views());
    urls
}

/// A path given by its components, each joined to the one before.
pub open spec fn path_views(paths: Seq<Vec<String>>) -> Seq<Seq<Seq<char>>> {
    paths.map_values(|p: Vec<String>| string_views(p@))
}

/// The chain directories under a data directory where a cookie file is
/// looked for: the data directory itself, then testnet3, testnet4, signet
/// and regtest.
pub open spec fn cookie_subdirs() -> Seq<Seq<Seq<char>>> {
    seq![
        Seq::empty(),
        seq!["testnet3"@],
        seq!["testnet4"@],
        seq!["signet"@],
        seq!["regtest"@],
    ]
}

/// The cookie files under a data directory, in the order of `cookie_subdirs`.
pub open spec fn cookie_files_under(base: Seq<Seq<char>>) -> Seq<Seq<Seq<char>>> {
    cookie_subdirs().map_values(|d: Seq<Seq<char>>| base + d + seq![".cookie"@])
}

/// Where cookie files are looked for: nowhere without a home directory;
/// else under `~/.bitcoin`, and on macOS then also under
/// `~/Library/Application Support/Bitcoin`.
pub open spec fn default_cookie_path_views(home: Option<Seq<char>>, macos: bool) -> Seq<
    Seq<Seq<char>>,
> {
    match home {
        None => Seq::empty(),
        Some(h) => cookie_files_under(seq![h, ".bitcoin"@]) + if macos {
            cookie_files_under(seq![h, "Library"@, "Application Support"@, "Bitcoin"@])
        } else {
            Seq::empty()
        },
    }
}

fn push_cookie_files(out: &mut Vec<Vec<String>>, base: &Vec<&str>)
    ensures
        path_views(final(out)@) == path_views(old(out)@) + cookie_files_under(
            str_views(base@),
        ),
{
    proof {
        reveal_strlit(".cookie");
        reveal_strlit("testnet3");
        reveal_strlit("testnet4");
        reveal_strlit("signet");
        reveal_strlit("regtest");
    }
    let ghost b = str_views(base@);
    let ghost start = path_views(out@);
    let subs: [&str; 5] = ["", "testnet3", "testnet4", "signet", "regtest"];
    let mut k: usize = 0;
    while k < 5
        invariant
            k <= 5,
            b == str_views(base@),
            subs@ == seq!["", "testnet3", "testnet4", "signet", "regtest"],
            ".cookie"@ == seq!['.', 'c', 'o', 'o', 'k', 'i', 'e'],
            "testnet3"@ == seq!['t', 'e', 's', 't', 'n', 'e', 't', '3'],
            "testnet4"@ == seq!['t', 'e', 's', 't', 'n', 'e', 't', '4'],
            "signet"@ == seq!['s', 'i', 'g', 'n', 'e', 't'],
            "regtest"@ == seq!['r', 'e', 'g', 't', 'e', 's', 't'],
            path_views(out@) =~= start + cookie_files_under(b).take(k as int),
        decreases 5 - k,
    {
        let mut parts: Vec<&str> = base.clone();
        if k > 0 {
            parts.push(subs[k]);
        }
        parts.push(".cookie");
        let path = owned_strings(parts.as_slice());
        let ghost before = out@;
        out.push(path);
        proof {
            assert(cookie_files_under(b).take(k + 1) =~= cookie_files_under(b).take(k as int).push(
                cookie_files_under(b)[k as int],
            ));
            assert(string_views(path@) =~= cookie_files_under(b)[k as int]);
            assert(path_views(out@) =~= path_views(before).push(string_views(path@)));
        }
        k = k + 1;
    }
    assert(cookie_files_under(b).take(5) =~= cookie_files_under(b));
}

/// The cookie files at which a local node's credentials are looked for, each
/// as its path components, starting from the home directory.
pub fn default_cookie_paths(home: Option<&str>, macos: bool) -> (paths: Vec<Vec<String>>)
    ensures
        path_views(paths@) == default_cookie_path_views(opt_view(home), macos),
{
    proof {
        reveal_strlit(".bitcoin");
        reveal_strlit("Library");
        reveal_strlit("Application Support");
        reveal_strlit("Bitcoin");
    }
    let mut paths: Vec<Vec<String>> = Vec::new();
    if let Some(h) = home {
        let mut base: Vec<&str> = Vec::new();
        base.push(h);
        base.push(".bitcoin");
        assert(str_views(base@) =~= seq![h@, ".bitcoin"@]);
        push_cookie_files(&mut paths, &base);
        if macos {
            let mut mac: Vec<&str> = Vec::new();
            mac.push(h);
            mac.push("Library");
            mac.push("Application Support");
            mac.push("Bitcoin");
            assert(str_views(mac@) =~= seq![
                h@,
                "Library"@,
                "Application Support"@,
                "Bitcoin"@,
            ]);
            push_cookie_files(&mut paths, &mac);
        }
    }
    assert(path_views(paths@) =~= default_cookie_path_views(opt_view(home), macos));
    paths
}

} // verus!
