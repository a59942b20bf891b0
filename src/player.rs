//! What is handed to the external player, or printed in its place.

use vstd::prelude::*;
use crate::api::WATCH_URL_BASE;
use crate::proxy::{for_player, proxy_url_streamlink};

verus! {

/// The browser-identifying user agent that the broadcaster requires.
pub const USER_AGENT: &'static str = "Mozilla/5.0 (Windows NT 10.0; Win64; x64) AppleWebKit/537.36 (KHTML, like Gecko) Chrome/127.0.0.0 Safari/537.36";

/// The watch-page URL of the item `id`, also sent as the `Referer`.
pub fn watch_page_url(id: &str) -> (r: String)
    ensures
        r@ == WATCH_URL_BASE@ + id@,
{
    let mut r = String::from_str(WATCH_URL_BASE);
    r.append(id);
    r
}

pub open spec fn texts(v: Seq<String>) -> Seq<Seq<char>> {
    v.map_values(|s: String| s@)
}

/// The player's arguments: log level, the two required headers, the proxy in
/// the player's form when one is given, then the stream and the quality.
pub open spec fn player_args_spec(
    loglevel: Seq<char>,
    referer: Seq<char>,
    proxy: Option<Seq<char>>,
    stream: Seq<char>,
    quality: Seq<char>,
) -> Seq<Seq<char>> {
    let head = seq![
        "--loglevel"@,
        loglevel,
        "--http-header"@,
        "User-Agent="@ + USER_AGENT@,
        "--http-header"@,
        "Referer="@ + referer,
    ];
    let mid = match proxy {
        Some(p) => seq!["--http-proxy"@, for_player(p)],
        None => Seq::empty(),
    };
    head + mid + seq![stream, quality]
}

fn joined(a: &str, b: &str) -> (r: String)
    ensures
        r@ == a@ + b@,
{
    let mut r = String::from_str(a);
    r.append(b);
    r
}

/// Builds the player's argument list.
pub fn player_args(
    loglevel: &str,
    referer: &str,
    proxy: Option<&str>,
    stream: &str,
    quality: &str,
) -> (r: Vec<String>)
    ensures
        texts(r@) == player_args_spec(
            loglevel@,
            referer@,
            match proxy {
                Some(p) => Some(p@),
                None => None,
            },
            stream@,
            quality@,
        ),
{
    let mut r: Vec<String> = Vec::new();
    r.push(String::from_str("--loglevel"));
    r.push(String::from_str(loglevel));
    r.push(String::from_str("--http-header"));
    r.push(joined("User-Agent=", USER_AGENT));
    r.push(String::from_str("--http-header"));
    r.push(joined("Referer=", referer));
    match proxy {
        Some(p) => {
            r.push(String::from_str("--http-proxy"));
            r.push(proxy_url_streamlink(p));
        },
        None => {},
    }
    r.push(String::from_str(stream));
    r.push(String::from_str(quality));
    assert(texts(r@) =~= player_args_spec(
        loglevel@,
        referer@,
        match proxy {
            Some(p) => Some(p@),
            None => None,
        },
        stream@,
        quality@,
    ));
    r
}

/// The lines printed instead of running the player: the two headers that the
/// stream requires (user agent and referer), then the stream URL.
pub fn no_run_lines(stream: &str, referer: &str) -> (r: Vec<String>)
    ensures
        texts(r@) == seq![
            "User-Agent: "@ + USER_AGENT@,
            "Referer: "@ + referer@,
            "URL: "@ + stream@,
        ],
{
    let mut r: Vec<String> = Vec::new();
    r.push(joined("User-Agent: ", USER_AGENT));
    r.push(joined("Referer: ", referer));
    r.push(joined("URL: ", stream));
    assert(texts(r@) =~= seq![
        "User-Agent: "@ + USER_AGENT@,
        "Referer: "@ + referer@,
        "URL: "@ + stream@,
    ]);
    r
}

} // verus!
