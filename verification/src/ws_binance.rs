use vstd::prelude::*;
use crate::text::{owned, join2};

verus! {

/// Lower-case form of a string as `str::to_lowercase` computes it (Unicode
/// case mapping).
pub uninterp spec fn spec_to_lowercase(s: Seq<char>) -> Seq<char>;

/// Whether every character of a text is ASCII.
pub open spec fn is_ascii_text(s: Seq<char>) -> bool {
    forall|i: int| 0 <= i < s.len() ==> (#[trigger] s[i] as u32) < 128
}

/// ASCII lower case of a character: 'A'..='Z' become 'a'..='z', anything
/// else is kept.
pub open spec fn ascii_lower(c: char) -> char {
    if 65 <= (c as u32) && (c as u32) <= 90 {
        ((c as u32) + 32) as char
    } else {
        c
    }
}

/// Lower-cases a symbol with `str::to_lowercase`.
/// Trusted: the result is the named lower-case form of the input and, for
/// ASCII text, the letters 'A'..='Z' mapped to 'a'..='z' with every other
/// character kept (the Unicode lower-case mapping of the ASCII range); the
/// mapping of other characters is left unstated.
#[verifier::external_body]
fn to_lowercase(s: &str) -> (r: String)
    ensures
        r@ == spec_to_lowercase(s@),
        is_ascii_text(s@) ==> r@ == s@.map_values(|c: char| ascii_lower(c)),
{
    s.to_lowercase()
}

/// Whether `pattern` occurs in `s` as a contiguous run of characters.
pub open spec fn spec_contains_str(s: Seq<char>, pattern: Seq<char>) -> bool {
    exists|i: int| 0 <= i <= s.len() - pattern.len() && #[trigger] s.subrange(i, i + pattern.len()) == pattern
}

/// Searches `pattern` in `s`.
pub fn contains_str(s: &str, pattern: &str) -> (res: bool)
    ensures
        res == spec_contains_str(s@, pattern@),
{
    let n = s.unicode_len();
    let m = pattern.unicode_len();
    if m > n {
        return false;
    }
    let mut i: usize = 0;
    while i <= n - m
        invariant
            n == s@.len(),
            m == pattern@.len(),
            m <= n,
            0 <= i <= n - m + 1,
            forall|k: int| 0 <= k < i ==> #[trigger] s@.subrange(k, k + m) != pattern@,
        decreases n - m + 1 - i,
    {
        let mut j: usize = 0;
        let mut same = true;
        while j < m
            invariant
                n == s@.len(),
                m == pattern@.len(),
                i + m <= n,
                0 <= j <= m,
                same == (forall|t: int| 0 <= t < j ==> s@[i + t] == pattern@[t]),
            decreases m - j,
        {
            if s.get_char(i + j) != pattern.get_char(j) {
                same = false;
            }
            j += 1;
        }
        if same {
            assert(s@.subrange(i as int, i + m) =~= pattern@);
            return true;
        }
        assert(s@.subrange(i as int, i + m) != pattern@) by {
            let t = choose|t: int| 0 <= t < m && s@[i + t] != pattern@[t];
            assert(s@.subrange(i as int, i + m)[t] != pattern@[t]);
        }
        i += 1;
    }
    false
}

/// Kind of a message of the single-ticker combined stream.
#[derive(Debug, Clone, Copy, PartialEq, Eq, Structural)]
pub enum TickerStreamRoute {
    Trade,
    Depth,
    Kline,
    Other,
}

/// Routes by the first of "aggTrade", "depth", "kline" that the stream name contains.
pub open spec fn spec_ticker_stream_route(stream: Seq<char>) -> TickerStreamRoute {
    if spec_contains_str(stream, "aggTrade"@) {
        TickerStreamRoute::Trade
    } else if spec_contains_str(stream, "depth"@) {
        TickerStreamRoute::Depth
    } else if spec_contains_str(stream, "kline"@) {
        TickerStreamRoute::Kline
    } else {
        TickerStreamRoute::Other
    }
}

/// Routes a message of the single-ticker stream by its stream name.
pub fn ticker_stream_route(stream: &str) -> (res: TickerStreamRoute)
    ensures
        res == spec_ticker_stream_route(stream@),
{
    if contains_str(stream, "aggTrade") {
        TickerStreamRoute::Trade
    } else if contains_str(stream, "depth") {
        TickerStreamRoute::Depth
    } else if contains_str(stream, "kline") {
        TickerStreamRoute::Kline
    } else {
        TickerStreamRoute::Other
    }
}

/// Address of the combined trade, 20-level depth and 1m kline streams of a
/// lower-case symbol.
pub open spec fn spec_streams_url_for(symbol: Seq<char>) -> Seq<char> {
    "wss://fstream.binance.com/stream?streams="@ + symbol + "@aggTrade/"@ + symbol + "@depth20@100ms/"@ + symbol + "@kline_1m"@
}

/// Builds the stream address of an already lower-cased symbol.
pub fn streams_url_for(symbol: &str) -> (res: String)
    ensures
        res@ == spec_streams_url_for(symbol@),
{
    let mut s = owned("wss://fstream.binance.com/stream?streams=");
    s.append(symbol);
    s.append("@aggTrade/");
    s.append(symbol);
    s.append("@depth20@100ms/");
    s.append(symbol);
    s.append("@kline_1m");
    s
}

/// Builds the single-ticker stream address: the ticker is lower-cased first.
pub fn ticker_ws_url(ticker: &str) -> (res: String)
    ensures
        res@ == spec_streams_url_for(spec_to_lowercase(ticker@)),
        is_ascii_text(ticker@) ==> res@ == spec_streams_url_for(ticker@.map_values(|c: char| ascii_lower(c))),
{
    let symbol = to_lowercase(ticker);
    streams_url_for(symbol.as_str())
}

/// Address of the latest 180 one-minute klines of a lower-case symbol.
pub open spec fn spec_klines_url_for(symbol: Seq<char>) -> Seq<char> {
    "https://fapi.binance.com/fapi/v1/klines?symbol="@ + symbol + "&interval=1m&limit=180"@
}

/// Builds the kline address of an already lower-cased symbol.
pub fn klines_url_for(symbol: &str) -> (res: String)
    ensures
        res@ == spec_klines_url_for(symbol@),
{
    let mut s = join2("https://fapi.binance.com/fapi/v1/klines?symbol=", symbol);
    s.append("&interval=1m&limit=180");
    s
}

/// Builds the kline address of a ticker: the ticker is lower-cased first.
pub fn ticker_klines_url(ticker: &str) -> (res: String)
    ensures
        res@ == spec_klines_url_for(spec_to_lowercase(ticker@)),
        is_ascii_text(ticker@) ==> res@ == spec_klines_url_for(ticker@.map_values(|c: char| ascii_lower(c))),
{
    klines_url_for(to_lowercase(ticker).as_str())
}

} // verus!
