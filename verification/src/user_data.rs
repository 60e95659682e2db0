use vstd::prelude::*;
use hmac::Mac;
use vstd::utf8::encode_utf8;
use crate::text::{owned, join2, str_eq, signed_decimal, spec_signed_decimal};

verus! {

/// HMAC-SHA256 tag of `message` under `key`, as the `hmac` and `sha2` crates
/// compute it.
pub uninterp spec fn spec_hmac_sha256(key: Seq<u8>, message: Seq<u8>) -> Seq<u8>;

/// Computes the HMAC-SHA256 tag with `hmac::Hmac<sha2::Sha256>`.
/// Trusted: the tag is the named HMAC of the key and message bytes and is 32
/// bytes long (SHA-256's output size); `new_from_slice` accepts keys of any
/// length, so the error arm is never taken.
#[verifier::external_body]
fn hmac_sha256(key: &[u8], message: &[u8]) -> (tag: Vec<u8>)
    ensures
        tag@ == spec_hmac_sha256(key@, message@),
        tag@.len() == 32,
{
    let mut mac = hmac::Hmac::<sha2::Sha256>::new_from_slice(key).expect("HMAC can take key of any size");
    mac.update(message);
    mac.finalize().into_bytes().to_vec()
}

/// Lower-case hexadecimal digit of a value below sixteen.
pub open spec fn hex_digit(d: int) -> char {
    if d < 10 {
        (48 + d) as char
    } else {
        (87 + d) as char
    }
}

/// Lower-case hexadecimal text of a byte string, two digits per byte, high
/// nibble first.
pub open spec fn spec_hex_lower(bytes: Seq<u8>) -> Seq<char>
    decreases bytes.len(),
{
    if bytes.len() == 0 {
        Seq::empty()
    } else {
        seq![hex_digit((bytes[0] / 16) as int), hex_digit((bytes[0] % 16) as int)] + spec_hex_lower(bytes.drop_first())
    }
}

/// Encodes bytes as lower-case hex with `hex::encode`.
/// Trusted: `hex::encode` writes each byte as two lower-case hex digits, high
/// nibble first (its source maps `byte >> 4` and `byte & 0x0f` through
/// "0123456789abcdef").
#[verifier::external_body]
fn hex_encode(data: &[u8]) -> (res: String)
    ensures
        res@ == spec_hex_lower(data@),
{
    hex::encode(data)
}

/// The request signature: hex of the HMAC-SHA256 of the query string under
/// the secret key (both taken as their UTF-8 bytes).
pub open spec fn spec_signature(params: Seq<char>, secret_key: Seq<char>) -> Seq<char> {
    spec_hex_lower(spec_hmac_sha256(encode_utf8(secret_key), encode_utf8(params)))
}

/// Lower-case hex text has two digits per byte.
pub proof fn lemma_hex_length(bytes: Seq<u8>)
    ensures
        spec_hex_lower(bytes).len() == 2 * bytes.len(),
    decreases bytes.len(),
{
    if bytes.len() > 0 {
        lemma_hex_length(bytes.drop_first());
    }
}

/// The signature text of an HMAC tag: its bytes in lower-case hex.
pub fn signature_hex(tag: &[u8]) -> (res: String)
    ensures
        res@ == spec_hex_lower(tag@),
        res@.len() == 2 * tag@.len(),
{
    proof { lemma_hex_length(tag@); }
    hex_encode(tag)
}

/// Signs a query string for the authenticated endpoints.
pub fn sign_params(params: &str, secret_key: &str) -> (res: String)
    ensures
        res@ == spec_signature(params@, secret_key@),
        res@.len() == 64,
{
    let tag = hmac_sha256(secret_key.as_bytes(), params.as_bytes());
    signature_hex(tag.as_slice())
}

/// Query string of a GTC limit order on BTCUSDT.
pub open spec fn spec_limit_order_params(side: Seq<char>, qty: Seq<char>, price: Seq<char>, timestamp: int) -> Seq<char> {
    "symbol=BTCUSDT&side="@ + side + "&type=LIMIT&timeInForce=GTC&quantity="@ + qty + "&price="@ + price
        + "&timestamp="@ + spec_signed_decimal(timestamp)
}

/// Query string of a market order on BTCUSDT.
pub open spec fn spec_market_order_params(side: Seq<char>, qty: Seq<char>, timestamp: int) -> Seq<char> {
    "symbol=BTCUSDT&side="@ + side + "&type=MARKET&quantity="@ + qty + "&timestamp="@ + spec_signed_decimal(timestamp)
}

/// Query string of an order cancellation on BTCUSDT.
pub open spec fn spec_cancel_order_params(order_id: Seq<char>, timestamp: int) -> Seq<char> {
    "symbol=BTCUSDT&orderId="@ + order_id + "&timestamp="@ + spec_signed_decimal(timestamp)
}

/// Query string of the open-orders request of a symbol.
pub open spec fn spec_open_orders_params(symbol: Seq<char>, timestamp: int) -> Seq<char> {
    "timestamp="@ + spec_signed_decimal(timestamp) + "&symbol="@ + symbol
}

/// Query string holding only the request time.
pub open spec fn spec_timestamp_params(timestamp: int) -> Seq<char> {
    "timestamp="@ + spec_signed_decimal(timestamp)
}

/// Builds the limit-order query string (time in ms since the epoch).
pub fn limit_order_params(side: &str, qty: &str, price: &str, timestamp: i64) -> (res: String)
    ensures
        res@ == spec_limit_order_params(side@, qty@, price@, timestamp as int),
{
    let mut s = owned("symbol=BTCUSDT&side=");
    s.append(side);
    s.append("&type=LIMIT&timeInForce=GTC&quantity=");
    s.append(qty);
    s.append("&price=");
    s.append(price);
    s.append("&timestamp=");
    s.append(signed_decimal(timestamp).as_str());
    s
}

/// Builds the market-order query string.
pub fn market_order_params(side: &str, qty: &str, timestamp: i64) -> (res: String)
    ensures
        res@ == spec_market_order_params(side@, qty@, timestamp as int),
{
    let mut s = owned("symbol=BTCUSDT&side=");
    s.append(side);
    s.append("&type=MARKET&quantity=");
    s.append(qty);
    s.append("&timestamp=");
    s.append(signed_decimal(timestamp).as_str());
    s
}

/// Builds the cancellation query string.
pub fn cancel_order_params(order_id: &str, timestamp: i64) -> (res: String)
    ensures
        res@ == spec_cancel_order_params(order_id@, timestamp as int),
{
    let mut s = owned("symbol=BTCUSDT&orderId=");
    s.append(order_id);
    s.append("&timestamp=");
    s.append(signed_decimal(timestamp).as_str());
    s
}

/// Builds the open-orders query string.
pub fn open_orders_params(symbol: &str, timestamp: i64) -> (res: String)
    ensures
        res@ == spec_open_orders_params(symbol@, timestamp as int),
{
    let mut s = owned("timestamp=");
    s.append(signed_decimal(timestamp).as_str());
    s.append("&symbol=");
    s.append(symbol);
    s
}

/// Builds the query string of the requests that carry only a time.
pub fn timestamp_params(timestamp: i64) -> (res: String)
    ensures
        res@ == spec_timestamp_params(timestamp as int),
{
    join2("timestamp=", signed_decimal(timestamp).as_str())
}

/// Authenticated REST endpoints of the futures test network.
#[derive(Debug, Clone, Copy, PartialEq, Eq, Structural)]
pub enum Endpoint {
    Order,
    OpenOrders,
    PositionRisk,
    Balance,
    ListenKey,
}

/// Address of an endpoint, without query string.
pub open spec fn spec_endpoint_base(e: Endpoint) -> Seq<char> {
    match e {
        Endpoint::Order => "https://testnet.binancefuture.com/fapi/v1/order"@,
        Endpoint::OpenOrders => "https://testnet.binancefuture.com/fapi/v1/openOrders"@,
        Endpoint::PositionRisk => "https://testnet.binancefuture.com/fapi/v2/positionRisk"@,
        Endpoint::Balance => "https://testnet.binancefuture.com/fapi/v2/balance"@,
        Endpoint::ListenKey => "https://testnet.binancefuture.com/fapi/v1/listenKey"@,
    }
}

/// Full signed address: endpoint, query string and its signature.
pub open spec fn spec_signed_url(e: Endpoint, params: Seq<char>, secret_key: Seq<char>) -> Seq<char> {
    spec_endpoint_base(e) + "?"@ + params + "&signature="@ + spec_signature(params, secret_key)
}

/// Every endpoint is signed the same way: its signed address is the
/// endpoint, "?", the query string, "&signature=" and the lower-case hex of
/// the HMAC-SHA256 keyed with the secret key's bytes over the query
/// string's bytes.
pub proof fn lemma_signed_url_keyed_by_secret(e: Endpoint, params: Seq<char>, secret_key: Seq<char>)
    ensures
        spec_signed_url(e, params, secret_key) == spec_endpoint_base(e) + "?"@ + params + "&signature="@
            + spec_hex_lower(spec_hmac_sha256(encode_utf8(secret_key), encode_utf8(params))),
{
}

/// Two endpoints' signed addresses for the same query string and secret key
/// differ only in the endpoint: what follows the endpoint is the same.
pub proof fn lemma_endpoints_signed_alike(e1: Endpoint, e2: Endpoint, params: Seq<char>, secret_key: Seq<char>)
    ensures
        spec_signed_url(e1, params, secret_key).skip(spec_endpoint_base(e1).len() as int)
            == spec_signed_url(e2, params, secret_key).skip(spec_endpoint_base(e2).len() as int),
{
    let tail = "?"@ + params + "&signature="@ + spec_signature(params, secret_key);
    assert(spec_signed_url(e1, params, secret_key) =~= spec_endpoint_base(e1) + tail);
    assert(spec_signed_url(e2, params, secret_key) =~= spec_endpoint_base(e2) + tail);
    assert((spec_endpoint_base(e1) + tail).skip(spec_endpoint_base(e1).len() as int) =~= tail);
    assert((spec_endpoint_base(e2) + tail).skip(spec_endpoint_base(e2).len() as int) =~= tail);
}

/// Builds the signed address of a request to an endpoint.
pub fn signed_url(endpoint: Endpoint, params: &str, secret_key: &str) -> (res: String)
    ensures
        res@ == spec_signed_url(endpoint, params@, secret_key@),
{
    let mut s = match endpoint {
        Endpoint::Order => owned("https://testnet.binancefuture.com/fapi/v1/order"),
        Endpoint::OpenOrders => owned("https://testnet.binancefuture.com/fapi/v1/openOrders"),
        Endpoint::PositionRisk => owned("https://testnet.binancefuture.com/fapi/v2/positionRisk"),
        Endpoint::Balance => owned("https://testnet.binancefuture.com/fapi/v2/balance"),
        Endpoint::ListenKey => owned("https://testnet.binancefuture.com/fapi/v1/listenKey"),
    };
    s.append("?");
    s.append(params);
    s.append("&signature=");
    let signature = sign_params(params, secret_key);
    s.append(signature.as_str());
    s
}

/// Websocket address of the user-data stream of a listen key.
pub fn user_stream_url(listen_key: &str) -> (res: String)
    ensures
        res@ == "wss://stream.binancefuture.com/ws/"@ + listen_key@,
{
    join2("wss://stream.binancefuture.com/ws/", listen_key)
}


/// Balance change of one asset in an account update.
#[derive(Debug, Clone)]
pub struct AccBalance {
    pub asset: String,
    pub wallet_bal: String,
    pub cross_bal: String,
    pub balance_chg: String,
}

/// Order update pushed on the user-data stream.
#[derive(Debug, Clone)]
pub struct OrderTradeUpdate {
    pub symbol: String,
    pub side: String,
    pub order_type: String,
    pub exec_type: String,
    pub order_status: String,
    pub time_in_force: String,
    pub working_type: String,
    pub order_id: i64,
    pub price: String,
    pub orig_qty: String,
}

/// Order as the REST order endpoints return it.
#[derive(Debug, Clone)]
pub struct NewOrder {
    pub order_id: i64,
    pub symbol: String,
    pub side: String,
    pub price: String,
    pub orig_qty: String,
    pub executed_qty: String,
    pub time_in_force: String,
    pub order_type: String,
    pub reduce_only: bool,
    pub update_time: u64,
}

/// Limit order as the single-symbol order endpoint returns it.
#[derive(Debug, Clone)]
pub struct LimitOrder {
    pub order_id: i64,
    pub symbol: String,
    pub side: String,
    pub price: String,
    pub orig_qty: String,
    pub executed_qty: String,
    pub time_in_force: String,
    pub order_type: String,
    pub reduce_only: bool,
    pub update_time: u64,
}

/// The two user-data events the dashboard reacts to.
#[derive(Debug, Clone, Copy, PartialEq, Eq, Structural)]
pub enum EventType {
    AccountUpdate,
    OrderTradeUpdate,
}

/// Event kind named by the "e" field of a user-data message.
pub open spec fn spec_event_type(e: Option<Seq<char>>) -> Option<EventType> {
    match e {
        Some(name) => if name == "ACCOUNT_UPDATE"@ {
            Some(EventType::AccountUpdate)
        } else if name == "ORDER_TRADE_UPDATE"@ {
            Some(EventType::OrderTradeUpdate)
        } else {
            None
        },
        None => None,
    }
}

/// Reads the event kind of a user-data message from its "e" field (absent
/// or not a string: `None`).
pub fn event_type_of(e: Option<&str>) -> (res: Option<EventType>)
    ensures
        res == spec_event_type(match e { Some(s) => Some(s@), None => None }),
{
    match e {
        Some(name) => if str_eq(name, "ACCOUNT_UPDATE") {
            Some(EventType::AccountUpdate)
        } else if str_eq(name, "ORDER_TRADE_UPDATE") {
            Some(EventType::OrderTradeUpdate)
        } else {
            None
        },
        None => None,
    }
}

/// What the dashboard makes of a user-data message.
#[derive(Debug, Clone)]
pub enum UserEventOutcome {
    /// Positions changed by an order: publish the update's positions.
    NewPositions,
    /// An order was cancelled: publish the order update.
    CancelOrder,
    /// Anything else: publish a notice with this text.
    Notice(String),
}

/// The outcome's text when it is a notice, and `None` otherwise.
pub open spec fn notice_text(o: UserEventOutcome) -> Option<Seq<char>> {
    match o {
        UserEventOutcome::Notice(s) => Some(s@),
        _ => None,
    }
}

/// Decision on a user-data message from its kind and the detail field of its
/// payload object: the update reason "m" of an account update, the
/// execution type "x" of an order update (`None` when the payload is not an
/// object).
pub open spec fn spec_user_outcome_is(
    kind: Option<EventType>,
    detail: Option<Seq<char>>,
    o: UserEventOutcome,
) -> bool {
    match kind {
        Some(EventType::AccountUpdate) => match detail {
            Some(m) => if m == "ORDER"@ {
                o is NewPositions
            } else {
                notice_text(o) == Some("Account Update"@)
            },
            None => notice_text(o) == Some("Unknown"@),
        },
        Some(EventType::OrderTradeUpdate) => match detail {
            Some(x) => if x == "NEW"@ {
                notice_text(o) == Some("New Order"@)
            } else if x == "TRADE"@ {
                notice_text(o) == Some("Trade"@)
            } else if x == "CANCELED"@ {
                o is CancelOrder
            } else {
                notice_text(o) == Some("Unknown"@)
            },
            None => notice_text(o) == Some("Unknown"@),
        },
        None => notice_text(o) == Some("Unknown"@),
    }
}

/// Decides what a user-data message becomes.
pub fn user_event_outcome(kind: Option<EventType>, detail: Option<&str>) -> (o: UserEventOutcome)
    ensures
        spec_user_outcome_is(kind, match detail { Some(s) => Some(s@), None => None }, o),
{
    match kind {
        Some(EventType::AccountUpdate) => match detail {
            Some(m) => if str_eq(m, "ORDER") {
                UserEventOutcome::NewPositions
            } else {
                UserEventOutcome::Notice(owned("Account Update"))
            },
            None => UserEventOutcome::Notice(owned("Unknown")),
        },
        Some(EventType::OrderTradeUpdate) => match detail {
            Some(x) => if str_eq(x, "NEW") {
                UserEventOutcome::Notice(owned("New Order"))
            } else if str_eq(x, "TRADE") {
                UserEventOutcome::Notice(owned("Trade"))
            } else if str_eq(x, "CANCELED") {
                UserEventOutcome::CancelOrder
            } else {
                UserEventOutcome::Notice(owned("Unknown"))
            },
            None => UserEventOutcome::Notice(owned("Unknown")),
        },
        None => UserEventOutcome::Notice(owned("Unknown")),
    }
}

/// A text held as plain characters.
pub open spec fn text_view(t: Option<String>) -> Option<Seq<char>> {
    match t {
        Some(s) => Some(s@),
        None => None,
    }
}

/// The fields of a user-data message that its handling reads, as
/// `serde_json` reads the text into a JSON value: the string values of
/// "e", "a"."m" and "o"."x"; `None` when the text is not JSON.
pub uninterp spec fn spec_user_fields(text: Seq<char>) -> Option<(Option<Seq<char>>, Option<Seq<char>>, Option<Seq<char>>)>;

/// Reads the fields "e", "a"."m" and "o"."x" of a user-data message with
/// `serde_json::from_str::<serde_json::Value>`.
/// Trusted: the result is the named reading of the text; indexing a missing
/// field or a non-object gives no string, so that field is `None`.
#[verifier::external_body]
fn user_fields(text: &str) -> (r: Option<(Option<String>, Option<String>, Option<String>)>)
    ensures
        match r {
            Some((e, m, x)) => spec_user_fields(text@) == Some((text_view(e), text_view(m), text_view(x))),
            None => spec_user_fields(text@) is None,
        },
{
    match serde_json::from_str::<serde_json::Value>(text) {
        Ok(v) => Some((
            v["e"].as_str().map(|t| t.to_string()),
            v["a"]["m"].as_str().map(|t| t.to_string()),
            v["o"]["x"].as_str().map(|t| t.to_string()),
        )),
        Err(_) => None,
    }
}

/// The detail field the handling of an event kind reads: the update reason
/// "a"."m" of an account update, the execution type "o"."x" of an order
/// update.
pub open spec fn spec_detail_for(kind: Option<EventType>, m: Option<Seq<char>>, x: Option<Seq<char>>) -> Option<Seq<char>> {
    match kind {
        Some(EventType::AccountUpdate) => m,
        Some(EventType::OrderTradeUpdate) => x,
        None => None,
    }
}

fn as_text(t: &Option<String>) -> (r: Option<&str>)
    ensures
        match r {
            Some(s) => text_view(*t) == Some(s@),
            None => text_view(*t) is None,
        },
{
    match t {
        Some(s) => Some(s.as_str()),
        None => None,
    }
}

/// What a raw user-data message becomes; `None` when the text is not JSON
/// (the message is dropped).
pub fn user_message_outcome(text: &str) -> (o: Option<UserEventOutcome>)
    ensures
        match spec_user_fields(text@) {
            None => o is None,
            Some((e, m, x)) => o matches Some(u) && spec_user_outcome_is(
                spec_event_type(e), spec_detail_for(spec_event_type(e), m, x), u),
        },
{
    match user_fields(text) {
        None => None,
        Some((e, m, x)) => {
            let kind = event_type_of(as_text(&e));
            let detail = match kind {
                Some(EventType::AccountUpdate) => as_text(&m),
                Some(EventType::OrderTradeUpdate) => as_text(&x),
                None => None,
            };
            Some(user_event_outcome(kind, detail))
        },
    }
}

/// Notice text of the plain user-stream handler, which only names the event.
pub open spec fn spec_event_notice(kind: Option<EventType>) -> Seq<char> {
    match kind {
        Some(EventType::AccountUpdate) => "Account Update"@,
        Some(EventType::OrderTradeUpdate) => "Order Trade Update"@,
        None => "Unknown"@,
    }
}

/// The notice the plain user-stream handler publishes for an event kind.
pub fn event_notice(kind: Option<EventType>) -> (res: String)
    ensures
        res@ == spec_event_notice(kind),
{
    match kind {
        Some(EventType::AccountUpdate) => owned("Account Update"),
        Some(EventType::OrderTradeUpdate) => owned("Order Trade Update"),
        None => owned("Unknown"),
    }
}


/// An open user-data connection and the channel that feeds it.
#[derive(Debug, Clone)]
pub struct Connection(pub futures::channel::mpsc::Sender<String>);

} // verus!
