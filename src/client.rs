//! The client: its credential and base url, and the request that each
//! operation sends.

use vstd::prelude::*;
use crate::auth::{credential_of, derive_credential, AuthMode};
use crate::error::DexError;
use crate::json::{json_string_of, quote_json};
use crate::model::text_opt;
use vstd::utf8::encode_utf8;

verus! {

/// The HTTP method of a request.
#[derive(Clone, Copy, Debug, PartialEq, Eq, Structural)]
pub enum Method {
    Get,
    Post,
}

/// One request to send: the method, the full url, and the JSON body if any.
#[derive(Clone, Debug)]
pub struct Request {
    pub method: Method,
    pub url: String,
    pub body: Option<String>,
}

/// A byte that a query value carries as it is: an ASCII letter or digit, or
/// one of `-._~`.
pub open spec fn is_unreserved(b: u8) -> bool {
    (65 <= b <= 90) || (97 <= b <= 122) || (48 <= b <= 57) || b == 45 || b == 46 || b == 95 || b == 126
}

/// The ASCII code of an uppercase hexadecimal digit, for `n < 16`.
pub open spec fn upper_hex_byte(n: u8) -> u8 {
    if n < 10 {
        (48 + n) as u8
    } else {
        (55 + n) as u8
    }
}

/// One byte of a query value: itself where unreserved, else `%` and two
/// uppercase hexadecimal digits.
pub open spec fn escaped_byte(b: u8) -> Seq<u8> {
    if is_unreserved(b) {
        seq![b]
    } else {
        seq![37u8, upper_hex_byte(b / 16), upper_hex_byte(b % 16)]
    }
}

pub open spec fn escaped_bytes(b: Seq<u8>) -> Seq<u8>
    decreases b.len(),
{
    if b.len() == 0 {
        Seq::empty()
    } else {
        escaped_bytes(b.drop_last()) + escaped_byte(b.last())
    }
}

/// A text percent-encoded for a query: each byte of its UTF-8 encoding as
/// [`escaped_byte`] writes it.
pub open spec fn percent_encoded(s: Seq<char>) -> Seq<char> {
    escaped_bytes(encode_utf8(s)).map_values(|b: u8| b as char)
}

/// Relies on `String::from_utf8`: ASCII bytes are valid UTF-8, one character
/// each.
#[verifier::external_body]
fn ascii_text(bytes: Vec<u8>) -> (r: String)
    requires
        forall|i: int| 0 <= i < bytes@.len() ==> bytes@[i] < 128,
    ensures
        r@ == bytes@.map_values(|b: u8| b as char),
{
    String::from_utf8(bytes).unwrap_or_default()
}

fn upper_hex(n: u8) -> (r: u8)
    requires
        n < 16,
    ensures
        r == upper_hex_byte(n),
        r < 128,
{
    if n < 10 {
        48 + n
    } else {
        55 + n
    }
}

/// Percent-encodes a query value.
pub fn percent_encode(s: &str) -> (r: String)
    ensures
        r@ == percent_encoded(s@),
{
    let bytes = s.as_bytes();
    let mut out: Vec<u8> = Vec::new();
    let mut i: usize = 0;
    assert(bytes@.subrange(0, 0) =~= Seq::<u8>::empty());
    while i < bytes.len()
        invariant
            i <= bytes@.len(),
            bytes@ == encode_utf8(s@),
            out@ == escaped_bytes(bytes@.subrange(0, i as int)),
            forall|k: int| 0 <= k < out@.len() ==> out@[k] < 128,
        decreases bytes@.len() - i,
    {
        let b = bytes[i];
        assert(bytes@.subrange(0, i + 1).drop_last() =~= bytes@.subrange(0, i as int));
        if (65 <= b && b <= 90) || (97 <= b && b <= 122) || (48 <= b && b <= 57) || b == 45 || b == 46 || b == 95
            || b == 126 {
            out.push(b);
        } else {
            out.push(37);
            out.push(upper_hex(b / 16));
            out.push(upper_hex(b % 16));
        }
        assert(out@ =~= escaped_bytes(bytes@.subrange(0, i + 1)));
        i = i + 1;
    }
    assert(bytes@.subrange(0, bytes@.len() as int) =~= bytes@);
    ascii_text(out)
}

/// The query parameters that have a value, in order, with the value
/// percent-encoded. The names are the library's own and are written as they
/// are.
pub open spec fn present_params(params: Seq<(String, Option<String>)>) -> Seq<(Seq<char>, Seq<char>)>
    decreases params.len(),
{
    if params.len() == 0 {
        Seq::empty()
    } else {
        let rest = present_params(params.drop_last());
        match text_opt(params.last().1) {
            Some(v) => rest.push((params.last().0@, percent_encoded(v))),
            None => rest,
        }
    }
}

/// `k=v` pairs joined by `&`.
pub open spec fn joined(pairs: Seq<(Seq<char>, Seq<char>)>) -> Seq<char>
    decreases pairs.len(),
{
    if pairs.len() == 0 {
        Seq::empty()
    } else {
        let pair = pairs.last().0 + "="@ + pairs.last().1;
        if pairs.len() == 1 {
            pair
        } else {
            joined(pairs.drop_last()) + "&"@ + pair
        }
    }
}

/// The query string: empty where no parameter has a value, else `?` and the
/// pairs of those that have one.
pub open spec fn query_of(params: Seq<(String, Option<String>)>) -> Seq<char> {
    let pairs = present_params(params);
    if pairs.len() == 0 {
        Seq::empty()
    } else {
        "?"@ + joined(pairs)
    }
}

/// Builds the query string; a parameter without a value is left out, and
/// each value is percent-encoded.
pub fn query_string(params: &Vec<(String, Option<String>)>) -> (r: String)
    ensures
        r@ == query_of(params@),
{
    let mut out = String::new();
    let mut any = false;
    let mut i: usize = 0;
    while i < params.len()
        invariant
            i <= params@.len(),
            any == (present_params(params@.subrange(0, i as int)).len() > 0),
            out@ == query_of(params@.subrange(0, i as int)),
        decreases params@.len() - i,
    {
        let ghost before = params@.subrange(0, i as int);
        let ghost after = params@.subrange(0, i + 1);
        assert(after.drop_last() =~= before);
        let (key, value) = (&params[i].0, &params[i].1);
        match value {
            Some(v) => {
                if any {
                    out.append("&");
                } else {
                    out.append("?");
                }
                out.append(key.as_str());
                out.append("=");
                let encoded = percent_encode(v.as_str());
                out.append(encoded.as_str());
                proof {
                    let pairs = present_params(after);
                    assert(pairs.drop_last() =~= present_params(before));
                    assert(out@ =~= "?"@ + joined(pairs));
                }
                any = true;
            },
            None => {},
        }
        i = i + 1;
    }
    assert(params@.subrange(0, params@.len() as int) =~= params@);
    out
}

/// The full url of an endpoint.
pub open spec fn url_of(base: Seq<char>, path: Seq<char>, params: Seq<(String, Option<String>)>) -> Seq<char> {
    base + path + query_of(params)
}

/// Joins the base url, the path and the query string.
pub fn endpoint_url(base: &str, path: &str, params: &Vec<(String, Option<String>)>) -> (r: String)
    ensures
        r@ == url_of(base@, path@, params@),
{
    let mut url = base.to_owned();
    url.append(path);
    let query = query_string(params);
    url.append(query.as_str());
    url
}

/// The body of an order: symbol, size and side, and the price only where
/// one is given.
pub open spec fn order_body_of(symbol: Seq<char>, size: Seq<char>, side: Seq<char>, price: Option<Seq<char>>) -> Seq<char> {
    let head = "{\"symbol\":"@ + json_string_of(symbol) + ",\"size\":"@ + json_string_of(size)
        + ",\"side\":"@ + json_string_of(side);
    match price {
        Some(p) => head + ",\"price\":"@ + json_string_of(p) + "}"@,
        None => head + "}"@,
    }
}

/// Writes the JSON body of an order.
pub fn create_order_body(symbol: &str, size: &str, side: &str, price: &Option<String>) -> (r: String)
    ensures
        r@ == order_body_of(symbol@, size@, side@, text_opt(*price)),
{
    let mut body = String::new();
    body.append("{\"symbol\":");
    body.append(quote_json(symbol).as_str());
    body.append(",\"size\":");
    body.append(quote_json(size).as_str());
    body.append(",\"side\":");
    body.append(quote_json(side).as_str());
    match price {
        Some(p) => {
            body.append(",\"price\":");
            body.append(quote_json(p.as_str()).as_str());
        },
        None => {},
    }
    body.append("}");
    body
}

/// The body of closing all positions: the symbol where one is given; where
/// none is, the field is left out and the empty object asks for every symbol.
pub open spec fn close_body_of(symbol: Option<Seq<char>>) -> Seq<char> {
    match symbol {
        Some(s) => "{\"symbol\":"@ + json_string_of(s) + "}"@,
        None => "{}"@,
    }
}

/// Writes the JSON body of closing all positions.
pub fn close_all_positions_body(symbol: &Option<String>) -> (r: String)
    ensures
        r@ == close_body_of(text_opt(*symbol)),
{
    match symbol {
        Some(s) => {
            let mut body = String::new();
            body.append("{\"symbol\":");
            body.append(quote_json(s.as_str()).as_str());
            body.append("}");
            body
        },
        None => "{}".to_owned(),
    }
}

/// The query string of one parameter with a value.
proof fn lemma_query_one(params: Seq<(String, Option<String>)>)
    requires
        params.len() == 1,
        params[0].1 is Some,
    ensures
        query_of(params) == "?"@ + params[0].0@ + "="@ + percent_encoded(params[0].1.unwrap()@),
{
    assert(params.drop_last() =~= Seq::<(String, Option<String>)>::empty());
    assert(present_params(params.drop_last()) =~= Seq::empty());
    assert(params.last() == params[0]);
    let pairs = present_params(params);
    assert(pairs =~= seq![(params[0].0@, percent_encoded(params[0].1.unwrap()@))]);
}

/// The query string of two parameters with a value.
proof fn lemma_query_two(params: Seq<(String, Option<String>)>)
    requires
        params.len() == 2,
        params[0].1 is Some,
        params[1].1 is Some,
    ensures
        query_of(params) == "?"@ + params[0].0@ + "="@ + percent_encoded(params[0].1.unwrap()@) + "&"@
            + params[1].0@ + "="@ + percent_encoded(params[1].1.unwrap()@),
{
    let first = params.drop_last();
    assert(first.drop_last() =~= Seq::<(String, Option<String>)>::empty());
    assert(present_params(first.drop_last()) =~= Seq::empty());
    assert(first.last() == params[0]);
    assert(params.last() == params[1]);
    let v0 = percent_encoded(params[0].1.unwrap()@);
    let v1 = percent_encoded(params[1].1.unwrap()@);
    assert(present_params(first) =~= seq![(params[0].0@, v0)]);
    let pairs = present_params(params);
    assert(pairs =~= seq![(params[0].0@, v0), (params[1].0@, v1)]);
    assert(pairs.drop_last() =~= present_params(first));
    assert(joined(pairs.drop_last()) == params[0].0@ + "="@ + v0);
    assert(query_of(params) =~= "?"@ + params[0].0@ + "="@ + v0 + "&"@ + params[1].0@ + "="@ + v1);
}

/// A client of the API: the credential attached to every request and the
/// base url that every path is joined to. Neither changes after
/// construction.
#[derive(Clone, Debug)]
pub struct DexClient {
    credential: String,
    base_url: String,
}

impl DexClient {
    /// The credential attached to every request.
    pub closed spec fn credential_spec(&self) -> Seq<char> {
        self.credential@
    }

    /// The base url.
    pub closed spec fn base_url_spec(&self) -> Seq<char> {
        self.base_url@
    }

    /// A client whose credential is the hashed API key.
    pub fn new(api_key: String, base_url: String) -> (r: Result<DexClient, DexError>)
        ensures
            r is Ok,
            r matches Ok(c) ==> c.credential_spec() == credential_of(AuthMode::Hashed, api_key@)
                && c.base_url_spec() == base_url@,
    {
        DexClient::with_mode(AuthMode::Hashed, api_key, base_url)
    }

    /// A client whose credential is derived from the API key in `mode`. It
    /// cannot be built where the credential is no header value.
    pub fn with_mode(mode: AuthMode, api_key: String, base_url: String) -> (r: Result<DexClient, DexError>)
        ensures
            match r {
                Ok(c) => c.credential_spec() == credential_of(mode, api_key@) && c.base_url_spec() == base_url@,
                Err(e) => e is Construction && !crate::auth::is_header_value(credential_of(mode, api_key@)),
            },
            mode == AuthMode::Hashed ==> r is Ok,
    {
        match derive_credential(mode, api_key.as_str()) {
            Ok(credential) => Ok(DexClient { credential, base_url }),
            Err(e) => Err(e),
        }
    }

    /// The credential attached to every request.
    pub fn credential(&self) -> (r: &str)
        ensures
            r@ == self.credential_spec(),
    {
        self.credential.as_str()
    }

    /// The url of an endpoint whose query names the market and a symbol.
    fn market_symbol_url(&self, path: &str, dex: &str, symbol: &str) -> (r: String)
        ensures
            r@ == self.base_url_spec() + path@ + "?dex="@ + percent_encoded(dex@)
                + "&symbol="@ + percent_encoded(symbol@),
    {
        let params = vec![("dex".to_owned(), Some(dex.to_owned())), ("symbol".to_owned(), Some(symbol.to_owned()))];
        let r = endpoint_url(self.base_url.as_str(), path, &params);
        proof {
            lemma_query_two(params@);
            reveal_strlit("dex");
            reveal_strlit("symbol");
            reveal_strlit("?");
            reveal_strlit("=");
            reveal_strlit("&");
            reveal_strlit("?dex=");
            reveal_strlit("&symbol=");
            assert(r@ =~= self.base_url_spec() + path@ + "?dex="@ + percent_encoded(dex@)
                + "&symbol="@ + percent_encoded(symbol@));
        }
        r
    }

    /// The url of an endpoint whose query names the market alone.
    fn market_url(&self, path: &str, dex: &str) -> (r: String)
        ensures
            r@ == self.base_url_spec() + path@ + "?dex="@ + percent_encoded(dex@),
    {
        let params = vec![("dex".to_owned(), Some(dex.to_owned()))];
        let r = endpoint_url(self.base_url.as_str(), path, &params);
        proof {
            lemma_query_one(params@);
            reveal_strlit("dex");
            reveal_strlit("?");
            reveal_strlit("=");
            reveal_strlit("?dex=");
            assert(r@ =~= self.base_url_spec() + path@ + "?dex="@ + percent_encoded(dex@));
        }
        r
    }

    /// The request for the price of `symbol` on the market `dex`.
    pub fn ticker_request(&self, dex: &str, symbol: &str) -> (r: Request)
        ensures
            r.method == Method::Get,
            r.url@ == self.base_url_spec() + "/ticker"@ + "?dex="@ + percent_encoded(dex@)
                + "&symbol="@ + percent_encoded(symbol@),
            r.body is None,
    {
        Request { method: Method::Get, url: self.market_symbol_url("/ticker", dex, symbol), body: None }
    }

    /// The request for the filled orders of `symbol` on the market `dex`.
    pub fn filled_orders_request(&self, dex: &str, symbol: &str) -> (r: Request)
        ensures
            r.method == Method::Get,
            r.url@ == self.base_url_spec() + "/get-filled-orders"@ + "?dex="@ + percent_encoded(dex@)
                + "&symbol="@ + percent_encoded(symbol@),
            r.body is None,
    {
        Request { method: Method::Get, url: self.market_symbol_url("/get-filled-orders", dex, symbol), body: None }
    }

    /// The request for the account balance on the market `dex`.
    pub fn balance_request(&self, dex: &str) -> (r: Request)
        ensures
            r.method == Method::Get,
            r.url@ == self.base_url_spec() + "/get-balance"@ + "?dex="@ + percent_encoded(dex@),
            r.body is None,
    {
        Request { method: Method::Get, url: self.market_url("/get-balance", dex), body: None }
    }

    /// The request that places an order; the price is left out of the body
    /// where none is given.
    pub fn create_order_request(&self, dex: &str, symbol: &str, size: &str, side: &str, price: Option<String>) -> (r: Request)
        ensures
            r.method == Method::Post,
            r.url@ == self.base_url_spec() + "/create-order"@ + "?dex="@ + percent_encoded(dex@),
            r.body matches Some(b) && b@ == order_body_of(symbol@, size@, side@, text_opt(price)),
    {
        let body = create_order_body(symbol, size, side, &price);
        Request { method: Method::Post, url: self.market_url("/create-order", dex), body: Some(body) }
    }

    /// The request that closes all positions, of one symbol where one is
    /// given and of every symbol where none is.
    pub fn close_all_positions_request(&self, dex: &str, symbol: Option<String>) -> (r: Request)
        ensures
            r.method == Method::Post,
            r.url@ == self.base_url_spec() + "/close_all_positions"@ + "?dex="@ + percent_encoded(dex@),
            r.body matches Some(b) && b@ == close_body_of(text_opt(symbol)),
    {
        let body = close_all_positions_body(&symbol);
        Request { method: Method::Post, url: self.market_url("/close_all_positions", dex), body: Some(body) }
    }

    /// The base url.
    pub fn base_url(&self) -> (r: &str)
        ensures
            r@ == self.base_url_spec(),
    {
        self.base_url.as_str()
    }
}

} // verus!
