//! Properties that hold of every input, proved from the contracts of the
//! functions they speak of.

use vstd::prelude::*;
use crate::auth::{credential_of, hex_char, lower_hex, sha256_of, AuthMode};
use crate::dispatch::{is_success, reply_outcome, request_outcome, Reply};
use crate::error::{DecodeIssue, DexError, IssueSpec};
use crate::json::{json_reading, JsonSpec};
use crate::model::{
    BalanceResponse, BalanceView, CommonErrorResponse, CreateOrderResponse, CreateOrderView, Decode,
    FilledOrder, FilledOrderView, FilledOrdersResponse, TickerResponse, TickerView,
};

verus! {

/// A character among `0-9a-f`.
pub open spec fn is_lower_hex_digit(c: char) -> bool {
    ('0' <= c && c <= '9') || ('a' <= c && c <= 'f')
}

proof fn lemma_hex_char_is_digit(n: int)
    requires
        0 <= n < 16,
    ensures
        is_lower_hex_digit(hex_char(n)),
{
    let digits = seq!['0', '1', '2', '3', '4', '5', '6', '7', '8', '9', 'a', 'b', 'c', 'd', 'e', 'f'];
    assert(hex_char(n) == digits[n]);
    if n < 10 {
        assert(digits[n] as u32 == '0' as u32 + n) by {
            if n == 0 {} else if n == 1 {} else if n == 2 {} else if n == 3 {} else if n == 4 {}
            else if n == 5 {} else if n == 6 {} else if n == 7 {} else if n == 8 {} else {}
        }
    } else {
        assert(digits[n] as u32 == 'a' as u32 + (n - 10)) by {
            if n == 10 {} else if n == 11 {} else if n == 12 {} else if n == 13 {} else if n == 14 {} else {}
        }
    }
}

/// The hashed credential of a key is the lowercase hexadecimal text of the
/// key's SHA-256 digest: two digits from `0-9a-f` per digest byte. It depends
/// on the key alone, so equal keys always give equal credentials.
pub proof fn law_hashed_credential(k1: Seq<char>, k2: Seq<char>)
    ensures
        credential_of(AuthMode::Hashed, k1) == lower_hex(sha256_of(k1)),
        credential_of(AuthMode::Hashed, k1).len() == 2 * sha256_of(k1).len(),
        forall|i: int|
            0 <= i < credential_of(AuthMode::Hashed, k1).len() ==> is_lower_hex_digit(
                #[trigger] credential_of(AuthMode::Hashed, k1)[i],
            ),
        k1 == k2 ==> credential_of(AuthMode::Hashed, k1) == credential_of(AuthMode::Hashed, k2),
{
    let c = credential_of(AuthMode::Hashed, k1);
    let b = sha256_of(k1);
    assert forall|i: int| 0 <= i < c.len() implies is_lower_hex_digit(#[trigger] c[i]) by {
        let n = if i % 2 == 0 { b[i / 2] as int / 16 } else { b[i / 2] as int % 16 };
        assert(c[i] == hex_char(n));
        lemma_hex_char_is_digit(n);
    }
}

/// A success reply whose body reads as the expected shape gives exactly the
/// value read from it.
pub proof fn law_success_gives_decoded_value<T: Decode>(
    reply: Reply,
    url: Seq<char>,
    r: Result<T, DexError>,
    j: JsonSpec,
)
    requires
        reply_outcome(reply, url, r),
        is_success(reply.status),
        json_reading(reply.body@) == Some(j),
        T::decoded(j) is Ok,
    ensures
        r matches Ok(t) && Ok::<T::V, IssueSpec>(t@) == T::decoded(j),
{
}

/// A success reply whose body is JSON but does not read as the expected
/// shape gives a decode failure that names the reason, never a value. In
/// particular a body without the required list of filled orders fails on it.
pub proof fn law_bad_shape_is_decode_failure<T: Decode>(
    reply: Reply,
    url: Seq<char>,
    r: Result<T, DexError>,
    j: JsonSpec,
)
    requires
        reply_outcome(reply, url, r),
        is_success(reply.status),
        json_reading(reply.body@) == Some(j),
        T::decoded(j) is Err,
    ensures
        r matches Err(DexError::Decode { issue, body, .. }) && Err::<T::V, IssueSpec>(issue@) == T::decoded(j)
            && body@ == reply.body@,
{
}

/// An object without the `orders` field does not read as a list of filled
/// orders: the field is reported missing.
pub proof fn law_missing_orders(m: Map<Seq<char>, JsonSpec>)
    requires
        !m.contains_key("orders"@),
    ensures
        FilledOrdersResponse::decoded(JsonSpec::Object(m)) == Err::<Seq<FilledOrderView>, IssueSpec>(
            IssueSpec::MissingField("orders"@),
        ),
{
}

/// An object in which the optional fields of a shape are all absent reads
/// as that shape with every one of them absent.
pub proof fn law_absent_optional_fields(m: Map<Seq<char>, JsonSpec>)
    ensures
        !m.contains_key("symbol"@) && !m.contains_key("price"@) ==> TickerResponse::decoded(JsonSpec::Object(m))
            == Ok::<TickerView, IssueSpec>(TickerView { symbol: None, price: None }),
        !m.contains_key("equity"@) && !m.contains_key("balance"@) ==> BalanceResponse::decoded(JsonSpec::Object(m))
            == Ok::<BalanceView, IssueSpec>(BalanceView { equity: None, balance: None }),
        !m.contains_key("order_id"@) && !m.contains_key("filled_size"@) && !m.contains_key("filled_value"@)
            && !m.contains_key("filled_fee"@) ==> FilledOrder::decoded(JsonSpec::Object(m)) == Ok::<
            FilledOrderView,
            IssueSpec,
        >(FilledOrderView { order_id: None, filled_size: None, filled_value: None, filled_fee: None }),
        !m.contains_key("order_id"@) && !m.contains_key("price"@) && !m.contains_key("size"@)
            && !m.contains_key("message"@) ==> CreateOrderResponse::decoded(JsonSpec::Object(m)) == Ok::<
            CreateOrderView,
            IssueSpec,
        >(CreateOrderView { order_id: None, price: None, size: None, message: None }),
        !m.contains_key("message"@) ==> CommonErrorResponse::decoded(JsonSpec::Object(m)) == Ok::<
            Option<Seq<char>>,
            IssueSpec,
        >(None),
{
}

/// A success reply whose body is an object without the equity and balance
/// fields gives a balance with both absent; one without the symbol and price
/// fields gives a ticker with both absent.
pub proof fn law_absent_fields_reach_caller(
    reply: Reply,
    url: Seq<char>,
    balance: Result<BalanceResponse, DexError>,
    ticker: Result<TickerResponse, DexError>,
    m: Map<Seq<char>, JsonSpec>,
)
    requires
        reply_outcome(reply, url, balance),
        reply_outcome(reply, url, ticker),
        is_success(reply.status),
        json_reading(reply.body@) == Some(JsonSpec::Object(m)),
    ensures
        !m.contains_key("equity"@) && !m.contains_key("balance"@) ==> (balance matches Ok(b) && b.equity is None
            && b.balance is None),
        !m.contains_key("symbol"@) && !m.contains_key("price"@) ==> (ticker matches Ok(t) && t.symbol is None
            && t.price is None),
{
    law_absent_optional_fields(m);
}

/// A reply outside the success range gives a server failure with that exact
/// status and the requested url, whatever the body holds.
pub proof fn law_failure_status_is_server_failure<T: Decode>(reply: Reply, url: Seq<char>, r: Result<T, DexError>)
    requires
        reply_outcome(reply, url, r),
        !is_success(reply.status),
    ensures
        r matches Err(DexError::ServerResponse { status, url: u, .. }) && status == reply.status && u@ == url,
{
}

/// A transport failure is passed on as such, with its cause; there is no
/// reply, so no body is read.
pub proof fn law_transport_failure<T: Decode>(cause: String, url: Seq<char>, r: Result<T, DexError>)
    requires
        request_outcome(Err(cause), url, r),
    ensures
        r matches Err(DexError::Transport(c)) && c@ == cause@,
{
}

} // verus!
