//! The typed shapes of the API's responses, and how each is read from a JSON
//! document. Money amounts travel as decimal strings.

use vstd::prelude::*;
use crate::error::{DecodeIssue, IssueSpec};
use crate::json::{json_view, member, JsonSpec};

verus! {

/// The model of an optional text field.
pub open spec fn text_opt(o: Option<String>) -> Option<Seq<char>> {
    match o {
        Some(s) => Some(s@),
        None => None,
    }
}

/// An optional text field of an object: absent or null reads as `None`, a
/// string as its text, and any other kind of value is a type error.
pub open spec fn optional_field(j: JsonSpec, key: Seq<char>) -> Result<Option<Seq<char>>, IssueSpec> {
    match j {
        JsonSpec::Object(m) => if !m.contains_key(key) {
            Ok(None)
        } else {
            match m[key] {
                JsonSpec::Null => Ok(None),
                JsonSpec::Text(s) => Ok(Some(s)),
                _ => Err(IssueSpec::WrongType(key)),
            }
        },
        _ => Err(IssueSpec::NotObject),
    }
}

/// Reads an optional text field.
pub fn optional_text(v: &serde_json::Value, key: &str) -> (r: Result<Option<String>, DecodeIssue>)
    ensures
        match r {
            Ok(o) => optional_field(json_view(*v), key@) == Ok::<_, IssueSpec>(text_opt(o)),
            Err(e) => optional_field(json_view(*v), key@) == Err::<Option<Seq<char>>, _>(e@),
        },
{
    if !v.is_object() {
        return Err(DecodeIssue::NotObject);
    }
    match member(v, key) {
        None => Ok(None),
        Some(x) => {
            if x.is_null() {
                Ok(None)
            } else {
                match x.as_str() {
                    Some(s) => Ok(Some(s.to_owned())),
                    None => Err(DecodeIssue::WrongType(key.to_owned())),
                }
            }
        },
    }
}

/// A type that is read from a JSON document, with the model of that reading.
pub trait Decode: Sized + View {
    /// What a document reads as: the model of the value, or why it cannot be read.
    spec fn decoded(j: JsonSpec) -> Result<Self::V, IssueSpec>;

    fn decode(v: &serde_json::Value) -> (r: Result<Self, DecodeIssue>)
        ensures
            match r {
                Ok(x) => Self::decoded(json_view(*v)) == Ok::<Self::V, IssueSpec>(x@),
                Err(e) => Self::decoded(json_view(*v)) == Err::<Self::V, IssueSpec>(e@),
            },
    ;
}

/// The error envelope of a response outside the success range.
#[derive(Clone, Debug, PartialEq, Eq)]
pub struct CommonErrorResponse {
    pub message: Option<String>,
}

impl View for CommonErrorResponse {
    type V = Option<Seq<char>>;

    open spec fn view(&self) -> Option<Seq<char>> {
        text_opt(self.message)
    }
}

impl Decode for CommonErrorResponse {
    open spec fn decoded(j: JsonSpec) -> Result<Option<Seq<char>>, IssueSpec> {
        optional_field(j, "message"@)
    }

    fn decode(v: &serde_json::Value) -> (r: Result<Self, DecodeIssue>) {
        let message = optional_text(v, "message")?;
        Ok(CommonErrorResponse { message })
    }
}

/// The price of one market.
#[derive(Clone, Debug, PartialEq, Eq)]
pub struct TickerResponse {
    pub symbol: Option<String>,
    pub price: Option<String>,
}

pub struct TickerView {
    pub symbol: Option<Seq<char>>,
    pub price: Option<Seq<char>>,
}

impl View for TickerResponse {
    type V = TickerView;

    open spec fn view(&self) -> TickerView {
        TickerView { symbol: text_opt(self.symbol), price: text_opt(self.price) }
    }
}

impl Decode for TickerResponse {
    open spec fn decoded(j: JsonSpec) -> Result<TickerView, IssueSpec> {
        match optional_field(j, "symbol"@) {
            Err(e) => Err(e),
            Ok(symbol) => match optional_field(j, "price"@) {
                Err(e) => Err(e),
                Ok(price) => Ok(TickerView { symbol, price }),
            },
        }
    }

    fn decode(v: &serde_json::Value) -> (r: Result<Self, DecodeIssue>) {
        let symbol = optional_text(v, "symbol")?;
        let price = optional_text(v, "price")?;
        Ok(TickerResponse { symbol, price })
    }
}

/// One filled order.
#[derive(Clone, Debug, PartialEq, Eq)]
pub struct FilledOrder {
    pub order_id: Option<String>,
    pub filled_size: Option<String>,
    pub filled_value: Option<String>,
    pub filled_fee: Option<String>,
}

pub struct FilledOrderView {
    pub order_id: Option<Seq<char>>,
    pub filled_size: Option<Seq<char>>,
    pub filled_value: Option<Seq<char>>,
    pub filled_fee: Option<Seq<char>>,
}

impl View for FilledOrder {
    type V = FilledOrderView;

    open spec fn view(&self) -> FilledOrderView {
        FilledOrderView {
            order_id: text_opt(self.order_id),
            filled_size: text_opt(self.filled_size),
            filled_value: text_opt(self.filled_value),
            filled_fee: text_opt(self.filled_fee),
        }
    }
}

impl Decode for FilledOrder {
    open spec fn decoded(j: JsonSpec) -> Result<FilledOrderView, IssueSpec> {
        match optional_field(j, "order_id"@) {
            Err(e) => Err(e),
            Ok(order_id) => match optional_field(j, "filled_size"@) {
                Err(e) => Err(e),
                Ok(filled_size) => match optional_field(j, "filled_value"@) {
                    Err(e) => Err(e),
                    Ok(filled_value) => match optional_field(j, "filled_fee"@) {
                        Err(e) => Err(e),
                        Ok(filled_fee) => Ok(FilledOrderView { order_id, filled_size, filled_value, filled_fee }),
                    },
                },
            },
        }
    }

    fn decode(v: &serde_json::Value) -> (r: Result<Self, DecodeIssue>) {
        let order_id = optional_text(v, "order_id")?;
        let filled_size = optional_text(v, "filled_size")?;
        let filled_value = optional_text(v, "filled_value")?;
        let filled_fee = optional_text(v, "filled_fee")?;
        Ok(FilledOrder { order_id, filled_size, filled_value, filled_fee })
    }
}

/// The items of an array read one by one, in order; the first item that
/// cannot be read decides the error.
pub open spec fn decoded_orders(items: Seq<JsonSpec>) -> Result<Seq<FilledOrderView>, IssueSpec>
    decreases items.len(),
{
    if items.len() == 0 {
        Ok(Seq::empty())
    } else {
        match decoded_orders(items.drop_last()) {
            Err(e) => Err(e),
            Ok(prefix) => match FilledOrder::decoded(items.last()) {
                Err(e) => Err(e),
                Ok(o) => Ok(prefix.push(o)),
            },
        }
    }
}

/// Once a prefix of the items fails, the whole list fails with that error.
proof fn lemma_orders_error_persists(items: Seq<JsonSpec>, n: int)
    requires
        0 <= n <= items.len(),
        decoded_orders(items.subrange(0, n)) is Err,
    ensures
        decoded_orders(items) == decoded_orders(items.subrange(0, n)),
    decreases items.len(),
{
    if n < items.len() {
        assert(items.drop_last().subrange(0, n) =~= items.subrange(0, n));
        lemma_orders_error_persists(items.drop_last(), n);
    } else {
        assert(items.subrange(0, n) =~= items);
    }
}

/// The filled orders of one market. The list is required.
#[derive(Clone, Debug, PartialEq, Eq)]
pub struct FilledOrdersResponse {
    pub orders: Vec<FilledOrder>,
}

impl View for FilledOrdersResponse {
    type V = Seq<FilledOrderView>;

    open spec fn view(&self) -> Seq<FilledOrderView> {
        self.orders@.map_values(|o: FilledOrder| o@)
    }
}

impl Decode for FilledOrdersResponse {
    open spec fn decoded(j: JsonSpec) -> Result<Seq<FilledOrderView>, IssueSpec> {
        match j {
            JsonSpec::Object(m) => if !m.contains_key("orders"@) {
                Err(IssueSpec::MissingField("orders"@))
            } else {
                match m["orders"@] {
                    JsonSpec::Null => Err(IssueSpec::MissingField("orders"@)),
                    JsonSpec::Array(items) => decoded_orders(items),
                    _ => Err(IssueSpec::WrongType("orders"@)),
                }
            },
            _ => Err(IssueSpec::NotObject),
        }
    }

    fn decode(v: &serde_json::Value) -> (r: Result<Self, DecodeIssue>) {
        if !v.is_object() {
            return Err(DecodeIssue::NotObject);
        }
        let field = match member(v, "orders") {
            None => return Err(DecodeIssue::MissingField("orders".to_owned())),
            Some(x) => x,
        };
        if field.is_null() {
            return Err(DecodeIssue::MissingField("orders".to_owned()));
        }
        let items = match field.as_array() {
            None => return Err(DecodeIssue::WrongType("orders".to_owned())),
            Some(a) => a,
        };
        let ghost spec_items = match json_view(*field) {
            JsonSpec::Array(s) => s,
            _ => Seq::empty(),
        };
        let mut orders: Vec<FilledOrder> = Vec::new();
        let mut i: usize = 0;
        assert(spec_items.subrange(0, 0) =~= Seq::<JsonSpec>::empty());
        assert(orders@.map_values(|o: FilledOrder| o@) =~= Seq::<FilledOrderView>::empty());
        while i < items.len()
            invariant
                i <= items@.len(),
                items@.len() == spec_items.len(),
                Self::decoded(json_view(*v)) == decoded_orders(spec_items),
                forall|k: int| 0 <= k < spec_items.len() ==> json_view(#[trigger] items@[k]) == spec_items[k],
                decoded_orders(spec_items.subrange(0, i as int)) == Ok::<_, IssueSpec>(
                    orders@.map_values(|o: FilledOrder| o@),
                ),
            decreases items@.len() - i,
        {
            let ghost prefix = spec_items.subrange(0, i as int);
            let ghost next = spec_items.subrange(0, i + 1);
            assert(next.drop_last() =~= prefix);
            assert(next.last() == spec_items[i as int]);
            let order = match FilledOrder::decode(&items[i]) {
                Ok(o) => o,
                Err(e) => {
                    proof {
                        lemma_orders_error_persists(spec_items, i + 1);
                    }
                    return Err(e);
                },
            };
            let ghost before = orders@;
            orders.push(order);
            assert(orders@.map_values(|o: FilledOrder| o@) =~= before.map_values(|o: FilledOrder| o@).push(order@));
            i = i + 1;
        }
        assert(spec_items.subrange(0, i as int) =~= spec_items);
        Ok(FilledOrdersResponse { orders })
    }
}

/// The account's equity and balance.
#[derive(Clone, Debug, PartialEq, Eq)]
pub struct BalanceResponse {
    pub equity: Option<String>,
    pub balance: Option<String>,
}

pub struct BalanceView {
    pub equity: Option<Seq<char>>,
    pub balance: Option<Seq<char>>,
}

impl View for BalanceResponse {
    type V = BalanceView;

    open spec fn view(&self) -> BalanceView {
        BalanceView { equity: text_opt(self.equity), balance: text_opt(self.balance) }
    }
}

impl Decode for BalanceResponse {
    open spec fn decoded(j: JsonSpec) -> Result<BalanceView, IssueSpec> {
        match optional_field(j, "equity"@) {
            Err(e) => Err(e),
            Ok(equity) => match optional_field(j, "balance"@) {
                Err(e) => Err(e),
                Ok(balance) => Ok(BalanceView { equity, balance }),
            },
        }
    }

    fn decode(v: &serde_json::Value) -> (r: Result<Self, DecodeIssue>) {
        let equity = optional_text(v, "equity")?;
        let balance = optional_text(v, "balance")?;
        Ok(BalanceResponse { equity, balance })
    }
}

/// The result of placing an order.
#[derive(Clone, Debug, PartialEq, Eq)]
pub struct CreateOrderResponse {
    pub order_id: Option<String>,
    pub price: Option<String>,
    pub size: Option<String>,
    pub message: Option<String>,
}

pub struct CreateOrderView {
    pub order_id: Option<Seq<char>>,
    pub price: Option<Seq<char>>,
    pub size: Option<Seq<char>>,
    pub message: Option<Seq<char>>,
}

impl View for CreateOrderResponse {
    type V = CreateOrderView;

    open spec fn view(&self) -> CreateOrderView {
        CreateOrderView {
            order_id: text_opt(self.order_id),
            price: text_opt(self.price),
            size: text_opt(self.size),
            message: text_opt(self.message),
        }
    }
}

impl Decode for CreateOrderResponse {
    open spec fn decoded(j: JsonSpec) -> Result<CreateOrderView, IssueSpec> {
        match optional_field(j, "order_id"@) {
            Err(e) => Err(e),
            Ok(order_id) => match optional_field(j, "price"@) {
                Err(e) => Err(e),
                Ok(price) => match optional_field(j, "size"@) {
                    Err(e) => Err(e),
                    Ok(size) => match optional_field(j, "message"@) {
                        Err(e) => Err(e),
                        Ok(message) => Ok(CreateOrderView { order_id, price, size, message }),
                    },
                },
            },
        }
    }

    fn decode(v: &serde_json::Value) -> (r: Result<Self, DecodeIssue>) {
        let order_id = optional_text(v, "order_id")?;
        let price = optional_text(v, "price")?;
        let size = optional_text(v, "size")?;
        let message = optional_text(v, "message")?;
        Ok(CreateOrderResponse { order_id, price, size, message })
    }
}

/// The acknowledgement of closing all positions: any object.
#[derive(Clone, Debug, PartialEq, Eq)]
pub struct CloseAllPositionsResponse {}

impl View for CloseAllPositionsResponse {
    type V = ();

    open spec fn view(&self) -> () {
        ()
    }
}

impl Decode for CloseAllPositionsResponse {
    open spec fn decoded(j: JsonSpec) -> Result<(), IssueSpec> {
        if j is Object {
            Ok(())
        } else {
            Err(IssueSpec::NotObject)
        }
    }

    fn decode(v: &serde_json::Value) -> (r: Result<Self, DecodeIssue>) {
        if v.is_object() {
            Ok(CloseAllPositionsResponse {})
        } else {
            Err(DecodeIssue::NotObject)
        }
    }
}

} // verus!
