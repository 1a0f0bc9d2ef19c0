use dex_connector::{
    handle_request, handle_response, BalanceResponse, CloseAllPositionsResponse, CreateOrderResponse,
    DecodeIssue, DexClient, DexError, FilledOrder, FilledOrdersResponse, Reply, TickerResponse,
};

fn reply(status: u16, body: &str) -> Reply {
    Reply {
        status,
        headers: vec![("content-type".to_string(), "application/json".to_string())],
        body: body.to_string(),
    }
}

fn client() -> DexClient {
    DexClient::new("key".to_string(), "http://localhost:3000".to_string()).unwrap()
}

#[test]
fn ticker_scenario() {
    let request = client().ticker_request("apex", "BTC-USD");
    assert_eq!(request.url, "http://localhost:3000/ticker?dex=apex&symbol=BTC-USD");
    let r: Result<TickerResponse, DexError> =
        handle_request(Ok(reply(200, r#"{"symbol":"BTC-USD","price":"65000.5"}"#)), &request.url);
    assert_eq!(
        r.unwrap(),
        TickerResponse { symbol: Some("BTC-USD".to_string()), price: Some("65000.5".to_string()) }
    );
}

#[test]
fn create_order_scenario_server_failure() {
    let request = client().create_order_request("apex", "ETH-USD", "1.0", "buy", None);
    assert_eq!(request.body.as_deref(), Some(r#"{"symbol":"ETH-USD","size":"1.0","side":"buy"}"#));
    let r: Result<CreateOrderResponse, DexError> =
        handle_request(Ok(reply(400, r#"{"message":"insufficient margin"}"#)), &request.url);
    match r {
        Err(DexError::ServerResponse { status, url, message }) => {
            assert_eq!(status, 400);
            assert_eq!(url, "http://localhost:3000/create-order?dex=apex");
            assert_eq!(message, Some("insufficient margin".to_string()));
        }
        other => panic!("unexpected {:?}", other),
    }
}

#[test]
fn balance_scenario_optional_field_absent() {
    let request = client().balance_request("apex");
    let r: Result<BalanceResponse, DexError> =
        handle_request(Ok(reply(200, r#"{"equity":"100.0"}"#)), &request.url);
    assert_eq!(r.unwrap(), BalanceResponse { equity: Some("100.0".to_string()), balance: None });
}

#[test]
fn round_trip_of_encoded_values() {
    let mut object = serde_json::Map::new();
    object.insert("equity".to_string(), serde_json::Value::String("2500.75".to_string()));
    object.insert("balance".to_string(), serde_json::Value::String("2400.00".to_string()));
    let body = serde_json::Value::Object(object).to_string();
    let r: Result<BalanceResponse, DexError> = handle_response(reply(200, &body), "u");
    assert_eq!(
        r.unwrap(),
        BalanceResponse { equity: Some("2500.75".to_string()), balance: Some("2400.00".to_string()) }
    );
}

#[test]
fn filled_orders_are_read_in_order() {
    let body = r#"{"orders":[{"order_id":"1","filled_size":"0.1","filled_value":"10","filled_fee":"0.01"},
                   {"order_id":"2","unknown":5}]}"#;
    let r: Result<FilledOrdersResponse, DexError> = handle_response(reply(200, body), "u");
    let orders = r.unwrap().orders;
    assert_eq!(orders.len(), 2);
    assert_eq!(
        orders[0],
        FilledOrder {
            order_id: Some("1".to_string()),
            filled_size: Some("0.1".to_string()),
            filled_value: Some("10".to_string()),
            filled_fee: Some("0.01".to_string()),
        }
    );
    assert_eq!(
        orders[1],
        FilledOrder { order_id: Some("2".to_string()), filled_size: None, filled_value: None, filled_fee: None }
    );
}

#[test]
fn empty_list_of_filled_orders() {
    let r: Result<FilledOrdersResponse, DexError> = handle_response(reply(200, r#"{"orders":[]}"#), "u");
    assert!(r.unwrap().orders.is_empty());
}

#[test]
fn missing_required_field_is_decode_failure() {
    let r: Result<FilledOrdersResponse, DexError> = handle_response(reply(200, "{}"), "u");
    match r {
        Err(DexError::Decode { issue: DecodeIssue::MissingField(k), headers, body }) => {
            assert_eq!(k, "orders");
            assert_eq!(body, "{}");
            assert_eq!(headers.len(), 1);
        }
        other => panic!("unexpected {:?}", other),
    }
    let null: Result<FilledOrdersResponse, DexError> = handle_response(reply(200, r#"{"orders":null}"#), "u");
    assert!(matches!(null, Err(DexError::Decode { issue: DecodeIssue::MissingField(_), .. })));
}

#[test]
fn wrong_kind_of_value_is_decode_failure() {
    let r: Result<TickerResponse, DexError> = handle_response(reply(200, r#"{"price":5}"#), "u");
    match r {
        Err(DexError::Decode { issue: DecodeIssue::WrongType(k), .. }) => assert_eq!(k, "price"),
        other => panic!("unexpected {:?}", other),
    }
    let list: Result<FilledOrdersResponse, DexError> = handle_response(reply(200, r#"{"orders":"x"}"#), "u");
    assert!(matches!(list, Err(DexError::Decode { issue: DecodeIssue::WrongType(_), .. })));
    let item: Result<FilledOrdersResponse, DexError> = handle_response(reply(200, r#"{"orders":[{}, 3]}"#), "u");
    assert!(matches!(item, Err(DexError::Decode { issue: DecodeIssue::NotObject, .. })));
}

#[test]
fn body_that_is_not_json_is_decode_failure() {
    let r: Result<TickerResponse, DexError> = handle_response(reply(200, "<html>"), "u");
    match r {
        Err(DexError::Decode { issue: DecodeIssue::Syntax(_), body, .. }) => assert_eq!(body, "<html>"),
        other => panic!("unexpected {:?}", other),
    }
    let array: Result<TickerResponse, DexError> = handle_response(reply(200, "[]"), "u");
    assert!(matches!(array, Err(DexError::Decode { issue: DecodeIssue::NotObject, .. })));
}

#[test]
fn absent_optional_fields_read_as_none() {
    let r: Result<TickerResponse, DexError> = handle_response(reply(200, r#"{"other":1}"#), "u");
    assert_eq!(r.unwrap(), TickerResponse { symbol: None, price: None });
    let nulls: Result<CreateOrderResponse, DexError> =
        handle_response(reply(200, r#"{"order_id":null}"#), "u");
    assert_eq!(
        nulls.unwrap(),
        CreateOrderResponse { order_id: None, price: None, size: None, message: None }
    );
    let ack: Result<CloseAllPositionsResponse, DexError> = handle_response(reply(200, r#"{"ok":true}"#), "u");
    assert_eq!(ack.unwrap(), CloseAllPositionsResponse {});
}

#[test]
fn failure_status_whatever_the_body() {
    let r: Result<TickerResponse, DexError> = handle_response(reply(500, "not json"), "http://x/ticker");
    match r {
        Err(DexError::ServerResponse { status, url, message }) => {
            assert_eq!(status, 500);
            assert_eq!(url, "http://x/ticker");
            assert_eq!(message, None);
        }
        other => panic!("unexpected {:?}", other),
    }
    let typed: Result<TickerResponse, DexError> =
        handle_response(reply(404, r#"{"symbol":"BTC-USD","price":"1"}"#), "u");
    assert!(matches!(typed, Err(DexError::ServerResponse { status: 404, message: None, .. })));
    let odd: Result<TickerResponse, DexError> = handle_response(reply(502, r#"{"message":7}"#), "u");
    assert!(matches!(odd, Err(DexError::ServerResponse { status: 502, message: None, .. })));
}

#[test]
fn success_range_bounds() {
    let below: Result<CloseAllPositionsResponse, DexError> = handle_response(reply(199, "{}"), "u");
    assert!(matches!(below, Err(DexError::ServerResponse { status: 199, .. })));
    let low: Result<CloseAllPositionsResponse, DexError> = handle_response(reply(200, "{}"), "u");
    assert!(low.is_ok());
    let high: Result<CloseAllPositionsResponse, DexError> = handle_response(reply(299, "{}"), "u");
    assert!(high.is_ok());
    let above: Result<CloseAllPositionsResponse, DexError> = handle_response(reply(300, "{}"), "u");
    assert!(matches!(above, Err(DexError::ServerResponse { status: 300, .. })));
}

#[test]
fn transport_failure_is_passed_on() {
    let r: Result<TickerResponse, DexError> =
        handle_request(Err("connection refused".to_string()), "http://localhost:1/ticker");
    match r {
        Err(DexError::Transport(cause)) => assert_eq!(cause, "connection refused"),
        other => panic!("unexpected {:?}", other),
    }
}
