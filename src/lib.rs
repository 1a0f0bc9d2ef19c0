//! A typed client library for a DEX aggregation API: credential derivation,
//! request construction and the classification of each response.

pub mod auth;
pub mod client;
pub mod dispatch;
pub mod error;
pub mod json;
pub mod laws;
pub mod model;

pub use auth::{derive_credential, derive_hashed, to_lower_hex, AuthMode};
pub use client::{
    close_all_positions_body, create_order_body, endpoint_url, percent_encode, query_string, DexClient, Method,
    Request,
};
pub use dispatch::{handle_request, handle_response, Reply};
pub use error::{DecodeIssue, DexError};
pub use model::{
    BalanceResponse, CloseAllPositionsResponse, CommonErrorResponse, CreateOrderResponse, Decode, FilledOrder,
    FilledOrdersResponse, TickerResponse,
};
