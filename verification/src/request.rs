use vstd::prelude::*;
use crate::payload::Payload;

verus! {

/// The HTTP method an operation uses.
#[derive(Debug, Clone, Copy, PartialEq, Eq, Structural)]
pub enum HttpMethod {
    Get,
    Post,
    Delete,
}

/// One fully assembled, authenticated request against the remote service:
/// the method, the absolute URL, the bearer token to attach as the
/// authorization header, and the JSON object payload. Building one performs
/// no network activity; a transport layer carries it out.
#[derive(Debug, Clone)]
pub struct Request {
    pub method: HttpMethod,
    pub url: String,
    pub token: String,
    pub payload: Payload,
}

/// The root shared by every coin-scoped path: `{endpoint}/api/v2/{coin}`.
pub open spec fn coin_base_url(endpoint: Seq<char>, coin: Seq<char>) -> Seq<char> {
    endpoint + "/api/v2/"@ + coin
}

/// `{endpoint}/api/v2/{coin}/wallet/{wallet}`, the root of the
/// wallet-scoped operations.
pub open spec fn wallet_base_url(endpoint: Seq<char>, coin: Seq<char>, wallet: Seq<char>) -> Seq<char> {
    coin_base_url(endpoint, coin) + "/wallet/"@ + wallet
}

pub open spec fn generate_wallet_url(endpoint: Seq<char>, coin: Seq<char>) -> Seq<char> {
    coin_base_url(endpoint, coin) + "/wallet/generate"@
}

pub open spec fn create_address_url(endpoint: Seq<char>, coin: Seq<char>, wallet: Seq<char>) -> Seq<char> {
    wallet_base_url(endpoint, coin, wallet) + "/address"@
}

pub open spec fn wallet_list_url(endpoint: Seq<char>) -> Seq<char> {
    endpoint + "/api/v2/wallets/"@
}

pub open spec fn transaction_url(
    endpoint: Seq<char>,
    coin: Seq<char>,
    wallet: Seq<char>,
    transfer: Seq<char>,
) -> Seq<char> {
    wallet_base_url(endpoint, coin, wallet) + "/transfer/"@ + transfer
}

pub open spec fn transfer_list_url(endpoint: Seq<char>, coin: Seq<char>, wallet: Seq<char>) -> Seq<char> {
    wallet_base_url(endpoint, coin, wallet) + "/transfer"@
}

pub open spec fn fee_url(endpoint: Seq<char>, coin: Seq<char>) -> Seq<char> {
    coin_base_url(endpoint, coin) + "/tx/fee"@
}

pub open spec fn change_fee_url(endpoint: Seq<char>, coin: Seq<char>, wallet: Seq<char>) -> Seq<char> {
    wallet_base_url(endpoint, coin, wallet) + "/tx/changeFee"@
}

pub open spec fn wallet_webhook_url(endpoint: Seq<char>, coin: Seq<char>, wallet: Seq<char>) -> Seq<char> {
    wallet_base_url(endpoint, coin, wallet) + "/webhooks"@
}

pub open spec fn block_webhook_url(endpoint: Seq<char>, coin: Seq<char>) -> Seq<char> {
    coin_base_url(endpoint, coin) + "/webhooks"@
}

} // verus!
