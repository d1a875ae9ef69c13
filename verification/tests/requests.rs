use bitgo_client::client::BitGoClient;
use bitgo_client::config::Config;
use bitgo_client::payload::JsonField;
use bitgo_client::request::HttpMethod;

fn client(endpoint: &str) -> BitGoClient {
    BitGoClient::new(Config {
        endpoint: endpoint.to_string(),
        token: "token-abc".to_string(),
        bitgo_cert_path: None,
    })
}

#[test]
fn generate_wallet_builds_exact_post() {
    let c = client("https://bitgo.test");
    let r = c.generate_wallet_request("acct-1", "btc", "pw123", "ent-9");
    assert_eq!(r.method, HttpMethod::Post);
    assert_eq!(r.url, "https://bitgo.test/api/v2/btc/wallet/generate");
    assert_eq!(r.token, "token-abc");
    assert_eq!(
        r.payload.fields,
        vec![
            ("label".to_string(), JsonField::Text("acct-1".to_string())),
            ("passphrase".to_string(), JsonField::Text("pw123".to_string())),
            ("enterprise".to_string(), JsonField::Text("ent-9".to_string())),
        ]
    );
}

#[test]
fn create_address_targets_wallet_address_path() {
    let pairs = [("btc", "w-1"), ("eth", "59cd72485007a239fb00282ed480da1f"), ("tltc", "x")];
    for (coin, wallet) in pairs {
        let c = client("https://bitgo.test");
        let r = c.create_address_request(wallet, coin, 2);
        assert_eq!(r.method, HttpMethod::Post);
        assert_eq!(
            r.url,
            format!("https://bitgo.test/api/v2/{}/wallet/{}/address", coin, wallet)
        );
        assert_eq!(
            r.payload.fields,
            vec![("forwarderVersion".to_string(), JsonField::Int(2))]
        );
    }
}

#[test]
fn wallet_list_is_get_and_not_coin_scoped() {
    let c = client("https://bitgo.test");
    let r = c.get_wallet_list_request();
    assert_eq!(r.method, HttpMethod::Get);
    assert_eq!(r.url, "https://bitgo.test/api/v2/wallets/");
    assert!(r.payload.fields.is_empty());
}

#[test]
fn get_transaction_targets_one_transfer() {
    let c = client("https://bitgo.test");
    let r = c.get_transaction_request("w-1", "btc", "t-42");
    assert_eq!(r.method, HttpMethod::Get);
    assert_eq!(r.url, "https://bitgo.test/api/v2/btc/wallet/w-1/transfer/t-42");
    assert!(r.payload.fields.is_empty());
}

#[test]
fn transfer_list_targets_wallet_transfers() {
    let c = client("https://bitgo.test");
    let r = c.transfer_list_request("w-1", "btc");
    assert_eq!(r.method, HttpMethod::Get);
    assert_eq!(r.url, "https://bitgo.test/api/v2/btc/wallet/w-1/transfer");
    assert!(r.payload.fields.is_empty());
}

#[test]
fn get_fee_carries_all_parameters() {
    let c = client("https://bitgo.test");
    let r = c.get_fee_request("btc", &6, "2N9ht3...", "00ab", "10000", true);
    assert_eq!(r.method, HttpMethod::Get);
    assert_eq!(r.url, "https://bitgo.test/api/v2/btc/tx/fee");
    assert_eq!(
        r.payload.fields,
        vec![
            ("numBlocks".to_string(), JsonField::Int(6)),
            ("recipient".to_string(), JsonField::Text("2N9ht3...".to_string())),
            ("data".to_string(), JsonField::Text("00ab".to_string())),
            ("amount".to_string(), JsonField::Text("10000".to_string())),
            ("hop".to_string(), JsonField::Flag(true)),
        ]
    );
}

#[test]
fn change_fee_posts_txid_and_fee() {
    let c = client("https://bitgo.test");
    let r = c.change_fee_request("btc", "w-1", "tx-9", "20000");
    assert_eq!(r.method, HttpMethod::Post);
    assert_eq!(r.url, "https://bitgo.test/api/v2/btc/wallet/w-1/tx/changeFee");
    assert_eq!(
        r.payload.fields,
        vec![
            ("txid".to_string(), JsonField::Text("tx-9".to_string())),
            ("fee".to_string(), JsonField::Text("20000".to_string())),
        ]
    );
}

#[test]
fn add_wallet_webhook_posts_registration() {
    let c = client("https://bitgo.test");
    let r = c.add_wallet_webhook_request(
        "w-1",
        "btc",
        "my-hook",
        "transfer",
        "https://cb.example/hook",
        3,
        true,
        false,
    );
    assert_eq!(r.method, HttpMethod::Post);
    assert_eq!(r.url, "https://bitgo.test/api/v2/btc/wallet/w-1/webhooks");
    assert_eq!(
        r.payload.fields,
        vec![
            ("type".to_string(), JsonField::Text("transfer".to_string())),
            ("label".to_string(), JsonField::Text("my-hook".to_string())),
            ("url".to_string(), JsonField::Text("https://cb.example/hook".to_string())),
            ("numConfirmations".to_string(), JsonField::Int(3)),
            ("allToken".to_string(), JsonField::Flag(true)),
            ("listenToFailureStates".to_string(), JsonField::Flag(false)),
        ]
    );
}

#[test]
fn add_block_webhook_posts_registration() {
    let c = client("https://bitgo.test");
    let r = c.add_block_webhook_request("btc", "block", "blocks", "https://cb.example/b", 1);
    assert_eq!(r.method, HttpMethod::Post);
    assert_eq!(r.url, "https://bitgo.test/api/v2/btc/webhooks");
    assert_eq!(
        r.payload.fields,
        vec![
            ("type".to_string(), JsonField::Text("block".to_string())),
            ("label".to_string(), JsonField::Text("blocks".to_string())),
            ("url".to_string(), JsonField::Text("https://cb.example/b".to_string())),
            ("numConfirmations".to_string(), JsonField::Int(1)),
        ]
    );
}

#[test]
fn list_webhooks_are_gets_with_empty_payload() {
    let c = client("https://bitgo.test");
    let rw = c.list_wallet_webhook_request("w-1", "btc");
    assert_eq!(rw.method, HttpMethod::Get);
    assert_eq!(rw.url, "https://bitgo.test/api/v2/btc/wallet/w-1/webhooks");
    assert!(rw.payload.fields.is_empty());

    let rb = c.list_block_webhook_request("btc");
    assert_eq!(rb.method, HttpMethod::Get);
    assert_eq!(rb.url, "https://bitgo.test/api/v2/btc/webhooks");
    assert!(rb.payload.fields.is_empty());
}

#[test]
fn remove_webhooks_carry_type_url_and_id() {
    let c = client("https://bitgo.test");
    let rw = c.remove_wallet_webhook_request("w-1", "btc", "transfer", "https://cb.example/hook", "wh-7");
    assert_eq!(rw.method, HttpMethod::Delete);
    assert_eq!(rw.url, "https://bitgo.test/api/v2/btc/wallet/w-1/webhooks");
    assert_eq!(
        rw.payload.fields,
        vec![
            ("type".to_string(), JsonField::Text("transfer".to_string())),
            ("url".to_string(), JsonField::Text("https://cb.example/hook".to_string())),
            ("id".to_string(), JsonField::Text("wh-7".to_string())),
        ]
    );

    let rb = c.remove_block_webhook_request("btc", "block", "https://cb.example/b", "wh-8");
    assert_eq!(rb.method, HttpMethod::Delete);
    assert_eq!(rb.url, "https://bitgo.test/api/v2/btc/webhooks");
    assert_eq!(
        rb.payload.fields,
        vec![
            ("type".to_string(), JsonField::Text("block".to_string())),
            ("url".to_string(), JsonField::Text("https://cb.example/b".to_string())),
            ("id".to_string(), JsonField::Text("wh-8".to_string())),
        ]
    );
}

#[test]
fn token_rides_along_on_every_request() {
    let c = BitGoClient::new(Config {
        endpoint: "https://bitgo.test".to_string(),
        token: "v2x-session-token".to_string(),
        bitgo_cert_path: Some("/etc/ssl/bitgo.pem".to_string()),
    });
    assert_eq!(c.get_wallet_list_request().token, "v2x-session-token");
    assert_eq!(c.list_block_webhook_request("eth").token, "v2x-session-token");
}
