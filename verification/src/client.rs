use vstd::prelude::*;
use vstd::string::StringExecFns;
use crate::config::Config;
use crate::payload::{FieldView, Payload};
use crate::request::{
    block_webhook_url, change_fee_url, coin_base_url, create_address_url, fee_url,
    generate_wallet_url, transaction_url, transfer_list_url, wallet_base_url, wallet_list_url,
    wallet_webhook_url, HttpMethod, Request,
};

verus! {

/// The concrete client: one immutable `Config`, no other state. Every
/// operation of the three capability groups is a pure request builder on
/// it; carrying a built `Request` over the wire is the transport's job.
#[derive(Debug, Clone)]
pub struct BitGoClient {
    pub config: Config,
}

impl BitGoClient {
    pub open spec fn wf(&self) -> bool {
        self.config.wf()
    }

    pub fn new(config: Config) -> (r: BitGoClient)
        requires
            config.wf(),
        ensures
            r.config == config,
            r.wf(),
    {
        BitGoClient { config }
    }

    /// `{endpoint}/api/v2/{coin}`.
    fn coin_base(&self, identifier: &str) -> (r: String)
        ensures
            r@ == coin_base_url(self.config.endpoint@, identifier@),
    {
        let mut url = self.config.endpoint.clone();
        url.append("/api/v2/");
        url.append(identifier);
        url
    }

    /// `{endpoint}/api/v2/{coin}/wallet/{wallet_id}`.
    fn wallet_base(&self, identifier: &str, wallet_id: &str) -> (r: String)
        ensures
            r@ == wallet_base_url(self.config.endpoint@, identifier@, wallet_id@),
    {
        let mut url = self.coin_base(identifier);
        url.append("/wallet/");
        url.append(wallet_id);
        url
    }

    /// Asks the service to generate a new wallet: keychains are created and
    /// encrypted with `passphrase` on the service side, and the wallet is
    /// attached to the given enterprise.
    pub fn generate_wallet_request(
        &self,
        name: &str,
        identifier: &str,
        passphrase: &str,
        enterprise_id: &str,
    ) -> (r: Request)
        ensures
            r.method == HttpMethod::Post,
            r.url@ == generate_wallet_url(self.config.endpoint@, identifier@),
            r.token@ == self.config.token@,
            r.payload@ == seq![
                ("label"@, FieldView::Text(name@)),
                ("passphrase"@, FieldView::Text(passphrase@)),
                ("enterprise"@, FieldView::Text(enterprise_id@)),
            ],
    {
        let mut url = self.coin_base(identifier);
        url.append("/wallet/generate");
        let mut payload = Payload::empty();
        payload.push_text("label", name);
        payload.push_text("passphrase", passphrase);
        payload.push_text("enterprise", enterprise_id);
        proof {
            assert(payload@ =~= seq![
                ("label"@, FieldView::Text(name@)),
                ("passphrase"@, FieldView::Text(passphrase@)),
                ("enterprise"@, FieldView::Text(enterprise_id@)),
            ]);
        }
        Request { method: HttpMethod::Post, url, token: self.config.token.clone(), payload }
    }

    /// Asks the service for a fresh receive address on an existing wallet.
    pub fn create_address_request(
        &self,
        wallet_id: &str,
        identifier: &str,
        forwarder_version: i32,
    ) -> (r: Request)
        ensures
            r.method == HttpMethod::Post,
            r.url@ == create_address_url(self.config.endpoint@, identifier@, wallet_id@),
            r.token@ == self.config.token@,
            r.payload@ == seq![("forwarderVersion"@, FieldView::Int(forwarder_version as int))],
    {
        let mut url = self.wallet_base(identifier, wallet_id);
        url.append("/address");
        let mut payload = Payload::empty();
        payload.push_int("forwarderVersion", forwarder_version as i64);
        proof {
            assert(payload@ =~= seq![
                ("forwarderVersion"@, FieldView::Int(forwarder_version as int)),
            ]);
        }
        Request { method: HttpMethod::Post, url, token: self.config.token.clone(), payload }
    }

    /// Lists every wallet visible to the credential. The path is not
    /// parameterized by a coin identifier.
    pub fn get_wallet_list_request(&self) -> (r: Request)
        ensures
            r.method == HttpMethod::Get,
            r.url@ == wallet_list_url(self.config.endpoint@),
            r.token@ == self.config.token@,
            r.payload@ == Seq::<(Seq<char>, FieldView)>::empty(),
    {
        let mut url = self.config.endpoint.clone();
        url.append("/api/v2/wallets/");
        Request { method: HttpMethod::Get, url, token: self.config.token.clone(), payload: Payload::empty() }
    }

    /// Fetches one transfer of a wallet by its id.
    pub fn get_transaction_request(
        &self,
        wallet_id: &str,
        identifier: &str,
        transfer_id: &str,
    ) -> (r: Request)
        ensures
            r.method == HttpMethod::Get,
            r.url@ == transaction_url(self.config.endpoint@, identifier@, wallet_id@, transfer_id@),
            r.token@ == self.config.token@,
            r.payload@ == Seq::<(Seq<char>, FieldView)>::empty(),
    {
        let mut url = self.wallet_base(identifier, wallet_id);
        url.append("/transfer/");
        url.append(transfer_id);
        Request { method: HttpMethod::Get, url, token: self.config.token.clone(), payload: Payload::empty() }
    }

    /// Lists the transfers of one wallet.
    pub fn transfer_list_request(&self, wallet_id: &str, identifier: &str) -> (r: Request)
        ensures
            r.method == HttpMethod::Get,
            r.url@ == transfer_list_url(self.config.endpoint@, identifier@, wallet_id@),
            r.token@ == self.config.token@,
            r.payload@ == Seq::<(Seq<char>, FieldView)>::empty(),
    {
        let mut url = self.wallet_base(identifier, wallet_id);
        url.append("/transfer");
        Request { method: HttpMethod::Get, url, token: self.config.token.clone(), payload: Payload::empty() }
    }

    /// Asks for a fee estimate for a prospective send: the target
    /// confirmation horizon, recipient, arbitrary transaction data, amount,
    /// and whether hop-transaction semantics apply.
    pub fn get_fee_request(
        &self,
        identifier: &str,
        num_blocks: &i32,
        recipient: &str,
        data: &str,
        amount: &str,
        hop: bool,
    ) -> (r: Request)
        ensures
            r.method == HttpMethod::Get,
            r.url@ == fee_url(self.config.endpoint@, identifier@),
            r.token@ == self.config.token@,
            r.payload@ == seq![
                ("numBlocks"@, FieldView::Int(*num_blocks as int)),
                ("recipient"@, FieldView::Text(recipient@)),
                ("data"@, FieldView::Text(data@)),
                ("amount"@, FieldView::Text(amount@)),
                ("hop"@, FieldView::Flag(hop)),
            ],
    {
        let mut url = self.coin_base(identifier);
        url.append("/tx/fee");
        let mut payload = Payload::empty();
        payload.push_int("numBlocks", *num_blocks as i64);
        payload.push_text("recipient", recipient);
        payload.push_text("data", data);
        payload.push_text("amount", amount);
        payload.push_flag("hop", hop);
        proof {
            assert(payload@ =~= seq![
                ("numBlocks"@, FieldView::Int(*num_blocks as int)),
                ("recipient"@, FieldView::Text(recipient@)),
                ("data"@, FieldView::Text(data@)),
                ("amount"@, FieldView::Text(amount@)),
                ("hop"@, FieldView::Flag(hop)),
            ]);
        }
        Request { method: HttpMethod::Get, url, token: self.config.token.clone(), payload }
    }

    /// Requests a fee bump on a pending transaction of a wallet.
    pub fn change_fee_request(
        &self,
        identifier: &str,
        wallet_id: &str,
        tx_id: &str,
        fee: &str,
    ) -> (r: Request)
        ensures
            r.method == HttpMethod::Post,
            r.url@ == change_fee_url(self.config.endpoint@, identifier@, wallet_id@),
            r.token@ == self.config.token@,
            r.payload@ == seq![
                ("txid"@, FieldView::Text(tx_id@)),
                ("fee"@, FieldView::Text(fee@)),
            ],
    {
        let mut url = self.wallet_base(identifier, wallet_id);
        url.append("/tx/changeFee");
        let mut payload = Payload::empty();
        payload.push_text("txid", tx_id);
        payload.push_text("fee", fee);
        proof {
            assert(payload@ =~= seq![
                ("txid"@, FieldView::Text(tx_id@)),
                ("fee"@, FieldView::Text(fee@)),
            ]);
        }
        Request { method: HttpMethod::Post, url, token: self.config.token.clone(), payload }
    }

    /// Registers a callback for events on one wallet.
    pub fn add_wallet_webhook_request(
        &self,
        wallet_id: &str,
        identifier: &str,
        webhook_label: &str,
        webhook_type: &str,
        webhook_url: &str,
        num_confirmation: i32,
        all_token: bool,
        listen_failure_states: bool,
    ) -> (r: Request)
        ensures
            r.method == HttpMethod::Post,
            r.url@ == wallet_webhook_url(self.config.endpoint@, identifier@, wallet_id@),
            r.token@ == self.config.token@,
            r.payload@ == seq![
                ("type"@, FieldView::Text(webhook_type@)),
                ("label"@, FieldView::Text(webhook_label@)),
                ("url"@, FieldView::Text(webhook_url@)),
                ("numConfirmations"@, FieldView::Int(num_confirmation as int)),
                ("allToken"@, FieldView::Flag(all_token)),
                ("listenToFailureStates"@, FieldView::Flag(listen_failure_states)),
            ],
    {
        let mut url = self.wallet_base(identifier, wallet_id);
        url.append("/webhooks");
        let mut payload = Payload::empty();
        payload.push_text("type", webhook_type);
        payload.push_text("label", webhook_label);
        payload.push_text("url", webhook_url);
        payload.push_int("numConfirmations", num_confirmation as i64);
        payload.push_flag("allToken", all_token);
        payload.push_flag("listenToFailureStates", listen_failure_states);
        proof {
            assert(payload@ =~= seq![
                ("type"@, FieldView::Text(webhook_type@)),
                ("label"@, FieldView::Text(webhook_label@)),
                ("url"@, FieldView::Text(webhook_url@)),
                ("numConfirmations"@, FieldView::Int(num_confirmation as int)),
                ("allToken"@, FieldView::Flag(all_token)),
                ("listenToFailureStates"@, FieldView::Flag(listen_failure_states)),
            ]);
        }
        Request { method: HttpMethod::Post, url, token: self.config.token.clone(), payload }
    }

    /// Registers a callback for new-block events on a coin.
    pub fn add_block_webhook_request(
        &self,
        identifier: &str,
        webhook_type: &str,
        webhook_label: &str,
        webhook_url: &str,
        num_confirmation: i32,
    ) -> (r: Request)
        ensures
            r.method == HttpMethod::Post,
            r.url@ == block_webhook_url(self.config.endpoint@, identifier@),
            r.token@ == self.config.token@,
            r.payload@ == seq![
                ("type"@, FieldView::Text(webhook_type@)),
                ("label"@, FieldView::Text(webhook_label@)),
                ("url"@, FieldView::Text(webhook_url@)),
                ("numConfirmations"@, FieldView::Int(num_confirmation as int)),
            ],
    {
        let mut url = self.coin_base(identifier);
        url.append("/webhooks");
        let mut payload = Payload::empty();
        payload.push_text("type", webhook_type);
        payload.push_text("label", webhook_label);
        payload.push_text("url", webhook_url);
        payload.push_int("numConfirmations", num_confirmation as i64);
        proof {
            assert(payload@ =~= seq![
                ("type"@, FieldView::Text(webhook_type@)),
                ("label"@, FieldView::Text(webhook_label@)),
                ("url"@, FieldView::Text(webhook_url@)),
                ("numConfirmations"@, FieldView::Int(num_confirmation as int)),
            ]);
        }
        Request { method: HttpMethod::Post, url, token: self.config.token.clone(), payload }
    }

    /// Enumerates the webhooks registered on one wallet.
    pub fn list_wallet_webhook_request(&self, wallet_id: &str, identifier: &str) -> (r: Request)
        ensures
            r.method == HttpMethod::Get,
            r.url@ == wallet_webhook_url(self.config.endpoint@, identifier@, wallet_id@),
            r.token@ == self.config.token@,
            r.payload@ == Seq::<(Seq<char>, FieldView)>::empty(),
    {
        let mut url = self.wallet_base(identifier, wallet_id);
        url.append("/webhooks");
        Request { method: HttpMethod::Get, url, token: self.config.token.clone(), payload: Payload::empty() }
    }

    /// Enumerates the block webhooks registered on a coin.
    pub fn list_block_webhook_request(&self, identifier: &str) -> (r: Request)
        ensures
            r.method == HttpMethod::Get,
            r.url@ == block_webhook_url(self.config.endpoint@, identifier@),
            r.token@ == self.config.token@,
            r.payload@ == Seq::<(Seq<char>, FieldView)>::empty(),
    {
        let mut url = self.coin_base(identifier);
        url.append("/webhooks");
        Request { method: HttpMethod::Get, url, token: self.config.token.clone(), payload: Payload::empty() }
    }

    /// Deregisters a wallet webhook, by id and redundantly by type and url,
    /// as the remote API asks.
    pub fn remove_wallet_webhook_request(
        &self,
        wallet_id: &str,
        identifier: &str,
        webhook_type: &str,
        webhook_url: &str,
        webhook_id: &str,
    ) -> (r: Request)
        ensures
            r.method == HttpMethod::Delete,
            r.url@ == wallet_webhook_url(self.config.endpoint@, identifier@, wallet_id@),
            r.token@ == self.config.token@,
            r.payload@ == seq![
                ("type"@, FieldView::Text(webhook_type@)),
                ("url"@, FieldView::Text(webhook_url@)),
                ("id"@, FieldView::Text(webhook_id@)),
            ],
    {
        let mut url = self.wallet_base(identifier, wallet_id);
        url.append("/webhooks");
        let mut payload = Payload::empty();
        payload.push_text("type", webhook_type);
        payload.push_text("url", webhook_url);
        payload.push_text("id", webhook_id);
        proof {
            assert(payload@ =~= seq![
                ("type"@, FieldView::Text(webhook_type@)),
                ("url"@, FieldView::Text(webhook_url@)),
                ("id"@, FieldView::Text(webhook_id@)),
            ]);
        }
        Request { method: HttpMethod::Delete, url, token: self.config.token.clone(), payload }
    }

    /// Deregisters a block webhook, by id and redundantly by type and url.
    pub fn remove_block_webhook_request(
        &self,
        identifier: &str,
        webhook_type: &str,
        webhook_url: &str,
        webhook_id: &str,
    ) -> (r: Request)
        ensures
            r.method == HttpMethod::Delete,
            r.url@ == block_webhook_url(self.config.endpoint@, identifier@),
            r.token@ == self.config.token@,
            r.payload@ == seq![
                ("type"@, FieldView::Text(webhook_type@)),
                ("url"@, FieldView::Text(webhook_url@)),
                ("id"@, FieldView::Text(webhook_id@)),
            ],
    {
        let mut url = self.coin_base(identifier);
        url.append("/webhooks");
        let mut payload = Payload::empty();
        payload.push_text("type", webhook_type);
        payload.push_text("url", webhook_url);
        payload.push_text("id", webhook_id);
        proof {
            assert(payload@ =~= seq![
                ("type"@, FieldView::Text(webhook_type@)),
                ("url"@, FieldView::Text(webhook_url@)),
                ("id"@, FieldView::Text(webhook_id@)),
            ]);
        }
        Request { method: HttpMethod::Delete, url, token: self.config.token.clone(), payload }
    }
}

} // verus!
