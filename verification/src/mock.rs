use vstd::prelude::*;
use vstd::pervasive::unreached;
use crate::response::{same_error, BitGoError, clone_value};

verus! {

/// One canned outcome of an operation, as a test configures it.
pub type StubResult = Result<serde_json::Value, BitGoError>;

/// Two outcomes carry the same information: the same decoded body, or
/// errors that `same_error` cannot tell apart.
pub open spec fn same_result(a: StubResult, b: StubResult) -> bool {
    match (a, b) {
        (Ok(va), Ok(vb)) => va == vb,
        (Err(ea), Err(eb)) => same_error(ea, eb),
        _ => false,
    }
}

/// Hands out a configured outcome without consuming it.
fn stub_response(stub: &Option<StubResult>) -> (r: StubResult)
    requires
        stub is Some,
    ensures
        same_result(r, stub.unwrap()),
{
    match stub {
        Some(Ok(v)) => Ok(clone_value(v)),
        Some(Err(e)) => Err(e.clone()),
        None => unreached(),
    }
}

/// A test double for the three capability groups. Each operation is
/// independently stubbable: a test stores the outcome it wants under the
/// operation's slot, and the double returns that outcome for any arguments,
/// touching no network. An operation whose slot was never configured may
/// not be called.
pub struct MockBitGoClient {
    pub generate_wallet_result: Option<StubResult>,
    pub create_address_result: Option<StubResult>,
    pub get_wallet_list_result: Option<StubResult>,
    pub get_transaction_result: Option<StubResult>,
    pub transfer_list_result: Option<StubResult>,
    pub get_fee_result: Option<StubResult>,
    pub change_fee_result: Option<StubResult>,
    pub add_wallet_webhook_result: Option<StubResult>,
    pub add_block_webhook_result: Option<StubResult>,
    pub list_wallet_webhook_result: Option<StubResult>,
    pub list_block_webhook_result: Option<StubResult>,
    pub remove_wallet_webhook_result: Option<StubResult>,
    pub remove_block_webhook_result: Option<StubResult>,
}

impl MockBitGoClient {
    /// A double with nothing configured yet.
    pub fn new() -> (r: MockBitGoClient)
        ensures
            r.generate_wallet_result is None,
            r.create_address_result is None,
            r.get_wallet_list_result is None,
            r.get_transaction_result is None,
            r.transfer_list_result is None,
            r.get_fee_result is None,
            r.change_fee_result is None,
            r.add_wallet_webhook_result is None,
            r.add_block_webhook_result is None,
            r.list_wallet_webhook_result is None,
            r.list_block_webhook_result is None,
            r.remove_wallet_webhook_result is None,
            r.remove_block_webhook_result is None,
    {
        MockBitGoClient {
            generate_wallet_result: None,
            create_address_result: None,
            get_wallet_list_result: None,
            get_transaction_result: None,
            transfer_list_result: None,
            get_fee_result: None,
            change_fee_result: None,
            add_wallet_webhook_result: None,
            add_block_webhook_result: None,
            list_wallet_webhook_result: None,
            list_block_webhook_result: None,
            remove_wallet_webhook_result: None,
            remove_block_webhook_result: None,
        }
    }

    pub fn generate_wallet(
        &self,
        _name: &str,
        _identifier: &str,
        _passphrase: &str,
        _enterprise_id: &str,
    ) -> (r: StubResult)
        requires
            self.generate_wallet_result is Some,
        ensures
            same_result(r, self.generate_wallet_result.unwrap()),
    {
        stub_response(&self.generate_wallet_result)
    }

    pub fn create_address(
        &self,
        _wallet_id: &str,
        _identifier: &str,
        _forwarder_version: i32,
    ) -> (r: StubResult)
        requires
            self.create_address_result is Some,
        ensures
            same_result(r, self.create_address_result.unwrap()),
    {
        stub_response(&self.create_address_result)
    }

    pub fn get_wallet_list(&self) -> (r: StubResult)
        requires
            self.get_wallet_list_result is Some,
        ensures
            same_result(r, self.get_wallet_list_result.unwrap()),
    {
        stub_response(&self.get_wallet_list_result)
    }

    pub fn get_transaction(
        &self,
        _wallet_id: &str,
        _identifier: &str,
        _transfer_id: &str,
    ) -> (r: StubResult)
        requires
            self.get_transaction_result is Some,
        ensures
            same_result(r, self.get_transaction_result.unwrap()),
    {
        stub_response(&self.get_transaction_result)
    }

    pub fn transfer_list(&self, _wallet_id: &str, _identifier: &str) -> (r: StubResult)
        requires
            self.transfer_list_result is Some,
        ensures
            same_result(r, self.transfer_list_result.unwrap()),
    {
        stub_response(&self.transfer_list_result)
    }

    pub fn get_fee(
        &self,
        _identifier: &str,
        _num_blocks: &i32,
        _recipient: &str,
        _data: &str,
        _amount: &str,
        _hop: bool,
    ) -> (r: StubResult)
        requires
            self.get_fee_result is Some,
        ensures
            same_result(r, self.get_fee_result.unwrap()),
    {
        stub_response(&self.get_fee_result)
    }

    pub fn change_fee(
        &self,
        _identifier: &str,
        _wallet_id: &str,
        _tx_id: &str,
        _fee: &str,
    ) -> (r: StubResult)
        requires
            self.change_fee_result is Some,
        ensures
            same_result(r, self.change_fee_result.unwrap()),
    {
        stub_response(&self.change_fee_result)
    }

    pub fn add_wallet_webhook(
        &self,
        _wallet_id: &str,
        _identifier: &str,
        _webhook_label: &str,
        _webhook_type: &str,
        _webhook_url: &str,
        _num_confirmation: i32,
        _all_token: bool,
        _listen_failure_states: bool,
    ) -> (r: StubResult)
        requires
            self.add_wallet_webhook_result is Some,
        ensures
            same_result(r, self.add_wallet_webhook_result.unwrap()),
    {
        stub_response(&self.add_wallet_webhook_result)
    }

    pub fn add_block_webhook(
        &self,
        _identifier: &str,
        _webhook_type: &str,
        _webhook_label: &str,
        _webhook_url: &str,
        _num_confirmation: i32,
    ) -> (r: StubResult)
        requires
            self.add_block_webhook_result is Some,
        ensures
            same_result(r, self.add_block_webhook_result.unwrap()),
    {
        stub_response(&self.add_block_webhook_result)
    }

    pub fn list_wallet_webhook(&self, _wallet_id: &str, _identifier: &str) -> (r: StubResult)
        requires
            self.list_wallet_webhook_result is Some,
        ensures
            same_result(r, self.list_wallet_webhook_result.unwrap()),
    {
        stub_response(&self.list_wallet_webhook_result)
    }

    pub fn list_block_webhook(&self, _identifier: &str) -> (r: StubResult)
        requires
            self.list_block_webhook_result is Some,
        ensures
            same_result(r, self.list_block_webhook_result.unwrap()),
    {
        stub_response(&self.list_block_webhook_result)
    }

    pub fn remove_wallet_webhook(
        &self,
        _wallet_id: &str,
        _identifier: &str,
        _webhook_type: &str,
        _webhook_url: &str,
        _webhook_id: &str,
    ) -> (r: StubResult)
        requires
            self.remove_wallet_webhook_result is Some,
        ensures
            same_result(r, self.remove_wallet_webhook_result.unwrap()),
    {
        stub_response(&self.remove_wallet_webhook_result)
    }

    pub fn remove_block_webhook(
        &self,
        _identifier: &str,
        _webhook_type: &str,
        _webhook_url: &str,
        _webhook_id: &str,
    ) -> (r: StubResult)
        requires
            self.remove_block_webhook_result is Some,
        ensures
            same_result(r, self.remove_block_webhook_result.unwrap()),
    {
        stub_response(&self.remove_block_webhook_result)
    }
}

} // verus!
