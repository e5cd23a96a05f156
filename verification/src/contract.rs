//! The handlers of the contract. Each one's contract says, through the rules
//! of `rules.rs`, exactly what it does to the state and what it answers.
use vstd::prelude::*;
use crate::error::{custom_error, ContractError, ContractErrorView, StdError, StdErrorView};
use crate::external::{
    decimal_text, encode_cw20_transfer, encode_cw721_transfer, must_pay, payment_outcome,
};
use crate::keys::fits_key;
use crate::market::Marketplace;
use crate::msg::{
    Cw20HookMsg, Cw20ReceiveMsg, Cw721HookMsg, Cw721ReceiveMsg, ExecuteMsg, InstantiateMsg, QueryMsg,
};
use crate::response::{attribute, coins_view, empty_response, Coin, CosmosMsg, MessageInfo, Response};
use crate::rules::{
    agrees, answer, cw20_mismatch_text, native_mismatch_text, encoded, execute_admissible, execute_outcome, paid,
    pay_for_view_native_outcome, pay_for_view_outcome, pay_for_view_settled,
    purchase_native_outcome, purchase_native_settled, purchase_outcome, purchase_settled,
    receive_cw20_outcome, receive_cw721_outcome, remove_listing_outcome, remove_listing_settled,
    remove_video_outcome, set_listing_outcome, std_result_view, upload_video_outcome, wasm_execute,
};
use crate::state::Config;
use vstd::string::StringExecFns;
use crate::version::{
    parse_version, semver_accepts, semver_newer, semver_same, version_newer, version_same,
};

verus! {

/// A new marketplace for `msg.native_denom`: no deposits, asks, videos or
/// viewing rights, and the first video will get id 0.
pub fn instantiate(msg: InstantiateMsg) -> (r: (Marketplace, Response))
    ensures
        r.0.wf(),
        r.0@.native_denom == msg.native_denom@,
        r.0@.video_count == 0,
        r.0@.deposits.is_empty(),
        r.0@.asks.is_empty(),
        r.0@.videos.is_empty(),
        r.0@.access.is_empty(),
        r.1@ == answer(seq![], seq![]),
{
    let m = Marketplace::restore(Config { native_denom: msg.native_denom }, 0);
    (m, empty_response())
}

/// The message for a payment in the native coin of the wrong amount.
pub fn native_payment_mismatch(price: u128, denom: &str, sent: u128) -> (r: String)
    ensures
        r@ == native_mismatch_text(price, denom@, sent),
{
    let mut text = String::new();
    text.append("Expected payment of ");
    text.append(decimal_text(price).as_str());
    text.append(" ");
    text.append(denom);
    text.append(", but got ");
    text.append(decimal_text(sent).as_str());
    text.append(" ");
    text.append(denom);
    assert(text@ =~= native_mismatch_text(price, denom@, sent));
    text
}

/// The message for a payment in CW20 tokens of the wrong amount.
pub fn cw20_payment_mismatch(price: u128, sent: u128) -> (r: String)
    ensures
        r@ == cw20_mismatch_text(price, sent),
{
    let mut text = String::new();
    text.append("Expected payment of ");
    text.append(decimal_text(price).as_str());
    text.append(", but got ");
    text.append(decimal_text(sent).as_str());
    assert(text@ =~= cw20_mismatch_text(price, sent));
    text
}

impl Marketplace {
    /// A CW721 contract (the caller) deposits a token of `owner` and lists it
    /// at `amount`, payable in `cw20_contract`'s token where one is named.
    pub fn execute_set_listing(
        &mut self,
        info: &MessageInfo,
        owner: String,
        token_id: String,
        cw20_contract: Option<String>,
        amount: u128,
    ) -> (r: Result<Response, ContractError>)
        requires
            old(self).wf(),
            fits_key(info.sender@),
            fits_key(owner@),
        ensures
            final(self).wf(),
            agrees(
                r,
                *old(self),
                *final(self),
                set_listing_outcome(
                    old(self)@,
                    info.sender@,
                    owner@,
                    token_id@,
                    cw20_contract.deep_view(),
                    amount,
                ),
            ),
    {
        let collection = &info.sender;
        if self.has_deposit(collection, &owner, &token_id) {
            return Err(custom_error("Already deposited"));
        }
        let ghost cw20 = cw20_contract.deep_view();
        self.put_listing(collection, &owner, &token_id, cw20_contract, amount);
        let attributes = vec![
            attribute("execute", "cw721_deposit".to_owned()),
            attribute("owner", owner),
            attribute("contract", collection.clone()),
            attribute("token_id", token_id),
        ];
        let r = Response { messages: Vec::new(), attributes };
        assert(r@.messages =~= seq![]);
        assert(r@.attributes =~= set_listing_outcome(
            old(self)@,
            info.sender@,
            owner@,
            token_id@,
            cw20,
            amount,
        )->response.attributes);
        Ok(r)
    }

    /// The caller withdraws the token it deposited; its ask goes too.
    pub fn execute_remove_listing(
        &mut self,
        info: &MessageInfo,
        collection: String,
        token_id: String,
    ) -> (r: Result<Response, ContractError>)
        requires
            old(self).wf(),
            fits_key(collection@),
            fits_key(info.sender@),
        ensures
            final(self).wf(),
            agrees(
                r,
                *old(self),
                *final(self),
                remove_listing_outcome(old(self)@, info.sender@, collection@, token_id@),
            ),
    {
        if !self.has_deposit(&collection, &info.sender, &token_id) {
            return Err(ContractError::NoCw721ToWithdraw);
        }
        let transfer = encode_cw721_transfer(info.sender.as_str(), token_id.as_str());
        self.settle_remove_listing(info, collection, token_id, transfer)
    }

    /// The withdrawal of a deposited token, given `transfer`, the encoded
    /// CW721 message that returns the token to the caller.
    pub fn settle_remove_listing(
        &mut self,
        info: &MessageInfo,
        collection: String,
        token_id: String,
        transfer: Result<Vec<u8>, StdError>,
    ) -> (r: Result<Response, ContractError>)
        requires
            old(self).wf(),
            fits_key(collection@),
            fits_key(info.sender@),
        ensures
            final(self).wf(),
            agrees(
                r,
                *old(self),
                *final(self),
                remove_listing_settled(
                    old(self)@,
                    info.sender@,
                    collection@,
                    token_id@,
                    encoded(transfer),
                ),
            ),
            transfer matches Err(e) ==> r == Err::<Response, ContractError>(ContractError::Std(e)),
    {
        let msg = match transfer {
            Ok(b) => b,
            Err(e) => return Err(ContractError::Std(e)),
        };
        self.drop_listing(&collection, &info.sender, &token_id);
        let ghost c = collection@;
        let messages = vec![CosmosMsg::WasmExecute { contract_addr: collection, msg }];
        let attributes = vec![attribute("execute", "withdraw".to_owned())];
        let r = Response { messages, attributes };
        assert(r@.messages =~= seq![wasm_execute(c, msg@)]);
        assert(r@.attributes =~= seq![("execute"@, "withdraw"@)]);
        Ok(r)
    }

    /// A CW20 contract (the caller) reports that `receipt.sender` paid
    /// `receipt.amount` of its token for a listed token: the buyer gets the
    /// token, the seller the payment, and the listing ends.
    pub fn execute_purchase(
        &mut self,
        info: &MessageInfo,
        cw721_contract: String,
        token_id: String,
        receipt: Cw20ReceiveMsg,
    ) -> (r: Result<Response, ContractError>)
        requires
            old(self).wf(),
            fits_key(cw721_contract@),
            old(self)@.asks.contains_key((cw721_contract@, token_id@)) && old(self)@.asks[(
                cw721_contract@,
                token_id@,
            )].price == receipt.amount ==> fits_key(
                old(self)@.asks[(cw721_contract@, token_id@)].seller,
            ),
        ensures
            final(self).wf(),
            agrees(
                r,
                *old(self),
                *final(self),
                purchase_outcome(
                    old(self)@,
                    info.sender@,
                    cw721_contract@,
                    token_id@,
                    receipt.sender@,
                    receipt.amount,
                ),
            ),
    {
        let ask = match self.ask(&cw721_contract, &token_id) {
            Some(a) => a,
            None => return Err(custom_error("No such ask")),
        };
        if receipt.amount != ask.price {
            return Err(custom_error("Invalid amount"));
        }
        let nft = encode_cw721_transfer(receipt.sender.as_str(), token_id.as_str());
        let payment = encode_cw20_transfer(ask.seller.as_str(), ask.price);
        self.settle_purchase(info, cw721_contract, token_id, nft, payment)
    }

    /// A CW20 payment (reported by the caller) for a listed token at its
    /// price, given `nft`, the encoded CW721 message that hands the token to
    /// the buyer, and `payment`, the encoded CW20 message that pays the seller.
    pub fn settle_purchase(
        &mut self,
        info: &MessageInfo,
        cw721_contract: String,
        token_id: String,
        nft: Result<Vec<u8>, StdError>,
        payment: Result<Vec<u8>, StdError>,
    ) -> (r: Result<Response, ContractError>)
        requires
            old(self).wf(),
            fits_key(cw721_contract@),
            old(self)@.asks.contains_key((cw721_contract@, token_id@)),
            fits_key(old(self)@.asks[(cw721_contract@, token_id@)].seller),
        ensures
            final(self).wf(),
            agrees(
                r,
                *old(self),
                *final(self),
                purchase_settled(
                    old(self)@,
                    info.sender@,
                    cw721_contract@,
                    token_id@,
                    encoded(nft),
                    encoded(payment),
                ),
            ),
            nft matches Err(e) ==> r == Err::<Response, ContractError>(ContractError::Std(e)),
            payment matches Err(e) ==> (nft is Ok ==> r == Err::<Response, ContractError>(
                ContractError::Std(e),
            )),
    {
        let nft_msg = match nft {
            Ok(b) => b,
            Err(e) => return Err(ContractError::Std(e)),
        };
        let pay_msg = match payment {
            Ok(b) => b,
            Err(e) => return Err(ContractError::Std(e)),
        };
        let seller = match self.ask(&cw721_contract, &token_id) {
            Some(a) => a.seller,
            None => {
                proof {
                    assert(false);
                }
                return Err(custom_error("No such ask"));
            },
        };
        self.drop_listing(&cw721_contract, &seller, &token_id);
        let ghost (c, nv, pv) = (cw721_contract@, nft_msg@, pay_msg@);
        let messages = vec![
            CosmosMsg::WasmExecute { contract_addr: cw721_contract, msg: nft_msg },
            CosmosMsg::WasmExecute { contract_addr: info.sender.clone(), msg: pay_msg },
        ];
        let attributes = vec![attribute("execute", "purchase".to_owned())];
        let r = Response { messages, attributes };
        assert(r@.messages =~= seq![wasm_execute(c, nv), wasm_execute(info.sender@, pv)]);
        assert(r@.attributes =~= seq![("execute"@, "purchase"@)]);
        Ok(r)
    }

    /// The caller pays in the native coin for a listed token: the caller gets
    /// the token and the seller the coins. The listing stays as it is.
    pub fn execute_purchase_native(
        &self,
        info: &MessageInfo,
        collection: String,
        token_id: String,
    ) -> (r: Result<Response, ContractError>)
        requires
            self.wf(),
            payment_outcome(coins_view(info.funds@), self@.native_denom) is Ok,
            fits_key(collection@),
        ensures
            agrees(
                r,
                *self,
                *self,
                purchase_native_outcome(
                    self@,
                    info.sender@,
                    paid(coins_view(info.funds@), self@.native_denom),
                    collection@,
                    token_id@,
                ),
            ),
    {
        let funds_sent = match must_pay(info, self.config().native_denom.as_str()) {
            Ok(a) => a,
            Err(_) => {
                proof {
                    assert(false);
                }
                return Err(custom_error("Invalid amount"));
            },
        };
        let ask = match self.ask(&collection, &token_id) {
            Some(a) => a,
            None => return Err(ContractError::TokenNotListedForSale),
        };
        if funds_sent != ask.price {
            return Err(custom_error("Invalid amount"));
        }
        let nft = encode_cw721_transfer(info.sender.as_str(), ask.token_id.as_str());
        self.settle_purchase_native(info, collection, token_id, nft)
    }

    /// A native payment by the caller for a listed token at its price, given
    /// `nft`, the encoded CW721 message that hands the token to the caller.
    pub fn settle_purchase_native(
        &self,
        info: &MessageInfo,
        collection: String,
        token_id: String,
        nft: Result<Vec<u8>, StdError>,
    ) -> (r: Result<Response, ContractError>)
        requires
            self.wf(),
            fits_key(collection@),
            self@.asks.contains_key((collection@, token_id@)),
        ensures
            agrees(
                r,
                *self,
                *self,
                purchase_native_settled(self@, info.sender@, collection@, token_id@, encoded(nft)),
            ),
            nft matches Err(e) ==> r == Err::<Response, ContractError>(ContractError::Std(e)),
    {
        let nft_msg = match nft {
            Ok(b) => b,
            Err(e) => return Err(ContractError::Std(e)),
        };
        let ask = match self.ask(&collection, &token_id) {
            Some(a) => a,
            None => {
                proof {
                    assert(false);
                }
                return Err(ContractError::TokenNotListedForSale);
            },
        };
        let payment = Coin { denom: self.config().native_denom.clone(), amount: ask.price };
        let ghost (c, t, nv, pv) = (collection@, token_id@, nft_msg@, payment@);
        let mut amount = Vec::new();
        amount.push(payment);
        assert(coins_view(amount@) =~= seq![pv]);
        let messages = vec![
            CosmosMsg::WasmExecute { contract_addr: collection.clone(), msg: nft_msg },
            CosmosMsg::BankSend { to_address: ask.seller.clone(), amount },
        ];
        let attributes = vec![
            attribute("execute", "purchase_native".to_owned()),
            attribute("collection", collection),
            attribute("token_id", token_id),
            attribute("buyer", info.sender.clone()),
            attribute("seller", ask.seller),
        ];
        let r = Response { messages, attributes };
        let ghost expected = purchase_native_settled(self@, info.sender@, c, t, Some(nv))->response;
        assert(r@.messages =~= expected.messages);
        assert(r@.attributes =~= expected.attributes);
        Ok(r)
    }

    /// The caller adds a video to the catalogue under the next id.
    pub fn execute_upload_video(
        &mut self,
        info: &MessageInfo,
        title: String,
        description: String,
        price: u128,
        video_ipfs_hash: String,
        thumbnail_ipfs_hash: String,
    ) -> (r: Result<Response, ContractError>)
        requires
            old(self).wf(),
            old(self)@.video_count < u64::MAX,
        ensures
            final(self).wf(),
            agrees(
                r,
                *old(self),
                *final(self),
                upload_video_outcome(
                    old(self)@,
                    info.sender@,
                    title@,
                    description@,
                    price,
                    video_ipfs_hash@,
                    thumbnail_ipfs_hash@,
                ),
            ),
    {
        let owner = info.sender.clone();
        let ghost t = title@;
        let video_id = self.add_video(
            owner.clone(),
            title.clone(),
            description,
            price,
            video_ipfs_hash,
            thumbnail_ipfs_hash,
        );
        let attributes = vec![
            attribute("action", "upload_video".to_owned()),
            attribute("owner", owner),
            attribute("video_id", decimal_text(video_id as u128)),
            attribute("title", title),
            attribute("price", decimal_text(price)),
        ];
        let r = Response { messages: Vec::new(), attributes };
        assert(r@.messages =~= seq![]);
        assert(r@.attributes =~= upload_video_outcome(
            old(self)@,
            info.sender@,
            t,
            description@,
            price,
            video_ipfs_hash@,
            thumbnail_ipfs_hash@,
        )->response.attributes);
        Ok(r)
    }

    /// The caller pays in the native coin to watch a video: the owner gets
    /// the coins and the caller the right to watch.
    pub fn execute_pay_for_view_native(&mut self, info: &MessageInfo, video_id: u64) -> (r: Result<
        Response,
        ContractError,
    >)
        requires
            old(self).wf(),
            payment_outcome(coins_view(info.funds@), old(self)@.native_denom) is Ok,
        ensures
            final(self).wf(),
            agrees(
                r,
                *old(self),
                *final(self),
                pay_for_view_native_outcome(
                    old(self)@,
                    info.sender@,
                    paid(coins_view(info.funds@), old(self)@.native_denom),
                    video_id,
                ),
            ),
    {
        let denom = self.config().native_denom.clone();
        let viewer = &info.sender;
        let funds_sent = match must_pay(info, denom.as_str()) {
            Ok(a) => a,
            Err(_) => {
                proof {
                    assert(false);
                }
                return Err(custom_error("Invalid amount"));
            },
        };
        let video = match self.video(video_id) {
            Some(v) => v,
            None => return Err(custom_error("Video not found")),
        };
        if funds_sent != video.price {
            let val = native_payment_mismatch(video.price, denom.as_str(), funds_sent);
            return Err(ContractError::CustomError { val });
        }
        let ghost d = denom@;
        let payment = Coin { denom, amount: video.price };
        let ghost pv = payment@;
        let mut amount = Vec::new();
        amount.push(payment);
        assert(coins_view(amount@) =~= seq![pv]);
        self.grant(video_id, viewer);
        let messages = vec![CosmosMsg::BankSend { to_address: video.owner.clone(), amount }];
        let attributes = vec![
            attribute("action", "pay_for_view_native".to_owned()),
            attribute("video_id", decimal_text(video_id as u128)),
            attribute("viewer", viewer.clone()),
            attribute("amount_paid", decimal_text(video.price)),
        ];
        let r = Response { messages, attributes };
        let ghost expected = pay_for_view_native_outcome(
            old(self)@,
            info.sender@,
            paid(coins_view(info.funds@), old(self)@.native_denom),
            video_id,
        )->response;
        assert(r@.messages =~= expected.messages);
        assert(r@.attributes =~= expected.attributes);
        Ok(r)
    }

    /// A CW20 contract (the caller) reports a payment of `receipt.amount` of
    /// its token to watch a video; `viewer` is the chain's answer to
    /// validating `receipt.sender` as an address. The owner gets the tokens
    /// and the viewer the right to watch.
    pub fn execute_pay_for_view(
        &mut self,
        info: &MessageInfo,
        video_id: u64,
        receipt: Cw20ReceiveMsg,
        viewer: Result<String, StdError>,
    ) -> (r: Result<Response, ContractError>)
        requires
            old(self).wf(),
        ensures
            final(self).wf(),
            agrees(
                r,
                *old(self),
                *final(self),
                pay_for_view_outcome(
                    old(self)@,
                    info.sender@,
                    std_result_view(viewer),
                    video_id,
                    receipt.amount,
                ),
            ),
    {
        let viewer = match viewer {
            Ok(a) => a,
            Err(e) => return Err(ContractError::Std(e)),
        };
        let video = match self.video(video_id) {
            Some(v) => v,
            None => return Err(custom_error("Video not found")),
        };
        if receipt.amount != video.price {
            let val = cw20_payment_mismatch(video.price, receipt.amount);
            return Err(ContractError::CustomError { val });
        }
        let payment = encode_cw20_transfer(video.owner.as_str(), video.price);
        self.settle_pay_for_view(info, video_id, viewer, payment)
    }

    /// A CW20 payment (reported by the caller) of a video's price by
    /// `viewer`, given `payment`, the encoded CW20 message that pays the owner.
    pub fn settle_pay_for_view(
        &mut self,
        info: &MessageInfo,
        video_id: u64,
        viewer: String,
        payment: Result<Vec<u8>, StdError>,
    ) -> (r: Result<Response, ContractError>)
        requires
            old(self).wf(),
            old(self)@.videos.contains_key(video_id),
        ensures
            final(self).wf(),
            agrees(
                r,
                *old(self),
                *final(self),
                pay_for_view_settled(old(self)@, info.sender@, viewer@, video_id, encoded(payment)),
            ),
            payment matches Err(e) ==> r == Err::<Response, ContractError>(ContractError::Std(e)),
    {
        let msg = match payment {
            Ok(b) => b,
            Err(e) => return Err(ContractError::Std(e)),
        };
        let price = match self.video(video_id) {
            Some(v) => v.price,
            None => {
                proof {
                    assert(false);
                }
                return Err(custom_error("Video not found"));
            },
        };
        self.grant(video_id, &viewer);
        let ghost mv = msg@;
        let messages = vec![CosmosMsg::WasmExecute { contract_addr: info.sender.clone(), msg }];
        let attributes = vec![
            attribute("action", "pay_for_view_cw20".to_owned()),
            attribute("video_id", decimal_text(video_id as u128)),
            attribute("viewer", viewer),
            attribute("amount_paid", decimal_text(price)),
        ];
        let r = Response { messages, attributes };
        let ghost expected = pay_for_view_settled(
            old(self)@,
            info.sender@,
            viewer@,
            video_id,
            Some(mv),
        )->response;
        assert(r@.messages =~= expected.messages);
        assert(r@.attributes =~= expected.attributes);
        Ok(r)
    }

    /// The caller takes its video out of the catalogue.
    pub fn execute_remove_video(&mut self, info: &MessageInfo, video_id: u64) -> (r: Result<
        Response,
        ContractError,
    >)
        requires
            old(self).wf(),
        ensures
            final(self).wf(),
            agrees(r, *old(self), *final(self), remove_video_outcome(old(self)@, info.sender@, video_id)),
    {
        let sender = info.sender.clone();
        let video = match self.video(video_id) {
            Some(v) => v,
            None => return Err(custom_error("Video not found")),
        };
        if video.owner != sender {
            return Err(ContractError::UnauthorizedOwner);
        }
        self.drop_video(video_id);
        let attributes = vec![
            attribute("action", "remove_video".to_owned()),
            attribute("video_id", decimal_text(video_id as u128)),
            attribute("owner", sender),
        ];
        let r = Response { messages: Vec::new(), attributes };
        assert(r@.messages =~= seq![]);
        assert(r@.attributes =~= remove_video_outcome(
            old(self)@,
            info.sender@,
            video_id,
        )->response.attributes);
        Ok(r)
    }

    /// A CW20 contract (the caller) reports a receipt; `hook` is the message
    /// embedded in it (`None` where it does not decode) and `sender_address`
    /// the chain's answer to validating `receipt.sender` as an address.
    pub fn receive_cw20(
        &mut self,
        info: &MessageInfo,
        receipt: Cw20ReceiveMsg,
        hook: Option<Cw20HookMsg>,
        sender_address: Result<String, StdError>,
    ) -> (r: Result<Response, ContractError>)
        requires
            old(self).wf(),
            execute_admissible(
                old(self)@,
                *info,
                ExecuteMsg::Receive { receipt, hook, sender_address },
            ),
        ensures
            final(self).wf(),
            agrees(
                r,
                *old(self),
                *final(self),
                receive_cw20_outcome(old(self)@, info.sender@, receipt, hook, sender_address),
            ),
    {
        match hook {
            Some(Cw20HookMsg::Purchase { cw721_contract, token_id }) => {
                self.execute_purchase(info, cw721_contract, token_id, receipt)
            },
            Some(Cw20HookMsg::PayForView { video_id }) => {
                self.execute_pay_for_view(info, video_id, receipt, sender_address)
            },
            None => Err(custom_error("Invalid Cw20HookMsg")),
        }
    }

    /// A CW721 contract (the caller) reports a receipt; `hook` is the message
    /// embedded in it (`None` where it does not decode). The receipt's own
    /// sender and token id are not read: the hook names both.
    pub fn receive_cw721(
        &mut self,
        info: &MessageInfo,
        receipt: Cw721ReceiveMsg,
        hook: Option<Cw721HookMsg>,
    ) -> (r: Result<Response, ContractError>)
        requires
            old(self).wf(),
            execute_admissible(old(self)@, *info, ExecuteMsg::ReceiveNft { receipt, hook }),
        ensures
            final(self).wf(),
            agrees(r, *old(self), *final(self), receive_cw721_outcome(old(self)@, info.sender@, hook)),
    {
        match hook {
            Some(Cw721HookMsg::SetListing { owner, token_id, cw20_contract, amount }) => {
                self.execute_set_listing(info, owner, token_id, cw20_contract, amount)
            },
            None => Err(custom_error("Invalid Cw721HookMsg")),
        }
    }

    /// Any execute message, as the rules for its kind say.
    pub fn execute(&mut self, info: &MessageInfo, msg: ExecuteMsg) -> (r: Result<
        Response,
        ContractError,
    >)
        requires
            old(self).wf(),
            execute_admissible(old(self)@, *info, msg),
        ensures
            final(self).wf(),
            agrees(r, *old(self), *final(self), execute_outcome(old(self)@, *info, msg)),
    {
        match msg {
            ExecuteMsg::Receive { receipt, hook, sender_address } => {
                self.receive_cw20(info, receipt, hook, sender_address)
            },
            ExecuteMsg::ReceiveNft { receipt, hook } => self.receive_cw721(info, receipt, hook),
            ExecuteMsg::PurchaseNative { collection, token_id } => {
                self.execute_purchase_native(info, collection, token_id)
            },
            ExecuteMsg::RemoveListing { collection, token_id } => {
                self.execute_remove_listing(info, collection, token_id)
            },
            ExecuteMsg::UploadVideo {
                title,
                description,
                price,
                video_ipfs_hash,
                thumbnail_ipfs_hash,
            } => self.execute_upload_video(
                info,
                title,
                description,
                price,
                video_ipfs_hash,
                thumbnail_ipfs_hash,
            ),
            ExecuteMsg::PayForViewNative { video_id } => {
                self.execute_pay_for_view_native(info, video_id)
            },
            ExecuteMsg::RemoveVideo { video_id } => self.execute_remove_video(info, video_id),
        }
    }
}

/// The name under which the contract records itself.
pub const CONTRACT_NAME: &'static str = "crates.io:nft-marketplace";

/// The version of this contract.
pub const CONTRACT_VERSION: &'static str = "0.1.0";

/// The name and version that a contract recorded for itself.
#[derive(Clone, Debug, PartialEq, Eq)]
pub struct ContractVersion {
    pub contract: String,
    pub version: String,
}

/// The error of the chain's standard library with this message.
pub open spec fn generic_error(msg: Seq<char>) -> ContractErrorView {
    ContractErrorView::Std(StdErrorView::GenericErr { msg })
}

fn generic_err(msg: &str) -> (e: ContractError)
    ensures
        e@ == generic_error(msg@),
{
    ContractError::Std(StdError::GenericErr { msg: msg.to_owned() })
}

/// What migrating this contract does, given what `semver` answered:
/// whether the recorded version and this one both parse, whether the recorded
/// one is the later, and whether they are equal.
pub fn decide_migration(parsed: bool, newer: bool, same: bool) -> (r: Result<
    (Response, Option<ContractVersion>),
    ContractError,
>)
    ensures
        !parsed ==> (r matches Err(e) && e@ == generic_error("Invalid contract version"@)),
        parsed && newer ==> (r matches Err(e) && e@ == generic_error(
            "Cannot upgrade to a previous contract version"@,
        )),
        parsed && !newer && same ==> (r matches Ok((resp, record)) && resp@ == answer(seq![], seq![])
            && record is None),
        parsed && !newer && !same ==> {
            &&& r matches Ok((resp, record))
            &&& resp@ == answer(seq![], seq![])
            &&& record matches Some(v)
            &&& v.contract@ == CONTRACT_NAME@
            &&& v.version@ == CONTRACT_VERSION@
        },
{
    if !parsed {
        return Err(generic_err("Invalid contract version"));
    }
    if newer {
        return Err(generic_err("Cannot upgrade to a previous contract version"));
    }
    if same {
        return Ok((empty_response(), None));
    }
    let record = ContractVersion {
        contract: CONTRACT_NAME.to_owned(),
        version: CONTRACT_VERSION.to_owned(),
    };
    Ok((empty_response(), Some(record)))
}

/// Migration from the recorded name and version `stored`: refused for another
/// contract, for a version that does not parse and for a later version than
/// this one; for this very version nothing is to be recorded, and for an
/// earlier one this contract's name and version are.
pub fn migrate(stored: &ContractVersion, _msg: QueryMsg) -> (r: Result<
    (Response, Option<ContractVersion>),
    ContractError,
>)
    ensures
        stored.contract@ == CONTRACT_NAME@ && stored.version@ == CONTRACT_VERSION@ && semver_accepts(
            CONTRACT_VERSION@,
        ) ==> (r matches Ok((resp, record)) && record is None),
        stored.contract@ != CONTRACT_NAME@ ==> (r matches Err(e) && e@ == generic_error(
            "Cannot upgrade to a different contract"@,
        )),
        stored.contract@ == CONTRACT_NAME@ && !(semver_accepts(stored.version@) && semver_accepts(
            CONTRACT_VERSION@,
        )) ==> (r matches Err(e) && e@ == generic_error("Invalid contract version"@)),
        stored.contract@ == CONTRACT_NAME@ && semver_accepts(stored.version@) && semver_accepts(
            CONTRACT_VERSION@,
        ) ==> {
            if semver_newer(stored.version@, CONTRACT_VERSION@) {
                r matches Err(e) && e@ == generic_error(
                    "Cannot upgrade to a previous contract version"@,
                )
            } else if semver_same(stored.version@, CONTRACT_VERSION@) {
                r matches Ok((resp, record)) && resp@ == answer(seq![], seq![]) && record is None
            } else {
                &&& r matches Ok((resp, record))
                &&& resp@ == answer(seq![], seq![])
                &&& record matches Some(v)
                &&& v.contract@ == CONTRACT_NAME@
                &&& v.version@ == CONTRACT_VERSION@
            }
        },
{
    if stored.contract != CONTRACT_NAME.to_owned() {
        return Err(generic_err("Cannot upgrade to a different contract"));
    }
    match (parse_version(stored.version.as_str()), parse_version(CONTRACT_VERSION)) {
        (Some(version), Some(new_version)) => decide_migration(
            true,
            version_newer(&version, &new_version),
            version_same(&version, &new_version),
        ),
        _ => decide_migration(false, false, false),
    }
}

} // verus!
