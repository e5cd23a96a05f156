//! The rules of the contract as mathematics: for each handler, what it does
//! to the state and what it answers, as a function of the state before and
//! of the message.
use vstd::prelude::*;
use crate::error::{custom, ContractError, ContractErrorView, StdError, StdErrorView};
use crate::external::{cw20_transfer_json, cw721_transfer_json, decimal, payment_outcome};
use crate::keys::fits_key;
use crate::market::{MarketView, Marketplace};
use crate::msg::{Cw20HookMsg, Cw20ReceiveMsg, Cw721HookMsg, ExecuteMsg};
use crate::response::{coins_view, CoinView, MessageInfo, MsgView, Response, ResponseView};

verus! {

/// How a handler ends.
pub enum Outcome {
    /// It succeeds, leaving `state` and answering `response`.
    Done { state: MarketView, response: ResponseView },
    /// It refuses with this error and changes nothing.
    Refused(ContractErrorView),
    /// An encoded message that a `settle_*` handler was given is a library
    /// error; the handler passes it on and changes nothing.
    Failed,
}

/// The result `r` of a handler that turned `before` into `after` is the
/// outcome `o`.
pub open spec fn agrees(
    r: Result<Response, ContractError>,
    before: Marketplace,
    after: Marketplace,
    o: Outcome,
) -> bool {
    match o {
        Outcome::Done { state, response } => r matches Ok(resp) && resp@ == response && after@
            == state,
        Outcome::Refused(e) => r matches Err(err) && err@ == e && after == before,
        Outcome::Failed => r matches Err(err) && err is Std && after == before,
    }
}

pub open spec fn wasm_execute(contract_addr: Seq<char>, msg: Seq<u8>) -> MsgView {
    MsgView::WasmExecute { contract_addr, msg }
}

pub open spec fn bank_send(to_address: Seq<char>, denom: Seq<char>, amount: u128) -> MsgView {
    MsgView::BankSend { to_address, amount: seq![CoinView { denom, amount }] }
}

pub open spec fn answer(
    messages: Seq<MsgView>,
    attributes: Seq<(Seq<char>, Seq<char>)>,
) -> ResponseView {
    ResponseView { messages, attributes }
}

/// The amount that a payment in `denom` brings, where it is accepted.
pub open spec fn paid(funds: Seq<CoinView>, denom: Seq<char>) -> u128 {
    match payment_outcome(funds, denom) {
        Ok(a) => a,
        Err(_) => 0,
    }
}

pub open spec fn native_mismatch_text(price: u128, denom: Seq<char>, sent: u128) -> Seq<char> {
    "Expected payment of "@ + decimal(price as nat) + " "@ + denom + ", but got "@ + decimal(
        sent as nat,
    ) + " "@ + denom
}

pub open spec fn cw20_mismatch_text(price: u128, sent: u128) -> Seq<char> {
    "Expected payment of "@ + decimal(price as nat) + ", but got "@ + decimal(sent as nat)
}

/// A CW721 contract (`collection`) deposits a token of `owner` and lists it.
pub open spec fn set_listing_outcome(
    s: MarketView,
    collection: Seq<char>,
    owner: Seq<char>,
    token_id: Seq<char>,
    cw20_contract: Option<Seq<char>>,
    amount: u128,
) -> Outcome {
    if s.deposits.contains_key((collection, owner, token_id)) {
        Outcome::Refused(custom("Already deposited"@))
    } else {
        Outcome::Done {
            state: s.set_listing(collection, owner, token_id, cw20_contract, amount),
            response: answer(
                seq![],
                seq![
                    ("execute"@, "cw721_deposit"@),
                    ("owner"@, owner),
                    ("contract"@, collection),
                    ("token_id"@, token_id),
                ],
            ),
        }
    }
}

/// `sender` withdraws its deposited token, with `transfer` the JSON of the
/// CW721 message that returns it (`None` where encoding failed).
pub open spec fn remove_listing_settled(
    s: MarketView,
    sender: Seq<char>,
    collection: Seq<char>,
    token_id: Seq<char>,
    transfer: Option<Seq<u8>>,
) -> Outcome {
    match transfer {
        Some(m) => Outcome::Done {
            state: s.remove_listing(collection, sender, token_id),
            response: answer(seq![wasm_execute(collection, m)], seq![("execute"@, "withdraw"@)]),
        },
        None => Outcome::Failed,
    }
}

/// `sender` withdraws its deposited token.
pub open spec fn remove_listing_outcome(
    s: MarketView,
    sender: Seq<char>,
    collection: Seq<char>,
    token_id: Seq<char>,
) -> Outcome {
    if !s.deposits.contains_key((collection, sender, token_id)) {
        Outcome::Refused(ContractErrorView::NoCw721ToWithdraw)
    } else {
        remove_listing_settled(
            s,
            sender,
            collection,
            token_id,
            Some(cw721_transfer_json(sender, token_id)),
        )
    }
}

/// A CW20 payment (reported by `sender`) for the token listed under
/// (`cw721_contract`, `token_id`) at the amount paid, with `nft` the JSON of
/// the CW721 message to the buyer and `payment` that of the CW20 message to
/// the seller (`None` where encoding failed).
pub open spec fn purchase_settled(
    s: MarketView,
    sender: Seq<char>,
    cw721_contract: Seq<char>,
    token_id: Seq<char>,
    nft: Option<Seq<u8>>,
    payment: Option<Seq<u8>>,
) -> Outcome {
    match (nft, payment) {
        (Some(nft), Some(pay)) => Outcome::Done {
            state: s.remove_listing(cw721_contract, s.asks[(cw721_contract, token_id)].seller, token_id),
            response: answer(
                seq![wasm_execute(cw721_contract, nft), wasm_execute(sender, pay)],
                seq![("execute"@, "purchase"@)],
            ),
        },
        _ => Outcome::Failed,
    }
}

/// A CW20 contract (`sender`) reports a payment of `amount` by `buyer` for a
/// listed token.
pub open spec fn purchase_outcome(
    s: MarketView,
    sender: Seq<char>,
    cw721_contract: Seq<char>,
    token_id: Seq<char>,
    buyer: Seq<char>,
    amount: u128,
) -> Outcome {
    if !s.asks.contains_key((cw721_contract, token_id)) {
        Outcome::Refused(custom("No such ask"@))
    } else {
        let ask = s.asks[(cw721_contract, token_id)];
        if amount != ask.price {
            Outcome::Refused(custom("Invalid amount"@))
        } else {
            purchase_settled(
                s,
                sender,
                cw721_contract,
                token_id,
                Some(cw721_transfer_json(buyer, token_id)),
                Some(cw20_transfer_json(ask.seller, ask.price)),
            )
        }
    }
}

/// A native payment by `buyer` for the token listed under (`collection`,
/// `token_id`) at the amount paid, with `nft` the JSON of the CW721 message to
/// the buyer (`None` where encoding failed). The state is left as it was.
pub open spec fn purchase_native_settled(
    s: MarketView,
    buyer: Seq<char>,
    collection: Seq<char>,
    token_id: Seq<char>,
    nft: Option<Seq<u8>>,
) -> Outcome {
    let ask = s.asks[(collection, token_id)];
    match nft {
        Some(nft) => Outcome::Done {
            state: s,
            response: answer(
                seq![wasm_execute(collection, nft), bank_send(ask.seller, s.native_denom, ask.price)],
                seq![
                    ("execute"@, "purchase_native"@),
                    ("collection"@, collection),
                    ("token_id"@, token_id),
                    ("buyer"@, buyer),
                    ("seller"@, ask.seller),
                ],
            ),
        },
        None => Outcome::Failed,
    }
}

/// `buyer` pays `funds` in the native coin for a listed token. The state is
/// left as it was.
pub open spec fn purchase_native_outcome(
    s: MarketView,
    buyer: Seq<char>,
    funds: u128,
    collection: Seq<char>,
    token_id: Seq<char>,
) -> Outcome {
    if !s.asks.contains_key((collection, token_id)) {
        Outcome::Refused(ContractErrorView::TokenNotListedForSale)
    } else {
        let ask = s.asks[(collection, token_id)];
        if funds != ask.price {
            Outcome::Refused(custom("Invalid amount"@))
        } else {
            purchase_native_settled(
                s,
                buyer,
                collection,
                token_id,
                Some(cw721_transfer_json(buyer, ask.token_id)),
            )
        }
    }
}

/// `owner` adds a video under the next id.
pub open spec fn upload_video_outcome(
    s: MarketView,
    owner: Seq<char>,
    title: Seq<char>,
    description: Seq<char>,
    price: u128,
    video_ipfs_hash: Seq<char>,
    thumbnail_ipfs_hash: Seq<char>,
) -> Outcome {
    Outcome::Done {
        state: s.upload_video(owner, title, description, price, video_ipfs_hash, thumbnail_ipfs_hash),
        response: answer(
            seq![],
            seq![
                ("action"@, "upload_video"@),
                ("owner"@, owner),
                ("video_id"@, decimal(s.video_count as nat)),
                ("title"@, title),
                ("price"@, decimal(price as nat)),
            ],
        ),
    }
}

/// `viewer` pays `funds` in the native coin to watch a video.
pub open spec fn pay_for_view_native_outcome(
    s: MarketView,
    viewer: Seq<char>,
    funds: u128,
    video_id: u64,
) -> Outcome {
    if !s.videos.contains_key(video_id) {
        Outcome::Refused(custom("Video not found"@))
    } else {
        let video = s.videos[video_id];
        if funds != video.price {
            Outcome::Refused(custom(native_mismatch_text(video.price, s.native_denom, funds)))
        } else {
            Outcome::Done {
                state: s.grant_access(video_id, viewer),
                response: answer(
                    seq![bank_send(video.owner, s.native_denom, video.price)],
                    seq![
                        ("action"@, "pay_for_view_native"@),
                        ("video_id"@, decimal(video_id as nat)),
                        ("viewer"@, viewer),
                        ("amount_paid"@, decimal(video.price as nat)),
                    ],
                ),
            }
        }
    }
}

/// A CW20 payment (reported by `sender`) of the price of video `video_id`
/// by `viewer`, with `payment` the JSON of the CW20 message to the owner
/// (`None` where encoding failed).
pub open spec fn pay_for_view_settled(
    s: MarketView,
    sender: Seq<char>,
    viewer: Seq<char>,
    video_id: u64,
    payment: Option<Seq<u8>>,
) -> Outcome {
    let video = s.videos[video_id];
    match payment {
        Some(pay) => Outcome::Done {
            state: s.grant_access(video_id, viewer),
            response: answer(
                seq![wasm_execute(sender, pay)],
                seq![
                    ("action"@, "pay_for_view_cw20"@),
                    ("video_id"@, decimal(video_id as nat)),
                    ("viewer"@, viewer),
                    ("amount_paid"@, decimal(video.price as nat)),
                ],
            ),
        },
        None => Outcome::Failed,
    }
}

/// A CW20 contract (`sender`) reports a payment of `amount` to watch a
/// video; `viewer` is the chain's answer to validating the payer's address.
pub open spec fn pay_for_view_outcome(
    s: MarketView,
    sender: Seq<char>,
    viewer: Result<Seq<char>, StdErrorView>,
    video_id: u64,
    amount: u128,
) -> Outcome {
    match viewer {
        Err(e) => Outcome::Refused(ContractErrorView::Std(e)),
        Ok(viewer) => {
            if !s.videos.contains_key(video_id) {
                Outcome::Refused(custom("Video not found"@))
            } else {
                let video = s.videos[video_id];
                if amount != video.price {
                    Outcome::Refused(custom(cw20_mismatch_text(video.price, amount)))
                } else {
                    pay_for_view_settled(
                        s,
                        sender,
                        viewer,
                        video_id,
                        Some(cw20_transfer_json(video.owner, video.price)),
                    )
                }
            }
        },
    }
}

/// `sender` takes its video out of the catalogue.
pub open spec fn remove_video_outcome(s: MarketView, sender: Seq<char>, video_id: u64) -> Outcome {
    if !s.videos.contains_key(video_id) {
        Outcome::Refused(custom("Video not found"@))
    } else if s.videos[video_id].owner != sender {
        Outcome::Refused(ContractErrorView::UnauthorizedOwner)
    } else {
        Outcome::Done {
            state: s.remove_video(video_id),
            response: answer(
                seq![],
                seq![
                    ("action"@, "remove_video"@),
                    ("video_id"@, decimal(video_id as nat)),
                    ("owner"@, sender),
                ],
            ),
        }
    }
}

/// The bytes of an encoding, where it succeeded.
pub open spec fn encoded(r: Result<Vec<u8>, StdError>) -> Option<Seq<u8>> {
    match r {
        Ok(b) => Some(b@),
        Err(_) => None,
    }
}

pub open spec fn std_result_view(r: Result<String, StdError>) -> Result<Seq<char>, StdErrorView> {
    match r {
        Ok(a) => Ok(a@),
        Err(e) => Err(e@),
    }
}

/// A CW20 contract (`sender`) reports a receipt.
pub open spec fn receive_cw20_outcome(
    s: MarketView,
    sender: Seq<char>,
    receipt: Cw20ReceiveMsg,
    hook: Option<Cw20HookMsg>,
    sender_address: Result<String, StdError>,
) -> Outcome {
    match hook {
        Some(Cw20HookMsg::Purchase { cw721_contract, token_id }) => purchase_outcome(
            s,
            sender,
            cw721_contract@,
            token_id@,
            receipt.sender@,
            receipt.amount,
        ),
        Some(Cw20HookMsg::PayForView { video_id }) => pay_for_view_outcome(
            s,
            sender,
            std_result_view(sender_address),
            video_id,
            receipt.amount,
        ),
        None => Outcome::Refused(custom("Invalid Cw20HookMsg"@)),
    }
}

/// A CW721 contract (`sender`) reports a receipt.
pub open spec fn receive_cw721_outcome(
    s: MarketView,
    sender: Seq<char>,
    hook: Option<Cw721HookMsg>,
) -> Outcome {
    match hook {
        Some(Cw721HookMsg::SetListing { owner, token_id, cw20_contract, amount }) =>
            set_listing_outcome(s, sender, owner@, token_id@, cw20_contract.deep_view(), amount),
        None => Outcome::Refused(custom("Invalid Cw721HookMsg"@)),
    }
}

/// Any execute message.
pub open spec fn execute_outcome(s: MarketView, info: MessageInfo, msg: ExecuteMsg) -> Outcome {
    let sender = info.sender@;
    let funds = paid(coins_view(info.funds@), s.native_denom);
    match msg {
        ExecuteMsg::Receive { receipt, hook, sender_address } => receive_cw20_outcome(
            s,
            sender,
            receipt,
            hook,
            sender_address,
        ),
        ExecuteMsg::ReceiveNft { receipt, hook } => receive_cw721_outcome(s, sender, hook),
        ExecuteMsg::PurchaseNative { collection, token_id } => purchase_native_outcome(
            s,
            sender,
            funds,
            collection@,
            token_id@,
        ),
        ExecuteMsg::RemoveListing { collection, token_id } => remove_listing_outcome(
            s,
            sender,
            collection@,
            token_id@,
        ),
        ExecuteMsg::UploadVideo {
            title,
            description,
            price,
            video_ipfs_hash,
            thumbnail_ipfs_hash,
        } => upload_video_outcome(
            s,
            sender,
            title@,
            description@,
            price,
            video_ipfs_hash@,
            thumbnail_ipfs_hash@,
        ),
        ExecuteMsg::PayForViewNative { video_id } => pay_for_view_native_outcome(
            s,
            sender,
            funds,
            video_id,
        ),
        ExecuteMsg::RemoveVideo { video_id } => remove_video_outcome(s, sender, video_id),
    }
}

/// The inputs on which the contract does not panic: the texts that it writes
/// into storage keys with a length prefix fit one, a payment in the native
/// coin is one coin of the configured denom, and the video counter can grow.
pub open spec fn execute_admissible(s: MarketView, info: MessageInfo, msg: ExecuteMsg) -> bool {
    let sender = info.sender@;
    match msg {
        ExecuteMsg::Receive { receipt, hook, sender_address } => match hook {
            Some(Cw20HookMsg::Purchase { cw721_contract, token_id }) => {
                &&& fits_key(cw721_contract@)
                &&& s.asks.contains_key((cw721_contract@, token_id@)) && s.asks[(
                    cw721_contract@,
                    token_id@,
                )].price == receipt.amount ==> fits_key(s.asks[(cw721_contract@, token_id@)].seller)
            },
            _ => true,
        },
        ExecuteMsg::ReceiveNft { receipt, hook } => match hook {
            Some(Cw721HookMsg::SetListing { owner, token_id, cw20_contract, amount }) => {
                fits_key(sender) && fits_key(owner@)
            },
            None => true,
        },
        ExecuteMsg::PurchaseNative { collection, token_id } => {
            &&& payment_outcome(coins_view(info.funds@), s.native_denom) is Ok
            &&& fits_key(collection@)
        },
        ExecuteMsg::RemoveListing { collection, token_id } => fits_key(collection@) && fits_key(
            sender,
        ),
        ExecuteMsg::UploadVideo { .. } => s.video_count < u64::MAX,
        ExecuteMsg::PayForViewNative { video_id } => payment_outcome(
            coins_view(info.funds@),
            s.native_denom,
        ) is Ok,
        ExecuteMsg::RemoveVideo { video_id } => true,
    }
}

} // verus!
