//! Properties of the contract as a whole, proved from the rules that the
//! handlers are verified against.
use vstd::prelude::*;
use crate::error::{custom, ContractError, StdErrorView};
use crate::market::{AskKey, MarketView, Marketplace};
use crate::msg::{Cw721DepositResponse, GetAllAsksResponse, GetAllVideosResponse, OwnerVideosResponse};
use crate::query::{
    all_asks_answer, ask_at, deposits_answer, select_deposits, select_videos, video_values,
    videos_view,
};
use crate::response::{MessageInfo, Response};
use crate::rules::{
    agrees, execute_admissible, execute_outcome, pay_for_view_native_outcome, pay_for_view_outcome,
    purchase_native_outcome, purchase_outcome, remove_listing_outcome, remove_video_outcome,
    set_listing_outcome, Outcome,
};
use crate::msg::{
    Cw20HookMsg, Cw20ReceiveMsg, Cw721HookMsg, Cw721ReceiveMsg, ExecuteMsg, QueryMsg,
    QueryResponse,
};
use crate::external::{cw20_transfer_json, cw721_transfer_json};
use crate::query::{optional_ask_view, optional_video_view, query_answer, video_at};
use crate::response::coins_view;
use crate::rules::{
    bank_send, paid, receive_cw20_outcome, receive_cw721_outcome, std_result_view,
    upload_video_outcome, wasm_execute,
};
use crate::market::{DepositKey, DepositKeyView};
use crate::state::{Ask, AskView, Cw721Deposits, DepositView, VideoView};
use crate::store::{keys_ascending, map_of};

verus! {

/// The state that a handler leaves: the new one where it succeeds, the old
/// one otherwise.
pub open spec fn after(s: MarketView, o: Outcome) -> MarketView {
    match o {
        Outcome::Done { state, .. } => state,
        _ => s,
    }
}

/// A request that a handler refuses, or that fails, changes nothing.
pub proof fn law_refusal_changes_nothing(
    r: Result<Response, ContractError>,
    before: Marketplace,
    final_state: Marketplace,
    o: Outcome,
)
    requires
        agrees(r, before, final_state, o),
        r is Err,
    ensures
        final_state == before,
{
}

/// Once a token is listed, the ask query answers with the listing: the seller
/// is the owner named in the listing, at the price and in the token named.
pub proof fn law_listing_is_queryable(
    s: MarketView,
    collection: Seq<char>,
    owner: Seq<char>,
    token_id: Seq<char>,
    cw20_contract: Option<Seq<char>>,
    amount: u128,
)
    requires
        !s.deposits.contains_key((collection, owner, token_id)),
    ensures
        set_listing_outcome(s, collection, owner, token_id, cw20_contract, amount) matches Outcome::Done {
            state,
            ..
        } && ask_at(state, (collection, token_id)) == Some(
            AskView { collection, token_id, seller: owner, price: amount, cw20_contract },
        ) && state.deposits.contains_key((collection, owner, token_id)),
{
}

/// A second listing of a token that its owner already deposited is refused.
pub proof fn law_listing_twice_is_refused(
    s: MarketView,
    collection: Seq<char>,
    owner: Seq<char>,
    token_id: Seq<char>,
    cw20_contract: Option<Seq<char>>,
    amount: u128,
    again: u128,
)
    requires
        !s.deposits.contains_key((collection, owner, token_id)),
    ensures
        set_listing_outcome(s, collection, owner, token_id, cw20_contract, amount) matches Outcome::Done {
            state,
            ..
        } && set_listing_outcome(
            state,
            collection,
            owner,
            token_id,
            cw20_contract,
            again,
        ) is Refused,
{
}

/// Withdrawing a token undoes its listing: where neither the deposit nor an
/// ask for the token was there before, listing then withdrawing gives back
/// the state as it was.
pub proof fn law_withdraw_undoes_listing(
    s: MarketView,
    collection: Seq<char>,
    owner: Seq<char>,
    token_id: Seq<char>,
    cw20_contract: Option<Seq<char>>,
    amount: u128,
)
    requires
        !s.deposits.contains_key((collection, owner, token_id)),
        !s.asks.contains_key((collection, token_id)),
    ensures
        set_listing_outcome(s, collection, owner, token_id, cw20_contract, amount) matches Outcome::Done {
            state,
            ..
        } && remove_listing_outcome(state, owner, collection, token_id) matches Outcome::Done {
            state: back,
            ..
        } && back == s,
{
    let listed = s.set_listing(collection, owner, token_id, cw20_contract, amount);
    let back = listed.remove_listing(collection, owner, token_id);
    assert(back.deposits =~= s.deposits);
    assert(back.asks =~= s.asks);
    assert(back =~= s);
}

/// A purchase in CW20 tokens that goes through ends the listing: the ask and
/// the seller's deposit are gone, and nothing else changes.
pub proof fn law_purchase_ends_listing(
    s: MarketView,
    sender: Seq<char>,
    cw721_contract: Seq<char>,
    token_id: Seq<char>,
    buyer: Seq<char>,
    amount: u128,
)
    ensures
        purchase_outcome(s, sender, cw721_contract, token_id, buyer, amount) matches Outcome::Done {
            state,
            ..
        } ==> {
            let seller = s.asks[(cw721_contract, token_id)].seller;
            &&& s.asks.contains_key((cw721_contract, token_id))
            &&& amount == s.asks[(cw721_contract, token_id)].price
            &&& !state.asks.contains_key((cw721_contract, token_id))
            &&& !state.deposits.contains_key((cw721_contract, seller, token_id))
            &&& state.videos == s.videos
            &&& state.access == s.access
            &&& state.video_count == s.video_count
        },
{
}

/// A purchase in the native coin changes no table: the listing stays.
pub proof fn law_native_purchase_keeps_state(
    s: MarketView,
    buyer: Seq<char>,
    funds: u128,
    collection: Seq<char>,
    token_id: Seq<char>,
)
    ensures
        after(s, purchase_native_outcome(s, buyer, funds, collection, token_id)) == s,
{
}

/// A payment to watch a video that goes through lets the payer watch it:
/// the access query answers `true` afterwards.
pub proof fn law_payment_grants_access(
    s: MarketView,
    sender: Seq<char>,
    viewer: Seq<char>,
    funds: u128,
    video_id: u64,
)
    ensures
        pay_for_view_native_outcome(s, viewer, funds, video_id) matches Outcome::Done { state, .. }
            ==> state.has_access(video_id, viewer),
        pay_for_view_outcome(
            s,
            sender,
            Ok::<Seq<char>, StdErrorView>(viewer),
            video_id,
            funds,
        ) matches Outcome::Done { state, .. } ==> state.has_access(video_id, viewer),
{
}

/// Only a video's owner can take it out of the catalogue, and then it is gone.
pub proof fn law_only_owner_removes_video(s: MarketView, sender: Seq<char>, video_id: u64)
    ensures
        remove_video_outcome(s, sender, video_id) matches Outcome::Done { state, .. } ==> {
            &&& s.videos.contains_key(video_id)
            &&& s.videos[video_id].owner == sender
            &&& !state.videos.contains_key(video_id)
        },
        s.videos.contains_key(video_id) && s.videos[video_id].owner != sender
            ==> remove_video_outcome(s, sender, video_id) is Refused,
{
}

/// No execute message takes away a right to watch a video.
pub proof fn law_access_is_never_revoked(
    s: MarketView,
    info: MessageInfo,
    msg: ExecuteMsg,
    video_id: u64,
    viewer: Seq<char>,
)
    requires
        s.has_access(video_id, viewer),
    ensures
        after(s, execute_outcome(s, info, msg)).has_access(video_id, viewer),
{
}

/// Every ask is backed by the seller's deposit of the same token and names
/// its own key.
pub open spec fn asks_backed(s: MarketView) -> bool {
    forall|k: (Seq<char>, Seq<char>)| #[trigger]
        s.asks.contains_key(k) ==> {
            &&& s.deposits.contains_key((k.0, s.asks[k].seller, k.1))
            &&& s.asks[k].collection == k.0
            &&& s.asks[k].token_id == k.1
        }
}

/// A fresh marketplace has neither asks nor videos, so every ask is backed
/// and every video id is below the counter.
pub proof fn law_fresh_market_invariants(s: MarketView)
    requires
        s.asks.is_empty(),
        s.videos.is_empty(),
    ensures
        asks_backed(s),
        ids_below_count(s),
{
}

/// Every execute message keeps every ask backed by its seller's deposit.
pub proof fn law_asks_stay_backed(s: MarketView, info: MessageInfo, msg: ExecuteMsg)
    requires
        asks_backed(s),
    ensures
        asks_backed(after(s, execute_outcome(s, info, msg))),
{
    let t = after(s, execute_outcome(s, info, msg));
    assert forall|k: (Seq<char>, Seq<char>)| #[trigger] t.asks.contains_key(k) implies {
        &&& t.deposits.contains_key((k.0, t.asks[k].seller, k.1))
        &&& t.asks[k].collection == k.0
        &&& t.asks[k].token_id == k.1
    } by {
        assert(s.asks.contains_key(k) ==> s.deposits.contains_key((k.0, s.asks[k].seller, k.1)));
    }
}

/// Every video id is below the counter.
pub open spec fn ids_below_count(s: MarketView) -> bool {
    forall|id: u64| #[trigger] s.videos.contains_key(id) ==> id < s.video_count
}

/// Every execute message keeps video ids below the counter, so an uploaded
/// video never replaces another: it gets an id that no video had.
pub proof fn law_video_ids_are_fresh(s: MarketView, info: MessageInfo, msg: ExecuteMsg)
    requires
        ids_below_count(s),
        execute_admissible(s, info, msg),
    ensures
        ids_below_count(after(s, execute_outcome(s, info, msg))),
        !s.videos.contains_key(s.video_count),
{
    let t = after(s, execute_outcome(s, info, msg));
    assert forall|id: u64| #[trigger] t.videos.contains_key(id) implies id < t.video_count by {
        assert(s.videos.contains_key(id) ==> id < s.video_count);
    }
}

/// Every video is stored under its own id.
pub open spec fn videos_keyed_by_id(s: MarketView) -> bool {
    forall|id: u64| #[trigger] s.videos.contains_key(id) ==> s.videos[id].id == id
}

/// Every execute message keeps each video under its own id.
pub proof fn law_videos_keyed_by_id(s: MarketView, info: MessageInfo, msg: ExecuteMsg)
    requires
        videos_keyed_by_id(s),
    ensures
        videos_keyed_by_id(after(s, execute_outcome(s, info, msg))),
{
    let t = after(s, execute_outcome(s, info, msg));
    assert forall|id: u64| #[trigger] t.videos.contains_key(id) implies t.videos[id].id == id by {
        assert(s.videos.contains_key(id) ==> s.videos[id].id == id);
    }
}

/// What the deposits selected from a listing come from, and that none is
/// left out.
proof fn lemma_select_deposits(
    s: Seq<(DepositKeyView, DepositView)>,
    collection: Seq<char>,
    owner: Seq<char>,
)
    ensures
        forall|i: int|
            0 <= i < select_deposits(s, collection, owner).len() ==> exists|j: int|
                0 <= j < s.len() && s[j].0 == (collection, owner, #[trigger] select_deposits(
                    s,
                    collection,
                    owner,
                )[i].0) && s[j].1 == select_deposits(s, collection, owner)[i].1,
        forall|j: int|
            0 <= j < s.len() && (#[trigger] s[j]).0.0 == collection && s[j].0.1 == owner
                ==> exists|i: int|
                0 <= i < select_deposits(s, collection, owner).len() && #[trigger] select_deposits(
                    s,
                    collection,
                    owner,
                )[i] == (s[j].0.2, s[j].1),
    decreases s.len(),
{
    if s.len() > 0 {
        let p = s.drop_last();
        lemma_select_deposits(p, collection, owner);
        let sel = select_deposits(s, collection, owner);
        let rest = select_deposits(p, collection, owner);
        assert forall|i: int| 0 <= i < sel.len() implies exists|j: int|
            0 <= j < s.len() && s[j].0 == (collection, owner, #[trigger] sel[i].0) && s[j].1
                == sel[i].1 by {
            if i < rest.len() {
                assert(sel[i] == rest[i]);
                let j = choose|j: int|
                    0 <= j < p.len() && p[j].0 == (collection, owner, #[trigger] rest[i].0) && p[j].1
                        == rest[i].1;
                assert(s[j] == p[j]);
            } else {
                assert(s[s.len() - 1].0 == (collection, owner, sel[i].0));
            }
        }
        assert forall|j: int|
            0 <= j < s.len() && (#[trigger] s[j]).0.0 == collection && s[j].0.1 == owner
                implies exists|i: int| 0 <= i < sel.len() && #[trigger] sel[i] == (s[j].0.2, s[j].1) by {
            if j < s.len() - 1 {
                assert(p[j] == s[j]);
                let i = choose|i: int|
                    0 <= i < rest.len() && #[trigger] rest[i] == (p[j].0.2, p[j].1);
                assert(sel[i] == rest[i]);
            } else {
                assert(sel[sel.len() - 1] == (s[j].0.2, s[j].1));
            }
        }
    }
}

/// The deposits query answers with exactly the deposits of `owner` in
/// `collection`, each once, with its token id.
pub proof fn law_deposit_query_is_exact(
    m: Marketplace,
    owner: Seq<char>,
    collection: Seq<char>,
    r: Cw721DepositResponse,
)
    requires
        m.wf(),
        deposits_answer(m, owner, collection, r),
    ensures
        ({
            let answer = r.deposits@.map_values(|e: (String, Cw721Deposits)| (e.0@, e.1@));
            &&& forall|i: int|
                0 <= i < answer.len() ==> m@.deposits.contains_key(
                    (collection, owner, #[trigger] answer[i].0),
                ) && m@.deposits[(collection, owner, answer[i].0)] == answer[i].1
            &&& forall|t: Seq<char>|
                #[trigger] m@.deposits.contains_key((collection, owner, t)) ==> exists|i: int|
                    0 <= i < answer.len() && answer[i].0 == t
        }),
{
    let answer = r.deposits@.map_values(|e: (String, Cw721Deposits)| (e.0@, e.1@));
    let s = m.deposit_listing();
    m.lemma_listings();
    lemma_select_deposits(s, collection, owner);
    assert forall|i: int| 0 <= i < answer.len() implies m@.deposits.contains_key(
        (collection, owner, #[trigger] answer[i].0),
    ) && m@.deposits[(collection, owner, answer[i].0)] == answer[i].1 by {
        let j = choose|j: int|
            0 <= j < s.len() && s[j].0 == (collection, owner, #[trigger] select_deposits(
                s,
                collection,
                owner,
            )[i].0) && s[j].1 == select_deposits(s, collection, owner)[i].1;
        crate::store::lemma_lookup::<DepositKey, DepositView>(s, j);
    }
    assert forall|t: Seq<char>| #[trigger] m@.deposits.contains_key((collection, owner, t)) implies exists|i: int|
        0 <= i < answer.len() && answer[i].0 == t by {
        let j = choose|j: int| 0 <= j < s.len() && s[j].0 == (collection, owner, t);
        assert(s[j].0.0 == collection && s[j].0.1 == owner);
        let i = choose|i: int|
            0 <= i < select_deposits(s, collection, owner).len() && #[trigger] select_deposits(
                s,
                collection,
                owner,
            )[i] == (s[j].0.2, s[j].1);
        assert(answer[i].0 == t);
    }
}

/// What the videos selected from a listing come from, and that none of the
/// owner's is left out.
proof fn lemma_select_videos(s: Seq<(u64, VideoView)>, owner: Seq<char>)
    ensures
        forall|i: int|
            0 <= i < select_videos(s, owner).len() ==> exists|j: int|
                0 <= j < s.len() && s[j].1 == #[trigger] select_videos(s, owner)[i],
        forall|i: int|
            0 <= i < select_videos(s, owner).len() ==> (#[trigger] select_videos(s, owner)[i]).owner
                == owner,
        forall|j: int|
            0 <= j < s.len() && (#[trigger] s[j]).1.owner == owner ==> exists|i: int|
                0 <= i < select_videos(s, owner).len() && #[trigger] select_videos(s, owner)[i]
                    == s[j].1,
    decreases s.len(),
{
    if s.len() > 0 {
        let p = s.drop_last();
        lemma_select_videos(p, owner);
        let sel = select_videos(s, owner);
        let rest = select_videos(p, owner);
        assert forall|i: int| 0 <= i < sel.len() implies (exists|j: int|
            0 <= j < s.len() && s[j].1 == #[trigger] sel[i]) && sel[i].owner == owner by {
            if i < rest.len() {
                assert(sel[i] == rest[i]);
                let j = choose|j: int| 0 <= j < p.len() && p[j].1 == #[trigger] rest[i];
                assert(s[j] == p[j]);
            } else {
                assert(s[s.len() - 1].1 == sel[i]);
            }
        }
        assert forall|j: int| 0 <= j < s.len() && (#[trigger] s[j]).1.owner == owner implies exists|
            i: int,
        | 0 <= i < sel.len() && #[trigger] sel[i] == s[j].1 by {
            if j < s.len() - 1 {
                assert(p[j] == s[j]);
                let i = choose|i: int| 0 <= i < rest.len() && #[trigger] rest[i] == p[j].1;
                assert(sel[i] == rest[i]);
            } else {
                assert(sel[sel.len() - 1] == s[j].1);
            }
        }
    }
}

/// The query for the videos of an owner answers with exactly that owner's
/// videos of the catalogue.
pub proof fn law_owner_query_is_exact(m: Marketplace, owner: Seq<char>, r: OwnerVideosResponse)
    requires
        m.wf(),
        videos_view(r.videos@) == select_videos(m.video_listing(), owner),
    ensures
        forall|i: int|
            0 <= i < r.videos@.len() ==> (#[trigger] videos_view(r.videos@)[i]).owner == owner
                && exists|id: u64|
                m@.videos.contains_key(id) && m@.videos[id] == videos_view(r.videos@)[i],
        forall|id: u64|
            #[trigger] m@.videos.contains_key(id) && m@.videos[id].owner == owner ==> exists|
                i: int,
            | 0 <= i < r.videos@.len() && videos_view(r.videos@)[i] == m@.videos[id],
{
    let s = m.video_listing();
    let answer = videos_view(r.videos@);
    m.lemma_listings();
    lemma_select_videos(s, owner);
    assert forall|i: int| 0 <= i < r.videos@.len() implies (#[trigger] answer[i]).owner == owner
        && exists|id: u64| m@.videos.contains_key(id) && m@.videos[id] == answer[i] by {
        assert(answer[i] == select_videos(s, owner)[i]);
        let j = choose|j: int| 0 <= j < s.len() && s[j].1 == #[trigger] select_videos(s, owner)[i];
        crate::store::lemma_lookup::<u64, VideoView>(s, j);
        assert(m@.videos.contains_key(s[j].0) && m@.videos[s[j].0] == answer[i]);
    }
    assert forall|id: u64| #[trigger] m@.videos.contains_key(id) && m@.videos[id].owner == owner
        implies exists|i: int| 0 <= i < r.videos@.len() && answer[i] == m@.videos[id] by {
        let j = choose|j: int| 0 <= j < s.len() && s[j].0 == id;
        crate::store::lemma_lookup::<u64, VideoView>(s, j);
        assert(s[j].1.owner == owner);
        let i = choose|i: int| 0 <= i < select_videos(s, owner).len() && #[trigger] select_videos(
            s,
            owner,
        )[i] == s[j].1;
        assert(answer[i] == m@.videos[id]);
    }
}

/// The query for all videos answers with every video of the catalogue once,
/// by ascending id.
pub proof fn law_all_videos_are_listed(m: Marketplace, r: GetAllVideosResponse)
    requires
        m.wf(),
        videos_view(r.videos@) == video_values(m.video_listing()),
    ensures
        keys_ascending::<u64, VideoView>(m.video_listing()),
        map_of(m.video_listing()) == m@.videos,
        videos_view(r.videos@) == m.video_listing().map_values(|e: (u64, VideoView)| e.1),
{
    m.lemma_listings();
}

/// The answer to the query for all asks holds every ask exactly once, in
/// ascending key order.
pub proof fn law_all_asks_are_listed(m: Marketplace, r: GetAllAsksResponse)
    requires
        m.wf(),
        all_asks_answer(m, r),
    ensures
        keys_ascending::<AskKey, AskView>(r.asks@.map_values(|e: (AskKey, Ask)| (e.0@, e.1@))),
        map_of(r.asks@.map_values(|e: (AskKey, Ask)| (e.0@, e.1@))) == m@.asks,
{
    m.lemma_listings();
}


/// A sold token cannot be bought again: once a purchase in CW20 tokens goes
/// through, both kinds of purchase of that token are refused as unlisted.
pub proof fn law_sold_listing_stays_sold(
    s: MarketView,
    sender: Seq<char>,
    cw721_contract: Seq<char>,
    token_id: Seq<char>,
    buyer: Seq<char>,
    amount: u128,
    later_sender: Seq<char>,
    later_buyer: Seq<char>,
    later_amount: u128,
)
    ensures
        purchase_outcome(s, sender, cw721_contract, token_id, buyer, amount) matches Outcome::Done {
            state,
            ..
        } ==> {
            &&& purchase_outcome(
                state,
                later_sender,
                cw721_contract,
                token_id,
                later_buyer,
                later_amount,
            ) == Outcome::Refused(crate::error::custom("No such ask"@))
            &&& purchase_native_outcome(state, later_buyer, later_amount, cw721_contract, token_id)
                == Outcome::Refused(crate::error::ContractErrorView::TokenNotListedForSale)
        },
{
}

/// An unlisted token stays unlisted under every execute message but a
/// listing of that very token by its collection contract.
pub proof fn law_unlisted_stays_unlisted(
    s: MarketView,
    info: MessageInfo,
    msg: ExecuteMsg,
    key: (Seq<char>, Seq<char>),
)
    requires
        !s.asks.contains_key(key),
        !(info.sender@ == key.0 && (msg matches ExecuteMsg::ReceiveNft {
            hook: Some(Cw721HookMsg::SetListing { token_id, .. }),
            ..
        } && token_id@ == key.1)),
    ensures
        !after(s, execute_outcome(s, info, msg)).asks.contains_key(key),
{
}

/// Only a collection contract lists: where an execute message leaves an ask
/// that was not there, or another one, the message is a listing by the
/// collection named in the ask's key, of the token named there.
pub proof fn law_only_the_collection_lists(
    s: MarketView,
    info: MessageInfo,
    msg: ExecuteMsg,
    key: (Seq<char>, Seq<char>),
)
    ensures
        ({
            let t = after(s, execute_outcome(s, info, msg));
            t.asks.contains_key(key) && (!s.asks.contains_key(key) || t.asks[key] != s.asks[key])
                ==> info.sender@ == key.0 && (msg matches ExecuteMsg::ReceiveNft {
                hook: Some(Cw721HookMsg::SetListing { token_id, .. }),
                ..
            } && token_id@ == key.1)
        }),
{
}

/// Every deposit record names its own key.
pub open spec fn deposits_keyed(s: MarketView) -> bool {
    forall|k: (Seq<char>, Seq<char>, Seq<char>)| #[trigger]
        s.deposits.contains_key(k) ==> s.deposits[k] == DepositView {
            owner: k.1,
            collection: k.0,
            token_id: k.2,
        }
}

/// Every execute message keeps each deposit record naming its own key.
pub proof fn law_deposits_stay_keyed(s: MarketView, info: MessageInfo, msg: ExecuteMsg)
    requires
        deposits_keyed(s),
    ensures
        deposits_keyed(after(s, execute_outcome(s, info, msg))),
{
    let t = after(s, execute_outcome(s, info, msg));
    assert forall|k: (Seq<char>, Seq<char>, Seq<char>)| #[trigger] t.deposits.contains_key(k) implies t.deposits[k]
        == DepositView { owner: k.1, collection: k.0, token_id: k.2 } by {
        assert(s.deposits.contains_key(k) ==> s.deposits[k] == DepositView {
            owner: k.1,
            collection: k.0,
            token_id: k.2,
        });
    }
}

/// The video counter never goes down: an upload raises it by one and every
/// other message leaves it as it is.
pub proof fn law_counter_never_decreases(s: MarketView, info: MessageInfo, msg: ExecuteMsg)
    requires
        execute_admissible(s, info, msg),
    ensures
        after(s, execute_outcome(s, info, msg)).video_count == if msg is UploadVideo {
            s.video_count + 1
        } else {
            s.video_count as int
        },
        after(s, execute_outcome(s, info, msg)).video_count >= s.video_count,
{
}

/// Only a payment grants a right to watch: where an execute message lets
/// `viewer` watch video `video_id` who could not before, the video exists and
/// the message is either the viewer's own payment of its price in the native
/// coin, sent on to the owner, or a CW20 receipt of its price for that video
/// from the viewer's validated address, whose tokens go to the owner.
pub proof fn law_only_payments_grant_access(
    s: MarketView,
    info: MessageInfo,
    msg: ExecuteMsg,
    video_id: u64,
    viewer: Seq<char>,
)
    requires
        !s.has_access(video_id, viewer),
    ensures
        execute_outcome(s, info, msg) matches Outcome::Done { state, response } ==> (state.has_access(
            video_id,
            viewer,
        ) ==> {
            let video = s.videos[video_id];
            &&& s.videos.contains_key(video_id)
            &&& {
                ||| {
                    &&& msg matches ExecuteMsg::PayForViewNative { video_id: id } && id == video_id
                    &&& viewer == info.sender@
                    &&& paid(coins_view(info.funds@), s.native_denom) == video.price
                    &&& response.messages == seq![
                        bank_send(video.owner, s.native_denom, video.price),
                    ]
                }
                ||| {
                    &&& msg matches ExecuteMsg::Receive {
                        receipt,
                        hook: Some(Cw20HookMsg::PayForView { video_id: id }),
                        sender_address: Ok(address),
                    } && id == video_id && address@ == viewer && receipt.amount == video.price
                    &&& response.messages == seq![
                        wasm_execute(info.sender@, cw20_transfer_json(video.owner, video.price)),
                    ]
                }
            }
        }),
{
}

/// Only its owner takes a video out of the catalogue: where an execute
/// message removes a video, it is the owner's own removal of that video.
pub proof fn law_only_the_owner_removes(
    s: MarketView,
    info: MessageInfo,
    msg: ExecuteMsg,
    video_id: u64,
)
    requires
        s.videos.contains_key(video_id),
    ensures
        !after(s, execute_outcome(s, info, msg)).videos.contains_key(video_id) ==> (msg matches ExecuteMsg::RemoveVideo {
            video_id: id,
        } && id == video_id && info.sender@ == s.videos[video_id].owner),
{
}

/// Each execute message is handled by the rule of its kind, with the fields
/// of the message and the caller passed on.
pub proof fn law_execute_dispatches(s: MarketView, info: MessageInfo, msg: ExecuteMsg)
    ensures
        execute_outcome(s, info, msg) == match msg {
            ExecuteMsg::Receive { receipt, hook, sender_address } => receive_cw20_outcome(
                s,
                info.sender@,
                receipt,
                hook,
                sender_address,
            ),
            ExecuteMsg::ReceiveNft { receipt, hook } => receive_cw721_outcome(s, info.sender@, hook),
            ExecuteMsg::PurchaseNative { collection, token_id } => purchase_native_outcome(
                s,
                info.sender@,
                paid(coins_view(info.funds@), s.native_denom),
                collection@,
                token_id@,
            ),
            ExecuteMsg::RemoveListing { collection, token_id } => remove_listing_outcome(
                s,
                info.sender@,
                collection@,
                token_id@,
            ),
            ExecuteMsg::UploadVideo {
                title,
                description,
                price,
                video_ipfs_hash,
                thumbnail_ipfs_hash,
            } => upload_video_outcome(
                s,
                info.sender@,
                title@,
                description@,
                price,
                video_ipfs_hash@,
                thumbnail_ipfs_hash@,
            ),
            ExecuteMsg::PayForViewNative { video_id } => pay_for_view_native_outcome(
                s,
                info.sender@,
                paid(coins_view(info.funds@), s.native_denom),
                video_id,
            ),
            ExecuteMsg::RemoveVideo { video_id } => remove_video_outcome(s, info.sender@, video_id),
        },
{
}

/// A CW20 receipt is a purchase or a payment to watch, as its hook says,
/// with the receipt's sender as buyer and its amount as the payment.
pub proof fn law_receive_cw20_dispatches(
    s: MarketView,
    sender: Seq<char>,
    receipt: Cw20ReceiveMsg,
    hook: Cw20HookMsg,
    sender_address: Result<String, crate::error::StdError>,
)
    ensures
        receive_cw20_outcome(s, sender, receipt, Some(hook), sender_address) == match hook {
            Cw20HookMsg::Purchase { cw721_contract, token_id } => purchase_outcome(
                s,
                sender,
                cw721_contract@,
                token_id@,
                receipt.sender@,
                receipt.amount,
            ),
            Cw20HookMsg::PayForView { video_id } => pay_for_view_outcome(
                s,
                sender,
                std_result_view(sender_address),
                video_id,
                receipt.amount,
            ),
        },
{
}

/// A CW721 receipt is the listing its hook names; the receipt's own sender
/// and token id make no difference.
pub proof fn law_receive_cw721_is_listing(
    s: MarketView,
    info: MessageInfo,
    receipt: Cw721ReceiveMsg,
    other: Cw721ReceiveMsg,
    owner: String,
    token_id: String,
    cw20_contract: Option<String>,
    amount: u128,
)
    ensures
        ({
            let hook = Cw721HookMsg::SetListing { owner, token_id, cw20_contract, amount };
            &&& execute_outcome(s, info, ExecuteMsg::ReceiveNft { receipt, hook: Some(hook) })
                == set_listing_outcome(
                s,
                info.sender@,
                owner@,
                token_id@,
                cw20_contract.deep_view(),
                amount,
            )
            &&& execute_outcome(s, info, ExecuteMsg::ReceiveNft { receipt, hook: Some(hook) })
                == execute_outcome(s, info, ExecuteMsg::ReceiveNft { receipt: other, hook: Some(hook) })
        }),
{
}

/// Each query is answered by the query of its kind.
pub proof fn law_query_dispatches(m: Marketplace, msg: QueryMsg, r: QueryResponse)
    ensures
        query_answer(m, msg, r) == match (msg, r) {
            (QueryMsg::Cw721Deposits { owner, collection }, QueryResponse::Cw721Deposits(d)) => {
                deposits_answer(m, owner@, collection@, d)
            },
            (QueryMsg::Ask { collection, token_id }, QueryResponse::Ask(a)) => optional_ask_view(
                a.ask,
            ) == ask_at(m@, (collection@, token_id@)),
            (QueryMsg::GetAllAsks, QueryResponse::AllAsks(a)) => all_asks_answer(m, a),
            (QueryMsg::GetVideo { video_id }, QueryResponse::Video(v)) => optional_video_view(
                v.video,
            ) == video_at(m@, video_id) && !v.has_access,
            (QueryMsg::GetAllVideos, QueryResponse::AllVideos(v)) => videos_view(v.videos@)
                == video_values(m.video_listing()),
            (QueryMsg::CheckVideoAccess { video_id, viewer }, QueryResponse::VideoAccess(a)) => (
            viewer matches Ok(v) && a.has_access == m@.has_access(video_id, v@)),
            (QueryMsg::GetVideosByOwner { owner }, QueryResponse::OwnerVideos(v)) => videos_view(
                v.videos@,
            ) == select_videos(m.video_listing(), owner@),
            _ => false,
        },
{
}

/// The state after a sequence of execute messages.
pub open spec fn run(s: MarketView, calls: Seq<(MessageInfo, ExecuteMsg)>) -> MarketView
    decreases calls.len(),
{
    if calls.len() == 0 {
        s
    } else {
        let before = run(s, calls.drop_last());
        after(before, execute_outcome(before, calls.last().0, calls.last().1))
    }
}

/// Every message of the sequence is one the contract does not panic on.
pub open spec fn admissible_run(s: MarketView, calls: Seq<(MessageInfo, ExecuteMsg)>) -> bool
    decreases calls.len(),
{
    if calls.len() == 0 {
        true
    } else {
        admissible_run(s, calls.drop_last()) && execute_admissible(
            run(s, calls.drop_last()),
            calls.last().0,
            calls.last().1,
        )
    }
}

/// The ids that the uploads of a sequence of messages get, in call order.
pub open spec fn upload_ids(s: MarketView, calls: Seq<(MessageInfo, ExecuteMsg)>) -> Seq<u64>
    decreases calls.len(),
{
    if calls.len() == 0 {
        seq![]
    } else {
        let ids = upload_ids(s, calls.drop_last());
        if calls.last().1 is UploadVideo {
            ids.push(run(s, calls.drop_last()).video_count)
        } else {
            ids
        }
    }
}

/// Uploads over any sequence of messages, removals included, get the ids
/// counting up from the counter, one each: after instantiation (counter 0)
/// the k uploads get 0, 1, ..., k - 1. Each upload goes through and reports
/// its id.
pub proof fn law_upload_ids_count_up(s: MarketView, calls: Seq<(MessageInfo, ExecuteMsg)>)
    requires
        admissible_run(s, calls),
    ensures
        upload_ids(s, calls) == Seq::new(
            upload_ids(s, calls).len(),
            |i: int| (s.video_count + i) as u64,
        ),
        run(s, calls).video_count == s.video_count + upload_ids(s, calls).len(),
    decreases calls.len(),
{
    if calls.len() > 0 {
        let p = calls.drop_last();
        law_upload_ids_count_up(s, p);
        law_counter_never_decreases(run(s, p), calls.last().0, calls.last().1);
        assert(upload_ids(s, calls) =~= Seq::new(
            upload_ids(s, calls).len(),
            |i: int| (s.video_count + i) as u64,
        ));
    } else {
        assert(upload_ids(s, calls) =~= Seq::<u64>::empty());
    }
}

/// An upload always goes through and reports the id it took.
pub proof fn law_upload_reports_its_id(
    s: MarketView,
    owner: Seq<char>,
    title: Seq<char>,
    description: Seq<char>,
    price: u128,
    video_ipfs_hash: Seq<char>,
    thumbnail_ipfs_hash: Seq<char>,
)
    ensures
        upload_video_outcome(
            s,
            owner,
            title,
            description,
            price,
            video_ipfs_hash,
            thumbnail_ipfs_hash,
        ) matches Outcome::Done { state, response } && state.videos.contains_key(s.video_count)
            && state.videos[s.video_count].id == s.video_count && response.attributes.contains(
            ("video_id"@, crate::external::decimal(s.video_count as nat)),
        ),
{
    let o = upload_video_outcome(
        s,
        owner,
        title,
        description,
        price,
        video_ipfs_hash,
        thumbnail_ipfs_hash,
    );
    assert(o->response.attributes[2] == ("video_id"@, crate::external::decimal(s.video_count as nat)));
}


/// A native purchase goes through only when the token is listed and the
/// funds sent are exactly the ask's price; sending more or less is refused as
/// an invalid amount. Where it goes through, the NFT goes to the buyer and the
/// seller is sent the whole amount paid, in the native coin.
pub proof fn law_native_purchase_pays_exact_price(
    s: MarketView,
    buyer: Seq<char>,
    funds: u128,
    collection: Seq<char>,
    token_id: Seq<char>,
)
    ensures
        purchase_native_outcome(s, buyer, funds, collection, token_id) is Done ==> {
            &&& s.asks.contains_key((collection, token_id))
            &&& funds == s.asks[(collection, token_id)].price
        },
        s.asks.contains_key((collection, token_id)) && funds != s.asks[(
            collection,
            token_id,
        )].price ==> purchase_native_outcome(s, buyer, funds, collection, token_id)
            == Outcome::Refused(custom("Invalid amount"@)),
        s.asks.contains_key((collection, token_id)) && funds == s.asks[(
            collection,
            token_id,
        )].price ==> (purchase_native_outcome(
            s,
            buyer,
            funds,
            collection,
            token_id,
        ) matches Outcome::Done { response, .. } && response.messages == seq![
            wasm_execute(
                collection,
                cw721_transfer_json(buyer, s.asks[(collection, token_id)].token_id),
            ),
            bank_send(s.asks[(collection, token_id)].seller, s.native_denom, funds),
        ]),
{
}

/// A CW20 payment of a listed token's price goes through, whichever CW20
/// contract the ask names: the NFT goes to the buyer, the payment is passed on
/// to the seller through the reporting CW20 contract, and the ask and the
/// seller's deposit are removed, nothing else.
pub proof fn law_cw20_purchase_at_price_goes_through(
    s: MarketView,
    sender: Seq<char>,
    cw721_contract: Seq<char>,
    token_id: Seq<char>,
    buyer: Seq<char>,
    amount: u128,
)
    requires
        s.asks.contains_key((cw721_contract, token_id)),
        amount == s.asks[(cw721_contract, token_id)].price,
    ensures
        purchase_outcome(s, sender, cw721_contract, token_id, buyer, amount) matches Outcome::Done {
            state,
            response,
        } && {
            let seller = s.asks[(cw721_contract, token_id)].seller;
            &&& !state.asks.contains_key((cw721_contract, token_id))
            &&& !state.deposits.contains_key((cw721_contract, seller, token_id))
            &&& state.asks == s.asks.remove((cw721_contract, token_id))
            &&& state.deposits == s.deposits.remove((cw721_contract, seller, token_id))
            &&& state.videos == s.videos
            &&& state.access == s.access
            &&& response.messages == seq![
                wasm_execute(cw721_contract, cw721_transfer_json(buyer, token_id)),
                wasm_execute(sender, cw20_transfer_json(seller, amount)),
            ]
        },
{
}

/// The owner of a video can always remove it: the video leaves the catalogue
/// and nothing else changes.
pub proof fn law_owner_removes_own_video(s: MarketView, sender: Seq<char>, video_id: u64)
    requires
        s.videos.contains_key(video_id),
        s.videos[video_id].owner == sender,
    ensures
        remove_video_outcome(s, sender, video_id) matches Outcome::Done { state, .. } && {
            &&& !state.videos.contains_key(video_id)
            &&& state.videos == s.videos.remove(video_id)
            &&& state.asks == s.asks
            &&& state.deposits == s.deposits
            &&& state.access == s.access
            &&& state.video_count == s.video_count
        },
{
}

/// The catalogue lists the videos by strictly ascending numeric id.
pub proof fn law_video_listing_by_ascending_id(m: Marketplace)
    requires
        m.wf(),
    ensures
        forall|i: int, j: int|
            0 <= i < j < m.video_listing().len() ==> #[trigger] m.video_listing()[i].0
                < #[trigger] m.video_listing()[j].0,
{
    m.lemma_listings();
    let s = m.video_listing();
    assert forall|i: int, j: int| 0 <= i < j < s.len() implies #[trigger] s[i].0 < #[trigger] s[j].0 by {
        assert(<u64 as crate::store::StoreKey>::precedes(s[i].0, s[j].0));
    }
}

/// Where every video is stored under its own id, the catalogue's entries
/// carry their keys as ids, so its videos come by strictly ascending id.
proof fn lemma_listing_ids_ascending(m: Marketplace)
    requires
        m.wf(),
        videos_keyed_by_id(m@),
    ensures
        forall|i: int|
            0 <= i < m.video_listing().len() ==> (#[trigger] m.video_listing()[i]).1.id
                == m.video_listing()[i].0,
        forall|i: int, j: int|
            #![trigger m.video_listing()[i], m.video_listing()[j]]
            0 <= i < j < m.video_listing().len() ==> m.video_listing()[i].1.id
                < m.video_listing()[j].1.id,
{
    m.lemma_listings();
    law_video_listing_by_ascending_id(m);
    let s = m.video_listing();
    assert forall|i: int| 0 <= i < s.len() implies (#[trigger] s[i]).1.id == s[i].0 by {
        crate::store::lemma_lookup::<u64, VideoView>(s, i);
        assert(m@.videos.contains_key(s[i].0));
    }
    assert forall|i: int, j: int|
        #![trigger s[i], s[j]]
        0 <= i < j < s.len() implies s[i].1.id < s[j].1.id by {
        assert(s[i].0 < s[j].0);
    }
}

/// Selecting an owner's videos from a listing ordered by id keeps them
/// ordered by id.
proof fn lemma_select_videos_ascending(s: Seq<(u64, VideoView)>, owner: Seq<char>)
    requires
        forall|i: int, j: int| #![trigger s[i], s[j]] 0 <= i < j < s.len() ==> s[i].1.id < s[j].1.id,
    ensures
        forall|i: int, j: int|
            #![trigger select_videos(s, owner)[i], select_videos(s, owner)[j]]
            0 <= i < j < select_videos(s, owner).len() ==> select_videos(s, owner)[i].id
                < select_videos(s, owner)[j].id,
    decreases s.len(),
{
    if s.len() > 0 {
        let p = s.drop_last();
        assert forall|i: int, j: int| #![trigger p[i], p[j]] 0 <= i < j < p.len() implies p[i].1.id
            < p[j].1.id by {
            assert(p[i] == s[i] && p[j] == s[j]);
        }
        lemma_select_videos_ascending(p, owner);
        lemma_select_videos(p, owner);
        let sel = select_videos(s, owner);
        let rest = select_videos(p, owner);
        if s.last().1.owner == owner {
            assert forall|i: int, j: int|
                #![trigger sel[i], sel[j]]
                0 <= i < j < sel.len() implies sel[i].id < sel[j].id by {
                assert(sel[i] == rest[i]);
                if j < rest.len() {
                    assert(sel[j] == rest[j]);
                } else {
                    let k = choose|k: int| 0 <= k < p.len() && p[k].1 == #[trigger] rest[i];
                    assert(s[k] == p[k]);
                    assert(sel[j] == s[s.len() - 1].1);
                }
            }
        } else {
            assert(sel == rest);
        }
    }
}

/// The answer to the query for all videos comes by strictly ascending id.
pub proof fn law_all_videos_by_ascending_id(m: Marketplace, r: GetAllVideosResponse)
    requires
        m.wf(),
        videos_keyed_by_id(m@),
        videos_view(r.videos@) == video_values(m.video_listing()),
    ensures
        forall|i: int, j: int|
            0 <= i < j < r.videos@.len() ==> #[trigger] r.videos@[i].id < #[trigger] r.videos@[j].id,
{
    lemma_listing_ids_ascending(m);
    let s = m.video_listing();
    assert(r.videos@.len() == videos_view(r.videos@).len());
    assert(video_values(s).len() == s.len());
    assert forall|i: int, j: int| 0 <= i < j < r.videos@.len() implies #[trigger] r.videos@[i].id
        < #[trigger] r.videos@[j].id by {
        assert(videos_view(r.videos@)[i] == r.videos@[i]@);
        assert(videos_view(r.videos@)[j] == r.videos@[j]@);
        assert(video_values(s)[i] == s[i].1);
        assert(video_values(s)[j] == s[j].1);
    }
}

/// The answer to the query for an owner's videos comes by strictly ascending
/// id.
pub proof fn law_owner_videos_by_ascending_id(
    m: Marketplace,
    owner: Seq<char>,
    r: OwnerVideosResponse,
)
    requires
        m.wf(),
        videos_keyed_by_id(m@),
        videos_view(r.videos@) == select_videos(m.video_listing(), owner),
    ensures
        forall|i: int, j: int|
            0 <= i < j < r.videos@.len() ==> #[trigger] r.videos@[i].id < #[trigger] r.videos@[j].id,
{
    lemma_listing_ids_ascending(m);
    let s = m.video_listing();
    lemma_select_videos_ascending(s, owner);
    let sel = select_videos(s, owner);
    assert forall|i: int, j: int| 0 <= i < j < r.videos@.len() implies #[trigger] r.videos@[i].id
        < #[trigger] r.videos@[j].id by {
        assert(videos_view(r.videos@)[i] == r.videos@[i]@);
        assert(videos_view(r.videos@)[j] == r.videos@[j]@);
        assert(sel[i].id < sel[j].id);
    }
}

/// Two entries of an ascending listing have different keys.
proof fn lemma_keys_distinct<K: crate::store::StoreKey, W>(s: Seq<(K::V, W)>, i: int, j: int)
    requires
        keys_ascending::<K, W>(s),
        0 <= i < s.len(),
        0 <= j < s.len(),
        i != j,
    ensures
        s[i].0 != s[j].0,
{
    K::lemma_irreflexive(s[i].0);
    if i < j {
        assert(K::precedes(s[i].0, s[j].0));
    } else {
        assert(K::precedes(s[j].0, s[i].0));
    }
}

/// The deposits selected from a listing whose keys are distinct carry
/// distinct token ids.
proof fn lemma_select_deposits_distinct(
    s: Seq<(DepositKeyView, DepositView)>,
    collection: Seq<char>,
    owner: Seq<char>,
)
    requires
        keys_ascending::<DepositKey, DepositView>(s),
    ensures
        forall|i: int, j: int|
            #![trigger select_deposits(s, collection, owner)[i], select_deposits(s, collection, owner)[j]]
            0 <= i < select_deposits(s, collection, owner).len() && 0 <= j < select_deposits(
                s,
                collection,
                owner,
            ).len() && i != j ==> select_deposits(s, collection, owner)[i].0 != select_deposits(
                s,
                collection,
                owner,
            )[j].0,
    decreases s.len(),
{
    if s.len() > 0 {
        let p = s.drop_last();
        assert(keys_ascending::<DepositKey, DepositView>(p)) by {
            assert forall|i: int, j: int| 0 <= i < j < p.len() implies #[trigger] <DepositKey as crate::store::StoreKey>::precedes(
                p[i].0,
                p[j].0,
            ) by {
                assert(p[i] == s[i] && p[j] == s[j]);
            }
        }
        lemma_select_deposits_distinct(p, collection, owner);
        lemma_select_deposits(p, collection, owner);
        let sel = select_deposits(s, collection, owner);
        let rest = select_deposits(p, collection, owner);
        let e = s.last();
        if e.0.0 == collection && e.0.1 == owner {
            assert forall|i: int, j: int|
                #![trigger sel[i], sel[j]]
                0 <= i < sel.len() && 0 <= j < sel.len() && i != j implies sel[i].0 != sel[j].0 by {
                if i < rest.len() && j < rest.len() {
                    assert(sel[i] == rest[i] && sel[j] == rest[j]);
                } else {
                    let a = if i < rest.len() { i } else { j };
                    assert(a < rest.len());
                    assert(sel[a] == rest[a]);
                    let k = choose|k: int|
                        0 <= k < p.len() && p[k].0 == (collection, owner, #[trigger] rest[a].0)
                            && p[k].1 == rest[a].1;
                    assert(s[k] == p[k]);
                    lemma_keys_distinct::<DepositKey, DepositView>(s, k, s.len() - 1);
                    assert(sel[sel.len() - 1].0 == e.0.2);
                }
            }
        } else {
            assert(sel == rest);
        }
    }
}

/// The deposits query names each deposit once: its token ids are pairwise
/// distinct, and there are as many as the owner has deposits in the
/// collection.
pub proof fn law_deposit_query_names_each_once(
    m: Marketplace,
    owner: Seq<char>,
    collection: Seq<char>,
    r: Cw721DepositResponse,
)
    requires
        m.wf(),
        deposits_answer(m, owner, collection, r),
    ensures
        forall|i: int, j: int|
            0 <= i < r.deposits@.len() && 0 <= j < r.deposits@.len() && i != j
                ==> #[trigger] r.deposits@[i].0@ != #[trigger] r.deposits@[j].0@,
        r.deposits@.len() == Set::new(
            |t: Seq<char>| m@.deposits.contains_key((collection, owner, t)),
        ).len(),
{
    let answer = r.deposits@.map_values(|e: (String, Cw721Deposits)| (e.0@, e.1@));
    let s = m.deposit_listing();
    m.lemma_listings();
    law_deposit_query_is_exact(m, owner, collection, r);
    lemma_select_deposits_distinct(s, collection, owner);
    assert forall|i: int, j: int|
        0 <= i < r.deposits@.len() && 0 <= j < r.deposits@.len() && i != j
            implies #[trigger] r.deposits@[i].0@ != #[trigger] r.deposits@[j].0@ by {
        assert(answer[i].0 == r.deposits@[i].0@);
        assert(answer[j].0 == r.deposits@[j].0@);
        assert(answer[i] == select_deposits(s, collection, owner)[i]);
        assert(answer[j] == select_deposits(s, collection, owner)[j]);
    }
    let tokens = answer.map_values(|e: (Seq<char>, DepositView)| e.0);
    let held = Set::new(|t: Seq<char>| m@.deposits.contains_key((collection, owner, t)));
    assert(tokens.no_duplicates()) by {
        assert forall|i: int, j: int|
            0 <= i < tokens.len() && 0 <= j < tokens.len() && i != j implies tokens[i] != tokens[j] by {
            assert(tokens[i] == r.deposits@[i].0@);
            assert(tokens[j] == r.deposits@[j].0@);
        }
    }
    tokens.unique_seq_to_set();
    assert(tokens.to_set() =~= held) by {
        assert forall|t: Seq<char>| tokens.to_set().contains(t) implies held.contains(t) by {
            let i = choose|i: int| 0 <= i < tokens.len() && tokens[i] == t;
            assert(answer[i].0 == t);
        }
        assert forall|t: Seq<char>| held.contains(t) implies tokens.to_set().contains(t) by {
            assert(m@.deposits.contains_key((collection, owner, t)));
            let i = choose|i: int| 0 <= i < answer.len() && answer[i].0 == t;
            assert(tokens[i] == t);
        }
    }
}

} // verus!
