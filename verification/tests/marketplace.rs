use nft_marketplace::contract::{
    decide_migration, instantiate, migrate, ContractVersion, CONTRACT_NAME, CONTRACT_VERSION,
};
use nft_marketplace::error::{ContractError, PaymentError, StdError};
use nft_marketplace::external::{decimal_text, must_pay};
use nft_marketplace::market::Marketplace;
use nft_marketplace::msg::{
    Cw20HookMsg, Cw20ReceiveMsg, Cw721HookMsg, Cw721ReceiveMsg, ExecuteMsg, InstantiateMsg,
    QueryMsg, QueryResponse,
};
use nft_marketplace::response::{Attribute, Coin, CosmosMsg, MessageInfo};
use nft_marketplace::state::{Ask, Cw721Deposits, Video};

const DENOM: &str = "ustars";

fn info(sender: &str, funds: &[(&str, u128)]) -> MessageInfo {
    MessageInfo {
        sender: sender.to_string(),
        funds: funds
            .iter()
            .map(|(d, a)| Coin { denom: d.to_string(), amount: *a })
            .collect(),
    }
}

fn attrs(pairs: &[(&str, &str)]) -> Vec<Attribute> {
    pairs
        .iter()
        .map(|(k, v)| Attribute { key: k.to_string(), value: v.to_string() })
        .collect()
}

fn fresh() -> Marketplace {
    instantiate(InstantiateMsg { native_denom: DENOM.to_string() }).0
}

fn custom(val: &str) -> ContractError {
    ContractError::CustomError { val: val.to_string() }
}

fn list(m: &mut Marketplace, collection: &str, owner: &str, token: &str, price: u128) {
    let hook = Cw721HookMsg::SetListing {
        owner: owner.to_string(),
        token_id: token.to_string(),
        cw20_contract: None,
        amount: price,
    };
    let receipt = Cw721ReceiveMsg { sender: owner.to_string(), token_id: token.to_string(), msg: vec![] };
    m.receive_cw721(&info(collection, &[]), receipt, Some(hook)).unwrap();
}

fn upload(m: &mut Marketplace, owner: &str, title: &str, price: u128) -> u64 {
    let id = m.video_count();
    m.execute_upload_video(
        &info(owner, &[]),
        title.to_string(),
        "about".to_string(),
        price,
        "QmVideo".to_string(),
        "QmThumb".to_string(),
    )
    .unwrap();
    id
}

fn transfer_nft_json(recipient: &str, token: &str) -> Vec<u8> {
    format!("{{\"transfer_nft\":{{\"recipient\":\"{}\",\"token_id\":\"{}\"}}}}", recipient, token)
        .into_bytes()
}

fn cw20_transfer_json(recipient: &str, amount: u128) -> Vec<u8> {
    format!("{{\"transfer\":{{\"recipient\":\"{}\",\"amount\":\"{}\"}}}}", recipient, amount).into_bytes()
}

#[test]
fn instantiate_starts_empty() {
    let (m, resp) = instantiate(InstantiateMsg { native_denom: DENOM.to_string() });
    assert_eq!(m.config().native_denom, DENOM);
    assert_eq!(m.video_count(), 0);
    assert!(m.query_all_asks().asks.is_empty());
    assert!(m.query_all_videos().videos.is_empty());
    assert!(resp.messages.is_empty());
    assert!(resp.attributes.is_empty());
}

#[test]
fn listing_is_queryable() {
    let mut m = fresh();
    let hook = Cw721HookMsg::SetListing {
        owner: "alice".to_string(),
        token_id: "t1".to_string(),
        cw20_contract: Some("token".to_string()),
        amount: 100,
    };
    let receipt = Cw721ReceiveMsg { sender: "x".to_string(), token_id: "y".to_string(), msg: vec![] };
    let resp = m.receive_cw721(&info("nft", &[]), receipt, Some(hook)).unwrap();
    assert!(resp.messages.is_empty());
    assert_eq!(
        resp.attributes,
        attrs(&[("execute", "cw721_deposit"), ("owner", "alice"), ("contract", "nft"), ("token_id", "t1")])
    );
    let ask = m.query_ask("nft".to_string(), "t1".to_string()).ask;
    assert_eq!(
        ask,
        Some(Ask {
            collection: "nft".to_string(),
            token_id: "t1".to_string(),
            seller: "alice".to_string(),
            price: 100,
            cw20_contract: Some("token".to_string()),
        })
    );
    let deposits = m.query_cw721_deposits("alice".to_string(), "nft".to_string()).deposits;
    assert_eq!(
        deposits,
        vec![(
            "t1".to_string(),
            Cw721Deposits { owner: "alice".to_string(), collection: "nft".to_string(), token_id: "t1".to_string() }
        )]
    );
}

#[test]
fn listing_twice_is_refused() {
    let mut m = fresh();
    list(&mut m, "nft", "alice", "t1", 100);
    let before = m.query_all_asks();
    let hook = Cw721HookMsg::SetListing {
        owner: "alice".to_string(),
        token_id: "t1".to_string(),
        cw20_contract: None,
        amount: 5,
    };
    let receipt = Cw721ReceiveMsg { sender: "alice".to_string(), token_id: "t1".to_string(), msg: vec![] };
    let err = m.receive_cw721(&info("nft", &[]), receipt, Some(hook)).unwrap_err();
    assert_eq!(err, custom("Already deposited"));
    assert_eq!(m.query_all_asks(), before);
}

#[test]
fn undecodable_hooks_are_refused() {
    let mut m = fresh();
    let receipt = Cw721ReceiveMsg { sender: "alice".to_string(), token_id: "t1".to_string(), msg: vec![1] };
    let err = m.receive_cw721(&info("nft", &[]), receipt, None).unwrap_err();
    assert_eq!(err, custom("Invalid Cw721HookMsg"));
    let receipt = Cw20ReceiveMsg { sender: "bob".to_string(), amount: 5, msg: vec![1] };
    let err = m.receive_cw20(&info("token", &[]), receipt, None, Ok("bob".to_string())).unwrap_err();
    assert_eq!(err, custom("Invalid Cw20HookMsg"));
}

#[test]
fn withdraw_returns_the_token() {
    let mut m = fresh();
    list(&mut m, "nft", "alice", "t1", 100);
    let err = m
        .execute_remove_listing(&info("mallory", &[]), "nft".to_string(), "t1".to_string())
        .unwrap_err();
    assert_eq!(err, ContractError::NoCw721ToWithdraw);
    assert!(m.query_ask("nft".to_string(), "t1".to_string()).ask.is_some());

    let resp = m
        .execute_remove_listing(&info("alice", &[]), "nft".to_string(), "t1".to_string())
        .unwrap();
    assert_eq!(
        resp.messages,
        vec![CosmosMsg::WasmExecute { contract_addr: "nft".to_string(), msg: transfer_nft_json("alice", "t1") }]
    );
    assert_eq!(resp.attributes, attrs(&[("execute", "withdraw")]));
    assert_eq!(m.query_ask("nft".to_string(), "t1".to_string()).ask, None);
    assert!(m.query_cw721_deposits("alice".to_string(), "nft".to_string()).deposits.is_empty());
}

#[test]
fn cw20_purchase_needs_an_ask_and_the_price() {
    let mut m = fresh();
    let hook = Cw20HookMsg::Purchase { cw721_contract: "nft".to_string(), token_id: "t1".to_string() };
    let receipt = Cw20ReceiveMsg { sender: "bob".to_string(), amount: 100, msg: vec![] };
    let err = m.receive_cw20(&info("token", &[]), receipt.clone(), Some(hook.clone()), Ok("bob".to_string()));
    assert_eq!(err.unwrap_err(), custom("No such ask"));

    list(&mut m, "nft", "alice", "t1", 100);
    let short = Cw20ReceiveMsg { sender: "bob".to_string(), amount: 99, msg: vec![] };
    let err = m.receive_cw20(&info("token", &[]), short, Some(hook.clone()), Ok("bob".to_string()));
    assert_eq!(err.unwrap_err(), custom("Invalid amount"));
    assert!(m.query_ask("nft".to_string(), "t1".to_string()).ask.is_some());

    let resp = m.receive_cw20(&info("token", &[]), receipt, Some(hook), Ok("bob".to_string())).unwrap();
    assert_eq!(
        resp.messages,
        vec![
            CosmosMsg::WasmExecute { contract_addr: "nft".to_string(), msg: transfer_nft_json("bob", "t1") },
            CosmosMsg::WasmExecute { contract_addr: "token".to_string(), msg: cw20_transfer_json("alice", 100) },
        ]
    );
    assert_eq!(resp.attributes, attrs(&[("execute", "purchase")]));
    assert_eq!(m.query_ask("nft".to_string(), "t1".to_string()).ask, None);
    assert!(m.query_cw721_deposits("alice".to_string(), "nft".to_string()).deposits.is_empty());
}

#[test]
fn native_purchase_pays_the_seller_and_keeps_the_listing() {
    let mut m = fresh();
    let err = m
        .execute_purchase_native(&info("bob", &[(DENOM, 100)]), "nft".to_string(), "t1".to_string())
        .unwrap_err();
    assert_eq!(err, ContractError::TokenNotListedForSale);

    list(&mut m, "nft", "alice", "t1", 100);
    let err = m
        .execute_purchase_native(&info("bob", &[(DENOM, 50)]), "nft".to_string(), "t1".to_string())
        .unwrap_err();
    assert_eq!(err, custom("Invalid amount"));

    let resp = m
        .execute_purchase_native(&info("bob", &[(DENOM, 100)]), "nft".to_string(), "t1".to_string())
        .unwrap();
    assert_eq!(
        resp.messages,
        vec![
            CosmosMsg::WasmExecute { contract_addr: "nft".to_string(), msg: transfer_nft_json("bob", "t1") },
            CosmosMsg::BankSend {
                to_address: "alice".to_string(),
                amount: vec![Coin { denom: DENOM.to_string(), amount: 100 }],
            },
        ]
    );
    assert_eq!(
        resp.attributes,
        attrs(&[
            ("execute", "purchase_native"),
            ("collection", "nft"),
            ("token_id", "t1"),
            ("buyer", "bob"),
            ("seller", "alice"),
        ])
    );
    assert!(m.query_ask("nft".to_string(), "t1".to_string()).ask.is_some());
}

#[test]
fn uploads_take_consecutive_ids() {
    let mut m = fresh();
    let resp = m
        .execute_upload_video(
            &info("carol", &[]),
            "Intro".to_string(),
            "about".to_string(),
            250,
            "QmVideo".to_string(),
            "QmThumb".to_string(),
        )
        .unwrap();
    assert!(resp.messages.is_empty());
    assert_eq!(
        resp.attributes,
        attrs(&[("action", "upload_video"), ("owner", "carol"), ("video_id", "0"), ("title", "Intro"), ("price", "250")])
    );
    assert_eq!(upload(&mut m, "dave", "Second", 7), 1);
    assert_eq!(m.video_count(), 2);
    let video = m.query_video(1);
    assert!(!video.has_access);
    assert_eq!(
        video.video,
        Some(Video {
            id: 1,
            owner: "dave".to_string(),
            title: "Second".to_string(),
            description: "about".to_string(),
            price: 7,
            video_ipfs_hash: "QmVideo".to_string(),
            thumbnail_ipfs_hash: "QmThumb".to_string(),
        })
    );
    let titles: Vec<String> = m.query_all_videos().videos.into_iter().map(|v| v.title).collect();
    assert_eq!(titles, vec!["Intro".to_string(), "Second".to_string()]);
}

#[test]
fn native_payment_grants_access() {
    let mut m = fresh();
    let err = m.execute_pay_for_view_native(&info("erin", &[(DENOM, 100)]), 0).unwrap_err();
    assert_eq!(err, custom("Video not found"));

    let id = upload(&mut m, "carol", "Intro", 100);
    let err = m.execute_pay_for_view_native(&info("erin", &[(DENOM, 50)]), id).unwrap_err();
    assert_eq!(err, custom("Expected payment of 100 ustars, but got 50 ustars"));
    assert!(!m.query_video_access(id, Ok("erin".to_string())).unwrap().has_access);

    let resp = m.execute_pay_for_view_native(&info("erin", &[(DENOM, 100)]), id).unwrap();
    assert_eq!(
        resp.messages,
        vec![CosmosMsg::BankSend {
            to_address: "carol".to_string(),
            amount: vec![Coin { denom: DENOM.to_string(), amount: 100 }],
        }]
    );
    assert_eq!(
        resp.attributes,
        attrs(&[("action", "pay_for_view_native"), ("video_id", "0"), ("viewer", "erin"), ("amount_paid", "100")])
    );
    assert!(m.query_video_access(id, Ok("erin".to_string())).unwrap().has_access);
    assert!(!m.query_video_access(id, Ok("frank".to_string())).unwrap().has_access);
}

#[test]
fn cw20_payment_grants_access() {
    let mut m = fresh();
    let id = upload(&mut m, "carol", "Intro", 100);
    let hook = Cw20HookMsg::PayForView { video_id: id };
    let short = Cw20ReceiveMsg { sender: "erin".to_string(), amount: 10, msg: vec![] };
    let err = m.receive_cw20(&info("token", &[]), short, Some(hook.clone()), Ok("erin".to_string()));
    assert_eq!(err.unwrap_err(), custom("Expected payment of 100, but got 10"));

    let refused = StdError::GenericErr { msg: "Invalid input".to_string() };
    let receipt = Cw20ReceiveMsg { sender: "erin".to_string(), amount: 100, msg: vec![] };
    let err = m.receive_cw20(&info("token", &[]), receipt.clone(), Some(hook.clone()), Err(refused.clone()));
    assert_eq!(err.unwrap_err(), ContractError::Std(refused));

    let resp = m.receive_cw20(&info("token", &[]), receipt, Some(hook), Ok("erin".to_string())).unwrap();
    assert_eq!(
        resp.messages,
        vec![CosmosMsg::WasmExecute { contract_addr: "token".to_string(), msg: cw20_transfer_json("carol", 100) }]
    );
    assert_eq!(
        resp.attributes,
        attrs(&[("action", "pay_for_view_cw20"), ("video_id", "0"), ("viewer", "erin"), ("amount_paid", "100")])
    );
    assert!(m.query_video_access(id, Ok("erin".to_string())).unwrap().has_access);
}

#[test]
fn only_the_owner_removes_a_video() {
    let mut m = fresh();
    assert_eq!(m.execute_remove_video(&info("carol", &[]), 3).unwrap_err(), custom("Video not found"));
    let id = upload(&mut m, "carol", "Intro", 100);
    m.execute_pay_for_view_native(&info("erin", &[(DENOM, 100)]), id).unwrap();
    let err = m.execute_remove_video(&info("mallory", &[]), id).unwrap_err();
    assert_eq!(err, ContractError::UnauthorizedOwner);
    assert!(m.query_video(id).video.is_some());
    let resp = m.execute_remove_video(&info("carol", &[]), id).unwrap();
    assert_eq!(resp.attributes, attrs(&[("action", "remove_video"), ("video_id", "0"), ("owner", "carol")]));
    assert_eq!(m.query_video(id).video, None);
    assert!(m.query_video_access(id, Ok("erin".to_string())).unwrap().has_access);
    assert_eq!(upload(&mut m, "carol", "Again", 1), 1);
}

#[test]
fn videos_by_owner_keep_id_order() {
    let mut m = fresh();
    upload(&mut m, "carol", "a", 1);
    upload(&mut m, "dave", "b", 1);
    upload(&mut m, "carol", "c", 1);
    let titles: Vec<String> = m
        .query_videos_by_owner("carol".to_string())
        .videos
        .into_iter()
        .map(|v| v.title)
        .collect();
    assert_eq!(titles, vec!["a".to_string(), "c".to_string()]);
    assert!(m.query_videos_by_owner("nobody".to_string()).videos.is_empty());
}

#[test]
fn asks_are_listed_in_store_order() {
    let mut m = fresh();
    list(&mut m, "bb", "alice", "t", 1);
    list(&mut m, "a", "alice", "z", 1);
    list(&mut m, "a", "alice", "b", 1);
    list(&mut m, "c", "alice", "t", 1);
    let keys: Vec<(String, String)> = m.query_all_asks().asks.into_iter().map(|(k, _)| k).collect();
    let expected: Vec<(String, String)> = [("a", "b"), ("a", "z"), ("c", "t"), ("bb", "t")]
        .iter()
        .map(|(c, t)| (c.to_string(), t.to_string()))
        .collect();
    assert_eq!(keys, expected);

    let mut deps = cosmwasm_std::testing::mock_dependencies();
    let table: cw_storage_plus::Map<(&str, &str), u8> = cw_storage_plus::Map::new("asks");
    for (c, t) in [("bb", "t"), ("a", "z"), ("a", "b"), ("c", "t")] {
        table.save(deps.as_mut().storage, (c, t), &1).unwrap();
    }
    let stored: Vec<(String, String)> = table
        .keys(deps.as_ref().storage, None, None, cosmwasm_std::Order::Ascending)
        .map(|k| k.unwrap())
        .collect();
    assert_eq!(stored, expected);
}

#[test]
fn deposits_query_selects_collection_and_owner() {
    let mut m = fresh();
    list(&mut m, "nft", "alice", "t2", 1);
    list(&mut m, "nft", "bob", "t1", 1);
    list(&mut m, "nft", "alice", "t1", 1);
    list(&mut m, "other", "alice", "t0", 1);
    let tokens: Vec<String> = m
        .query_cw721_deposits("alice".to_string(), "nft".to_string())
        .deposits
        .into_iter()
        .map(|(t, _)| t)
        .collect();
    assert_eq!(tokens, vec!["t1".to_string(), "t2".to_string()]);
}

#[test]
fn query_dispatch_answers_and_passes_on_address_errors() {
    let mut m = fresh();
    list(&mut m, "nft", "alice", "t1", 100);
    match m.query(QueryMsg::Ask { collection: "nft".to_string(), token_id: "t1".to_string() }) {
        Ok(QueryResponse::Ask(a)) => assert_eq!(a.ask.unwrap().seller, "alice"),
        other => panic!("unexpected answer {:?}", other),
    }
    let refused = StdError::GenericErr { msg: "Invalid input".to_string() };
    let r = m.query(QueryMsg::CheckVideoAccess { video_id: 0, viewer: Err(refused.clone()) });
    assert_eq!(r, Err(refused));
}

#[test]
fn execute_dispatches_by_message() {
    let mut m = fresh();
    let msg = ExecuteMsg::UploadVideo {
        title: "Intro".to_string(),
        description: "d".to_string(),
        price: 5,
        video_ipfs_hash: "v".to_string(),
        thumbnail_ipfs_hash: "t".to_string(),
    };
    m.execute(&info("carol", &[]), msg).unwrap();
    let r = m.execute(&info("erin", &[(DENOM, 5)]), ExecuteMsg::PayForViewNative { video_id: 0 });
    assert!(r.is_ok());
    assert!(m.query_video_access(0, Ok("erin".to_string())).unwrap().has_access);
}

#[test]
fn migrate_compares_versions() {
    let same = ContractVersion { contract: CONTRACT_NAME.to_string(), version: CONTRACT_VERSION.to_string() };
    let (_, record) = migrate(&same, QueryMsg::GetAllAsks).unwrap();
    assert_eq!(record, None);

    let older = ContractVersion { contract: CONTRACT_NAME.to_string(), version: "0.0.9".to_string() };
    let (resp, record) = migrate(&older, QueryMsg::GetAllAsks).unwrap();
    assert!(resp.attributes.is_empty());
    assert_eq!(record, Some(same.clone()));

    let newer = ContractVersion { contract: CONTRACT_NAME.to_string(), version: "1.0.0".to_string() };
    let err = migrate(&newer, QueryMsg::GetAllAsks).unwrap_err();
    let previous = "Cannot upgrade to a previous contract version".to_string();
    assert_eq!(err, ContractError::Std(StdError::GenericErr { msg: previous }));

    let bad = ContractVersion { contract: CONTRACT_NAME.to_string(), version: "one".to_string() };
    let err = migrate(&bad, QueryMsg::GetAllAsks).unwrap_err();
    let invalid = "Invalid contract version".to_string();
    assert_eq!(err, ContractError::Std(StdError::GenericErr { msg: invalid }));

    let other = ContractVersion { contract: "crates.io:other".to_string(), version: CONTRACT_VERSION.to_string() };
    let err = migrate(&other, QueryMsg::GetAllAsks).unwrap_err();
    let different = "Cannot upgrade to a different contract".to_string();
    assert_eq!(err, ContractError::Std(StdError::GenericErr { msg: different }));
}

#[test]
fn must_pay_takes_one_coin_of_the_denom() {
    assert_eq!(must_pay(&info("a", &[]), DENOM), Err(PaymentError::NoFunds));
    assert_eq!(must_pay(&info("a", &[(DENOM, 0)]), DENOM), Err(PaymentError::NoFunds));
    assert_eq!(must_pay(&info("a", &[(DENOM, 1), ("uatom", 1)]), DENOM), Err(PaymentError::MultipleDenoms));
    assert_eq!(
        must_pay(&info("a", &[("uatom", 3)]), DENOM),
        Err(PaymentError::MissingDenom(DENOM.to_string()))
    );
    assert_eq!(must_pay(&info("a", &[(DENOM, 42)]), DENOM), Ok(42));
}

#[test]
fn decimal_text_is_plain_decimal() {
    assert_eq!(decimal_text(0), "0");
    assert_eq!(decimal_text(1234567890123456789012345), "1234567890123456789012345");
}


#[test]
fn settled_withdrawal_sends_the_given_message() {
    let mut m = fresh();
    list(&mut m, "nft", "alice", "t1", 100);
    let failure = StdError::SerializeErr { source_type: "msg".to_string(), msg: "bad".to_string() };
    let err = m
        .settle_remove_listing(&info("alice", &[]), "nft".to_string(), "t1".to_string(), Err(failure.clone()))
        .unwrap_err();
    assert_eq!(err, ContractError::Std(failure));
    assert!(m.query_ask("nft".to_string(), "t1".to_string()).ask.is_some());
    let resp = m
        .settle_remove_listing(&info("alice", &[]), "nft".to_string(), "t1".to_string(), Ok(vec![7, 8]))
        .unwrap();
    assert_eq!(resp.messages, vec![CosmosMsg::WasmExecute { contract_addr: "nft".to_string(), msg: vec![7, 8] }]);
    assert_eq!(m.query_ask("nft".to_string(), "t1".to_string()).ask, None);
}

#[test]
fn settled_purchases_send_the_given_messages() {
    let mut m = fresh();
    list(&mut m, "nft", "alice", "t1", 100);
    let resp = m
        .settle_purchase_native(&info("bob", &[(DENOM, 100)]), "nft".to_string(), "t1".to_string(), Ok(vec![1]))
        .unwrap();
    assert_eq!(resp.messages[0], CosmosMsg::WasmExecute { contract_addr: "nft".to_string(), msg: vec![1] });

    let failure = StdError::GenericErr { msg: "no".to_string() };
    let err = m
        .settle_purchase(&info("token", &[]), "nft".to_string(), "t1".to_string(), Ok(vec![1]), Err(failure.clone()))
        .unwrap_err();
    assert_eq!(err, ContractError::Std(failure));
    let resp = m
        .settle_purchase(&info("token", &[]), "nft".to_string(), "t1".to_string(), Ok(vec![1]), Ok(vec![2]))
        .unwrap();
    assert_eq!(
        resp.messages,
        vec![
            CosmosMsg::WasmExecute { contract_addr: "nft".to_string(), msg: vec![1] },
            CosmosMsg::WasmExecute { contract_addr: "token".to_string(), msg: vec![2] },
        ]
    );
    assert_eq!(m.query_ask("nft".to_string(), "t1".to_string()).ask, None);
}

#[test]
fn settled_cw20_view_payment_sends_the_given_message() {
    let mut m = fresh();
    let id = upload(&mut m, "carol", "Intro", 9);
    let resp = m.settle_pay_for_view(&info("token", &[]), id, "erin".to_string(), Ok(vec![3])).unwrap();
    assert_eq!(resp.messages, vec![CosmosMsg::WasmExecute { contract_addr: "token".to_string(), msg: vec![3] }]);
    assert_eq!(
        resp.attributes,
        attrs(&[("action", "pay_for_view_cw20"), ("video_id", "0"), ("viewer", "erin"), ("amount_paid", "9")])
    );
    assert!(m.query_video_access(id, Ok("erin".to_string())).unwrap().has_access);
}

#[test]
fn migration_decisions() {
    let invalid = ContractError::Std(StdError::GenericErr { msg: "Invalid contract version".to_string() });
    assert_eq!(decide_migration(false, false, false).unwrap_err(), invalid);
    let previous =
        ContractError::Std(StdError::GenericErr { msg: "Cannot upgrade to a previous contract version".to_string() });
    assert_eq!(decide_migration(true, true, false).unwrap_err(), previous);
    assert_eq!(decide_migration(true, false, true).unwrap().1, None);
    let record = decide_migration(true, false, false).unwrap().1.unwrap();
    assert_eq!(record.contract, CONTRACT_NAME);
    assert_eq!(record.version, CONTRACT_VERSION);
}

#[test]
fn withdraw_undoes_a_listing() {
    let mut m = fresh();
    list(&mut m, "nft", "bob", "t9", 3);
    let asks = m.query_all_asks();
    let deposits = m.deposit_entries();
    list(&mut m, "nft", "alice", "t1", 100);
    m.execute_remove_listing(&info("alice", &[]), "nft".to_string(), "t1".to_string()).unwrap();
    assert_eq!(m.query_all_asks(), asks);
    assert_eq!(m.deposit_entries(), deposits);
}

#[test]
fn a_second_seller_replaces_the_ask_and_keeps_it_backed() {
    let mut m = fresh();
    list(&mut m, "nft", "alice", "t1", 100);
    list(&mut m, "nft", "bob", "t1", 50);
    let ask = m.query_ask("nft".to_string(), "t1".to_string()).ask.unwrap();
    assert_eq!(ask.seller, "bob");
    assert_eq!(ask.price, 50);
    for ((c, t), ask) in m.query_all_asks().asks {
        let backing = m.query_cw721_deposits(ask.seller.clone(), c.clone()).deposits;
        assert!(backing.iter().any(|(token, _)| *token == t));
    }
    m.execute_remove_listing(&info("alice", &[]), "nft".to_string(), "t1".to_string()).unwrap();
    assert_eq!(m.query_ask("nft".to_string(), "t1".to_string()).ask, None);
    assert_eq!(m.query_cw721_deposits("bob".to_string(), "nft".to_string()).deposits.len(), 1);
}

#[test]
fn videos_stay_under_their_own_ids() {
    let mut m = fresh();
    upload(&mut m, "carol", "a", 1);
    upload(&mut m, "carol", "b", 1);
    m.execute_remove_video(&info("carol", &[]), 0).unwrap();
    upload(&mut m, "dave", "c", 1);
    for (id, video) in m.video_entries() {
        assert_eq!(video.id, id);
        assert!(id < m.video_count());
    }
}

#[test]
fn a_sold_token_cannot_be_bought_again() {
    let mut m = fresh();
    list(&mut m, "nft", "alice", "t1", 100);
    let hook = Cw20HookMsg::Purchase { cw721_contract: "nft".to_string(), token_id: "t1".to_string() };
    let receipt = Cw20ReceiveMsg { sender: "bob".to_string(), amount: 100, msg: vec![] };
    m.receive_cw20(&info("token", &[]), receipt.clone(), Some(hook.clone()), Ok("bob".to_string())).unwrap();
    let again = m.receive_cw20(&info("token", &[]), receipt, Some(hook), Ok("bob".to_string()));
    assert_eq!(again.unwrap_err(), custom("No such ask"));
    let native = m.execute_purchase_native(&info("carl", &[(DENOM, 100)]), "nft".to_string(), "t1".to_string());
    assert_eq!(native.unwrap_err(), ContractError::TokenNotListedForSale);
}

#[test]
fn a_listing_is_keyed_by_the_calling_collection_and_ignores_the_receipt() {
    let hook = || Cw721HookMsg::SetListing {
        owner: "alice".to_string(),
        token_id: "t1".to_string(),
        cw20_contract: None,
        amount: 4,
    };
    let mut a = fresh();
    let mut b = fresh();
    let r1 = Cw721ReceiveMsg { sender: "x".to_string(), token_id: "y".to_string(), msg: vec![] };
    let r2 = Cw721ReceiveMsg { sender: "alice".to_string(), token_id: "t1".to_string(), msg: vec![9] };
    let ra = a.execute(&info("nft", &[]), ExecuteMsg::ReceiveNft { receipt: r1, hook: Some(hook()) });
    let rb = b.execute(&info("nft", &[]), ExecuteMsg::ReceiveNft { receipt: r2, hook: Some(hook()) });
    assert_eq!(ra, rb);
    assert_eq!(a.query_all_asks(), b.query_all_asks());
    let keys: Vec<(String, String)> = a.query_all_asks().asks.into_iter().map(|(k, _)| k).collect();
    assert_eq!(keys, vec![("nft".to_string(), "t1".to_string())]);
}

#[test]
fn the_counter_never_goes_down() {
    let mut m = fresh();
    assert_eq!(upload(&mut m, "carol", "a", 1), 0);
    m.execute_remove_video(&info("carol", &[]), 0).unwrap();
    assert_eq!(m.video_count(), 1);
    list(&mut m, "nft", "alice", "t1", 1);
    assert_eq!(m.video_count(), 1);
    assert_eq!(upload(&mut m, "carol", "b", 1), 1);
    assert!(!m.query_video_access(1, Ok("erin".to_string())).unwrap().has_access);
}
