//! The records that the contract keeps: its configuration, the tokens that
//! sellers deposited, the asks that list them and the videos of the catalogue.
use vstd::prelude::*;
use crate::store::StoreValue;

verus! {

/// A copy of an optional text, with the same view.
pub fn copy_optional_text(t: &Option<String>) -> (r: Option<String>)
    ensures
        r.deep_view() == t.deep_view(),
{
    match t {
        Some(s) => Some(s.clone()),
        None => None,
    }
}

#[derive(Clone, Debug, PartialEq, Eq)]
pub struct Config {
    pub native_denom: String,
}

#[derive(Clone, Debug, PartialEq, Eq)]
pub struct Cw721Deposits {
    pub owner: String,
    pub collection: String,
    pub token_id: String,
}

pub struct DepositView {
    pub owner: Seq<char>,
    pub collection: Seq<char>,
    pub token_id: Seq<char>,
}

impl View for Cw721Deposits {
    type V = DepositView;

    open spec fn view(&self) -> DepositView {
        DepositView { owner: self.owner@, collection: self.collection@, token_id: self.token_id@ }
    }
}

impl StoreValue for Cw721Deposits {
    fn copy_value(&self) -> (r: Cw721Deposits) {
        Cw721Deposits {
            owner: self.owner.clone(),
            collection: self.collection.clone(),
            token_id: self.token_id.clone(),
        }
    }
}

#[derive(Clone, Debug, PartialEq, Eq)]
pub struct Ask {
    pub collection: String,
    pub token_id: String,
    pub seller: String,
    pub price: u128,
    pub cw20_contract: Option<String>,
}

pub struct AskView {
    pub collection: Seq<char>,
    pub token_id: Seq<char>,
    pub seller: Seq<char>,
    pub price: u128,
    pub cw20_contract: Option<Seq<char>>,
}

impl View for Ask {
    type V = AskView;

    open spec fn view(&self) -> AskView {
        AskView {
            collection: self.collection@,
            token_id: self.token_id@,
            seller: self.seller@,
            price: self.price,
            cw20_contract: self.cw20_contract.deep_view(),
        }
    }
}

impl StoreValue for Ask {
    fn copy_value(&self) -> (r: Ask) {
        Ask {
            collection: self.collection.clone(),
            token_id: self.token_id.clone(),
            seller: self.seller.clone(),
            price: self.price,
            cw20_contract: copy_optional_text(&self.cw20_contract),
        }
    }
}

#[derive(Clone, Debug, PartialEq, Eq)]
pub struct Video {
    pub id: u64,
    pub owner: String,
    pub title: String,
    pub description: String,
    pub price: u128,
    pub video_ipfs_hash: String,
    pub thumbnail_ipfs_hash: String,
}

pub struct VideoView {
    pub id: u64,
    pub owner: Seq<char>,
    pub title: Seq<char>,
    pub description: Seq<char>,
    pub price: u128,
    pub video_ipfs_hash: Seq<char>,
    pub thumbnail_ipfs_hash: Seq<char>,
}

impl View for Video {
    type V = VideoView;

    open spec fn view(&self) -> VideoView {
        VideoView {
            id: self.id,
            owner: self.owner@,
            title: self.title@,
            description: self.description@,
            price: self.price,
            video_ipfs_hash: self.video_ipfs_hash@,
            thumbnail_ipfs_hash: self.thumbnail_ipfs_hash@,
        }
    }
}

impl StoreValue for Video {
    fn copy_value(&self) -> (r: Video) {
        Video {
            id: self.id,
            owner: self.owner.clone(),
            title: self.title.clone(),
            description: self.description.clone(),
            price: self.price,
            video_ipfs_hash: self.video_ipfs_hash.clone(),
            thumbnail_ipfs_hash: self.thumbnail_ipfs_hash.clone(),
        }
    }
}

/// Viewing rights hold a flag.
impl StoreValue for bool {
    fn copy_value(&self) -> (r: bool) {
        *self
    }
}

} // verus!
