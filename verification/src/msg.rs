//! The messages the contract is called with and the answers to its queries.
//!
//! Where a message carries JSON from another contract (the hook of a CW20 or
//! CW721 receipt) it comes here already decoded, and where the chain must
//! validate an address, its answer comes with the message.
use vstd::prelude::*;
use crate::error::StdError;
use crate::state::{Ask, Cw721Deposits, Video};

verus! {

#[derive(Clone, Debug, PartialEq, Eq)]
pub struct InstantiateMsg {
    pub native_denom: String,
}

/// A CW20 token contract reports that `sender` sent `amount` tokens here.
#[derive(Clone, Debug, PartialEq, Eq)]
pub struct Cw20ReceiveMsg {
    pub sender: String,
    pub amount: u128,
    pub msg: Vec<u8>,
}

/// A CW721 contract reports that `sender` sent token `token_id` here.
#[derive(Clone, Debug, PartialEq, Eq)]
pub struct Cw721ReceiveMsg {
    pub sender: String,
    pub token_id: String,
    pub msg: Vec<u8>,
}

/// What a CW20 payment is for.
#[derive(Clone, Debug, PartialEq, Eq)]
pub enum Cw20HookMsg {
    Purchase { cw721_contract: String, token_id: String },
    PayForView { video_id: u64 },
}

/// What a CW721 deposit is for.
#[derive(Clone, Debug, PartialEq, Eq)]
pub enum Cw721HookMsg {
    SetListing { owner: String, token_id: String, cw20_contract: Option<String>, amount: u128 },
}

#[derive(Debug, PartialEq, Eq)]
pub enum ExecuteMsg {
    /// A CW20 receipt; `hook` is its embedded message (`None` where it does
    /// not decode) and `sender_address` is the chain's answer to validating
    /// `receipt.sender` as an address.
    Receive {
        receipt: Cw20ReceiveMsg,
        hook: Option<Cw20HookMsg>,
        sender_address: Result<String, StdError>,
    },
    /// A CW721 receipt; `hook` is its embedded message (`None` where it does
    /// not decode).
    ReceiveNft { receipt: Cw721ReceiveMsg, hook: Option<Cw721HookMsg> },
    PurchaseNative { collection: String, token_id: String },
    RemoveListing { collection: String, token_id: String },
    UploadVideo {
        title: String,
        description: String,
        price: u128,
        video_ipfs_hash: String,
        thumbnail_ipfs_hash: String,
    },
    PayForViewNative { video_id: u64 },
    RemoveVideo { video_id: u64 },
}

#[derive(Debug, PartialEq, Eq)]
pub enum QueryMsg {
    Cw721Deposits { owner: String, collection: String },
    Ask { collection: String, token_id: String },
    GetAllAsks,
    GetVideo { video_id: u64 },
    GetAllVideos,
    /// `viewer` is the chain's answer to validating the viewer's address.
    CheckVideoAccess { video_id: u64, viewer: Result<String, StdError> },
    GetVideosByOwner { owner: String },
}

#[derive(Clone, Debug, PartialEq, Eq)]
/// Migration takes no parameters.
pub struct MigrateMsg {}

#[derive(Clone, Debug, PartialEq, Eq)]
pub struct Cw721DepositResponse {
    pub deposits: Vec<(String, Cw721Deposits)>,
}

#[derive(Clone, Debug, PartialEq, Eq)]
pub struct AskResponse {
    pub ask: Option<Ask>,
}

#[derive(Clone, Debug, PartialEq, Eq)]
pub struct GetAllAsksResponse {
    pub asks: Vec<((String, String), Ask)>,
}

#[derive(Clone, Debug, PartialEq, Eq)]
pub struct VideoResponse {
    pub video: Option<Video>,
    pub has_access: bool,
}

#[derive(Clone, Debug, PartialEq, Eq)]
pub struct GetAllVideosResponse {
    pub videos: Vec<Video>,
}

#[derive(Clone, Debug, PartialEq, Eq)]
pub struct VideoAccessResponse {
    pub has_access: bool,
}

#[derive(Clone, Debug, PartialEq, Eq)]
pub struct OwnerVideosResponse {
    pub videos: Vec<Video>,
}

/// The answer to a query, one variant per query.
#[derive(Clone, Debug, PartialEq, Eq)]
pub enum QueryResponse {
    Cw721Deposits(Cw721DepositResponse),
    Ask(AskResponse),
    AllAsks(GetAllAsksResponse),
    Video(VideoResponse),
    AllVideos(GetAllVideosResponse),
    VideoAccess(VideoAccessResponse),
    OwnerVideos(OwnerVideosResponse),
}

} // verus!
