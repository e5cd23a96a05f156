//! The queries of the contract: each answer is stated exactly over the state,
//! lists in the order the store lists them.
use vstd::prelude::*;
use crate::error::StdError;
use crate::keys::fits_key;
use crate::market::{AskKey, AskKeyView, DepositKeyView, MarketView, Marketplace};
use crate::msg::{
    AskResponse, Cw721DepositResponse, GetAllAsksResponse, GetAllVideosResponse,
    OwnerVideosResponse, QueryMsg, QueryResponse, VideoAccessResponse, VideoResponse,
};
use crate::state::{Ask, AskView, Cw721Deposits, DepositView, Video, VideoView};
use crate::store::StoreValue;

verus! {

/// The deposits of `owner` in `collection`, each with its token id, in the
/// order of the listing.
pub open spec fn select_deposits(
    s: Seq<(DepositKeyView, DepositView)>,
    collection: Seq<char>,
    owner: Seq<char>,
) -> Seq<(Seq<char>, DepositView)>
    decreases s.len(),
{
    if s.len() == 0 {
        seq![]
    } else {
        let rest = select_deposits(s.drop_last(), collection, owner);
        let e = s.last();
        if e.0.0 == collection && e.0.1 == owner {
            rest.push((e.0.2, e.1))
        } else {
            rest
        }
    }
}

/// The videos of a listing.
pub open spec fn video_values(s: Seq<(u64, VideoView)>) -> Seq<VideoView> {
    s.map_values(|e: (u64, VideoView)| e.1)
}

/// The videos of `owner`, in the order of the listing.
pub open spec fn select_videos(s: Seq<(u64, VideoView)>, owner: Seq<char>) -> Seq<VideoView>
    decreases s.len(),
{
    if s.len() == 0 {
        seq![]
    } else {
        let rest = select_videos(s.drop_last(), owner);
        if s.last().1.owner == owner {
            rest.push(s.last().1)
        } else {
            rest
        }
    }
}

pub open spec fn videos_view(v: Seq<Video>) -> Seq<VideoView> {
    v.map_values(|x: Video| x@)
}

pub open spec fn optional_ask_view(a: Option<Ask>) -> Option<AskView> {
    match a {
        Some(x) => Some(x@),
        None => None,
    }
}

pub open spec fn optional_video_view(v: Option<Video>) -> Option<VideoView> {
    match v {
        Some(x) => Some(x@),
        None => None,
    }
}

/// The ask a table holds for a key, if any.
pub open spec fn ask_at(s: MarketView, key: AskKeyView) -> Option<AskView> {
    if s.asks.contains_key(key) {
        Some(s.asks[key])
    } else {
        None
    }
}

/// The video a table holds for an id, if any.
pub open spec fn video_at(s: MarketView, video_id: u64) -> Option<VideoView> {
    if s.videos.contains_key(video_id) {
        Some(s.videos[video_id])
    } else {
        None
    }
}

pub open spec fn deposits_answer(
    m: Marketplace,
    owner: Seq<char>,
    collection: Seq<char>,
    r: Cw721DepositResponse,
) -> bool {
    r.deposits@.map_values(|e: (String, Cw721Deposits)| (e.0@, e.1@)) == select_deposits(
        m.deposit_listing(),
        collection,
        owner,
    )
}

pub open spec fn all_asks_answer(m: Marketplace, r: GetAllAsksResponse) -> bool {
    r.asks@.map_values(|e: (AskKey, Ask)| (e.0@, e.1@)) == m.ask_listing()
}

/// The answer to each query, where the query does not fail.
pub open spec fn query_answer(m: Marketplace, msg: QueryMsg, r: QueryResponse) -> bool {
    match (msg, r) {
        (QueryMsg::Cw721Deposits { owner, collection }, QueryResponse::Cw721Deposits(d)) => {
            deposits_answer(m, owner@, collection@, d)
        },
        (QueryMsg::Ask { collection, token_id }, QueryResponse::Ask(a)) => optional_ask_view(a.ask)
            == ask_at(m@, (collection@, token_id@)),
        (QueryMsg::GetAllAsks, QueryResponse::AllAsks(a)) => all_asks_answer(m, a),
        (QueryMsg::GetVideo { video_id }, QueryResponse::Video(v)) => {
            &&& optional_video_view(v.video) == video_at(m@, video_id)
            &&& !v.has_access
        },
        (QueryMsg::GetAllVideos, QueryResponse::AllVideos(v)) => videos_view(v.videos@)
            == video_values(m.video_listing()),
        (QueryMsg::CheckVideoAccess { video_id, viewer }, QueryResponse::VideoAccess(a)) => {
            viewer matches Ok(v) && a.has_access == m@.has_access(video_id, v@)
        },
        (QueryMsg::GetVideosByOwner { owner }, QueryResponse::OwnerVideos(v)) => videos_view(
            v.videos@,
        ) == select_videos(m.video_listing(), owner@),
        _ => false,
    }
}

/// The texts of a query that the store writes with a length prefix fit one.
pub open spec fn query_admissible(msg: QueryMsg) -> bool {
    match msg {
        QueryMsg::Cw721Deposits { owner, collection } => fits_key(owner@) && fits_key(
            collection@,
        ),
        QueryMsg::Ask { collection, token_id } => fits_key(collection@),
        _ => true,
    }
}

impl Marketplace {
    /// The tokens that `owner` deposited from `collection`, by token id.
    pub fn query_cw721_deposits(&self, owner: String, collection: String) -> (r:
        Cw721DepositResponse)
        requires
            self.wf(),
            fits_key(owner@),
            fits_key(collection@),
        ensures
            deposits_answer(*self, owner@, collection@, r),
    {
        let entries = self.deposit_entries();
        let ghost s = self.deposit_listing();
        let mut deposits: Vec<(String, Cw721Deposits)> = Vec::new();
        let mut i: usize = 0;
        while i < entries.len()
            invariant
                i <= entries@.len(),
                entries@.map_values(|e: ((String, String, String), Cw721Deposits)| (e.0@, e.1@))
                    == s,
                deposits@.map_values(|e: (String, Cw721Deposits)| (e.0@, e.1@)) == select_deposits(
                    s.take(i as int),
                    collection@,
                    owner@,
                ),
            decreases entries.len() - i,
        {
            let e = &entries[i];
            assert(s[i as int] == (e.0@, e.1@));
            assert(s.take(i + 1).drop_last() =~= s.take(i as int));
            let ghost before = deposits@;
            if e.0.0 == collection && e.0.1 == owner {
                deposits.push((e.0.2.clone(), e.1.copy_value()));
                assert(deposits@ == before.push(deposits@[before.len() as int]));
            }
            assert(deposits@.map_values(|e: (String, Cw721Deposits)| (e.0@, e.1@))
                =~= select_deposits(s.take(i + 1), collection@, owner@));
            i += 1;
        }
        assert(s.take(entries@.len() as int) =~= s);
        Cw721DepositResponse { deposits }
    }

    /// The ask for a token, if it is listed.
    pub fn query_ask(&self, collection: String, token_id: String) -> (r: AskResponse)
        requires
            self.wf(),
            fits_key(collection@),
        ensures
            optional_ask_view(r.ask) == ask_at(self@, (collection@, token_id@)),
    {
        AskResponse { ask: self.ask(&collection, &token_id) }
    }

    /// All asks with their keys, in the order the store lists them.
    pub fn query_all_asks(&self) -> (r: GetAllAsksResponse)
        ensures
            all_asks_answer(*self, r),
    {
        GetAllAsksResponse { asks: self.ask_entries() }
    }

    /// A video, if there is one with this id; the answer never grants access.
    pub fn query_video(&self, video_id: u64) -> (r: VideoResponse)
        requires
            self.wf(),
        ensures
            optional_video_view(r.video) == video_at(self@, video_id),
            !r.has_access,
    {
        VideoResponse { video: self.video(video_id), has_access: false }
    }

    /// All videos, by ascending id.
    pub fn query_all_videos(&self) -> (r: GetAllVideosResponse)
        ensures
            videos_view(r.videos@) == video_values(self.video_listing()),
    {
        let entries = self.video_entries();
        let ghost s = self.video_listing();
        let mut videos: Vec<Video> = Vec::new();
        let mut i: usize = 0;
        while i < entries.len()
            invariant
                i <= entries@.len(),
                entries@.map_values(|e: (u64, Video)| (e.0@, e.1@)) == s,
                videos@.len() == i,
                videos_view(videos@) == video_values(s.take(i as int)),
            decreases entries.len() - i,
        {
            let e = &entries[i];
            assert(s[i as int] == (e.0@, e.1@));
            let ghost before = videos@;
            videos.push(e.1.copy_value());
            assert(videos@ == before.push(videos@[before.len() as int]));
            assert forall|j: int| 0 <= j <= i implies #[trigger] videos_view(videos@)[j] == video_values(
                s.take(i + 1),
            )[j] by {
                if j < i {
                    assert(videos_view(before)[j] == video_values(s.take(i as int))[j]);
                }
            }
            assert(videos_view(videos@) =~= video_values(s.take(i + 1)));
            i += 1;
        }
        assert(s.take(entries@.len() as int) =~= s);
        GetAllVideosResponse { videos }
    }

    /// Whether a viewer may watch a video; `viewer` is the chain's answer to
    /// validating the viewer's address, and its error is the query's.
    pub fn query_video_access(&self, video_id: u64, viewer: Result<String, StdError>) -> (r: Result<
        VideoAccessResponse,
        StdError,
    >)
        requires
            self.wf(),
        ensures
            match viewer {
                Ok(v) => r matches Ok(a) && a.has_access == self@.has_access(video_id, v@),
                Err(e) => r == Err::<VideoAccessResponse, StdError>(e),
            },
    {
        let viewer = match viewer {
            Ok(v) => v,
            Err(e) => return Err(e),
        };
        let has_access = match self.access_of(video_id, &viewer) {
            Some(b) => b,
            None => false,
        };
        Ok(VideoAccessResponse { has_access })
    }

    /// The videos of `owner`, by ascending id.
    pub fn query_videos_by_owner(&self, owner: String) -> (r: OwnerVideosResponse)
        ensures
            videos_view(r.videos@) == select_videos(self.video_listing(), owner@),
    {
        let entries = self.video_entries();
        let ghost s = self.video_listing();
        let mut videos: Vec<Video> = Vec::new();
        let mut i: usize = 0;
        while i < entries.len()
            invariant
                i <= entries@.len(),
                entries@.map_values(|e: (u64, Video)| (e.0@, e.1@)) == s,
                videos_view(videos@) == select_videos(s.take(i as int), owner@),
            decreases entries.len() - i,
        {
            let e = &entries[i];
            assert(s[i as int] == (e.0@, e.1@));
            assert(s.take(i + 1).drop_last() =~= s.take(i as int));
            let ghost before = videos@;
            if e.1.owner == owner {
                videos.push(e.1.copy_value());
                assert(videos@ == before.push(videos@[before.len() as int]));
            }
            assert(videos_view(videos@) =~= select_videos(s.take(i + 1), owner@));
            i += 1;
        }
        assert(s.take(entries@.len() as int) =~= s);
        OwnerVideosResponse { videos }
    }

    /// Any query, answered as `query_answer` says; only a viewer's address
    /// that the chain refused makes it fail, with the chain's error.
    pub fn query(&self, msg: QueryMsg) -> (r: Result<QueryResponse, StdError>)
        requires
            self.wf(),
            query_admissible(msg),
        ensures
            match r {
                Ok(a) => query_answer(*self, msg, a),
                Err(e) => msg matches QueryMsg::CheckVideoAccess { video_id, viewer } && viewer
                    == Err::<String, StdError>(e),
            },
    {
        match msg {
            QueryMsg::Cw721Deposits { owner, collection } => Ok(
                QueryResponse::Cw721Deposits(self.query_cw721_deposits(owner, collection)),
            ),
            QueryMsg::Ask { collection, token_id } => Ok(
                QueryResponse::Ask(self.query_ask(collection, token_id)),
            ),
            QueryMsg::GetAllAsks => Ok(QueryResponse::AllAsks(self.query_all_asks())),
            QueryMsg::GetVideo { video_id } => Ok(QueryResponse::Video(self.query_video(video_id))),
            QueryMsg::GetAllVideos => Ok(QueryResponse::AllVideos(self.query_all_videos())),
            QueryMsg::CheckVideoAccess { video_id, viewer } => {
                match self.query_video_access(video_id, viewer) {
                    Ok(a) => Ok(QueryResponse::VideoAccess(a)),
                    Err(e) => Err(e),
                }
            },
            QueryMsg::GetVideosByOwner { owner } => Ok(
                QueryResponse::OwnerVideos(self.query_videos_by_owner(owner)),
            ),
        }
    }
}

} // verus!
