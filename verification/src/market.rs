//! The contract's state: its configuration, the video counter and four tables
//! (deposits, asks, videos, viewing rights), with the mathematical model that
//! the contracts of the handlers speak of.
use vstd::prelude::*;
use crate::state::{Ask, AskView, Config, Cw721Deposits, DepositView, Video, VideoView};
use crate::store::{keys_ascending, map_of, SortedMap, StoreValue};

verus! {

pub type DepositKey = (String, String, String);

pub type AskKey = (String, String);

pub type AccessKey = (u64, String);

pub type DepositKeyView = (Seq<char>, Seq<char>, Seq<char>);

pub type AskKeyView = (Seq<char>, Seq<char>);

pub struct Marketplace {
    config: Config,
    video_count: u64,
    deposits: SortedMap<DepositKey, Cw721Deposits>,
    asks: SortedMap<AskKey, Ask>,
    videos: SortedMap<u64, Video>,
    access: SortedMap<AccessKey, bool>,
}

/// The state as mathematics: the configured denom, the counter, and each
/// table as a map from key to record.
#[verifier::ext_equal]
pub struct MarketView {
    pub native_denom: Seq<char>,
    pub video_count: u64,
    pub deposits: Map<DepositKeyView, DepositView>,
    pub asks: Map<AskKeyView, AskView>,
    pub videos: Map<u64, VideoView>,
    pub access: Map<(u64, Seq<char>), bool>,
}

impl View for Marketplace {
    type V = MarketView;

    closed spec fn view(&self) -> MarketView {
        MarketView {
            native_denom: self.config.native_denom@,
            video_count: self.video_count,
            deposits: self.deposits@,
            asks: self.asks@,
            videos: self.videos@,
            access: self.access@,
        }
    }
}

impl MarketView {
    /// A seller's token is deposited and listed at `price`.
    pub open spec fn set_listing(
        self,
        collection: Seq<char>,
        owner: Seq<char>,
        token_id: Seq<char>,
        cw20_contract: Option<Seq<char>>,
        price: u128,
    ) -> MarketView {
        MarketView {
            deposits: self.deposits.insert(
                (collection, owner, token_id),
                DepositView { owner, collection, token_id },
            ),
            asks: self.asks.insert(
                (collection, token_id),
                AskView { collection, token_id, seller: owner, price, cw20_contract },
            ),
            ..self
        }
    }

    /// The deposit of `owner` and the ask of the token are dropped.
    pub open spec fn remove_listing(
        self,
        collection: Seq<char>,
        owner: Seq<char>,
        token_id: Seq<char>,
    ) -> MarketView {
        MarketView {
            deposits: self.deposits.remove((collection, owner, token_id)),
            asks: self.asks.remove((collection, token_id)),
            ..self
        }
    }

    /// The next video id is taken by a new video.
    pub open spec fn upload_video(
        self,
        owner: Seq<char>,
        title: Seq<char>,
        description: Seq<char>,
        price: u128,
        video_ipfs_hash: Seq<char>,
        thumbnail_ipfs_hash: Seq<char>,
    ) -> MarketView {
        MarketView {
            video_count: (self.video_count + 1) as u64,
            videos: self.videos.insert(
                self.video_count,
                VideoView {
                    id: self.video_count,
                    owner,
                    title,
                    description,
                    price,
                    video_ipfs_hash,
                    thumbnail_ipfs_hash,
                },
            ),
            ..self
        }
    }

    /// `viewer` may watch video `video_id`.
    pub open spec fn grant_access(self, video_id: u64, viewer: Seq<char>) -> MarketView {
        MarketView { access: self.access.insert((video_id, viewer), true), ..self }
    }

    /// Video `video_id` leaves the catalogue.
    pub open spec fn remove_video(self, video_id: u64) -> MarketView {
        MarketView { videos: self.videos.remove(video_id), ..self }
    }

    /// Whether `viewer` may watch video `video_id`.
    pub open spec fn has_access(self, video_id: u64, viewer: Seq<char>) -> bool {
        self.access.contains_key((video_id, viewer)) && self.access[(video_id, viewer)]
    }
}

impl Marketplace {
    /// The tables are strictly ascending by key.
    pub closed spec fn wf(&self) -> bool {
        &&& self.deposits.wf()
        &&& self.asks.wf()
        &&& self.videos.wf()
        &&& self.access.wf()
    }

    /// The deposits, in the order the store lists them.
    pub closed spec fn deposit_listing(&self) -> Seq<(DepositKeyView, DepositView)> {
        self.deposits.listing()
    }

    /// The asks, in the order the store lists them.
    pub closed spec fn ask_listing(&self) -> Seq<(AskKeyView, AskView)> {
        self.asks.listing()
    }

    /// The videos, by ascending id.
    pub closed spec fn video_listing(&self) -> Seq<(u64, VideoView)> {
        self.videos.listing()
    }

    /// The viewing rights, in the order the store lists them.
    pub closed spec fn access_listing(&self) -> Seq<((u64, Seq<char>), bool)> {
        self.access.listing()
    }

    /// A state with the given configuration and counter and empty tables.
    pub fn restore(config: Config, video_count: u64) -> (m: Marketplace)
        ensures
            m.wf(),
            m@.native_denom == config.native_denom@,
            m@.video_count == video_count,
            m@.deposits == Map::<DepositKeyView, DepositView>::empty(),
            m@.asks == Map::<AskKeyView, AskView>::empty(),
            m@.videos == Map::<u64, VideoView>::empty(),
            m@.access == Map::<(u64, Seq<char>), bool>::empty(),
    {
        Marketplace {
            config,
            video_count,
            deposits: SortedMap::new(),
            asks: SortedMap::new(),
            videos: SortedMap::new(),
            access: SortedMap::new(),
        }
    }

    /// Adds a deposit read back from storage.
    pub fn restore_deposit(&mut self, key: DepositKey, deposit: Cw721Deposits)
        requires
            old(self).wf(),
        ensures
            final(self).wf(),
            final(self)@ == (MarketView {
                deposits: old(self)@.deposits.insert(key@, deposit@),
                ..old(self)@
            }),
    {
        self.deposits.insert(key, deposit);
    }

    /// Adds an ask read back from storage.
    pub fn restore_ask(&mut self, key: AskKey, ask: Ask)
        requires
            old(self).wf(),
        ensures
            final(self).wf(),
            final(self)@ == (MarketView { asks: old(self)@.asks.insert(key@, ask@), ..old(self)@ }),
    {
        self.asks.insert(key, ask);
    }

    /// Adds a video read back from storage.
    pub fn restore_video(&mut self, key: u64, video: Video)
        requires
            old(self).wf(),
        ensures
            final(self).wf(),
            final(self)@ == (MarketView {
                videos: old(self)@.videos.insert(key, video@),
                ..old(self)@
            }),
    {
        self.videos.insert(key, video);
    }

    /// Adds a viewing right read back from storage.
    pub fn restore_access(&mut self, key: AccessKey, granted: bool)
        requires
            old(self).wf(),
        ensures
            final(self).wf(),
            final(self)@ == (MarketView {
                access: old(self)@.access.insert(key@, granted),
                ..old(self)@
            }),
    {
        self.access.insert(key, granted);
    }

    /// All deposits with their keys, in the order the store lists them.
    pub fn deposit_entries(&self) -> (r: Vec<(DepositKey, Cw721Deposits)>)
        ensures
            r@.map_values(|e: (DepositKey, Cw721Deposits)| (e.0@, e.1@)) == self.deposit_listing(),
    {
        self.deposits.to_vec()
    }

    /// All asks with their keys, in the order the store lists them.
    pub fn ask_entries(&self) -> (r: Vec<(AskKey, Ask)>)
        ensures
            r@.map_values(|e: (AskKey, Ask)| (e.0@, e.1@)) == self.ask_listing(),
    {
        self.asks.to_vec()
    }

    /// All videos with their ids, by ascending id.
    pub fn video_entries(&self) -> (r: Vec<(u64, Video)>)
        ensures
            r@.map_values(|e: (u64, Video)| (e.0@, e.1@)) == self.video_listing(),
    {
        self.videos.to_vec()
    }

    /// All viewing rights with their keys, in the order the store lists them.
    pub fn access_entries(&self) -> (r: Vec<(AccessKey, bool)>)
        ensures
            r@.map_values(|e: (AccessKey, bool)| (e.0@, e.1@)) == self.access_listing(),
    {
        self.access.to_vec()
    }

    pub proof fn lemma_listings(&self)
        requires
            self.wf(),
        ensures
            keys_ascending::<DepositKey, DepositView>(self.deposit_listing()),
            keys_ascending::<AskKey, AskView>(self.ask_listing()),
            keys_ascending::<u64, VideoView>(self.video_listing()),
            keys_ascending::<AccessKey, bool>(self.access_listing()),
            self@.deposits == map_of(self.deposit_listing()),
            self@.asks == map_of(self.ask_listing()),
            self@.videos == map_of(self.video_listing()),
            self@.access == map_of(self.access_listing()),
    {
    }

    /// The configuration.
    pub fn config(&self) -> (c: &Config)
        ensures
            c.native_denom@ == self@.native_denom,
    {
        &self.config
    }

    /// The id that the next video gets.
    pub fn video_count(&self) -> (n: u64)
        ensures
            n == self@.video_count,
    {
        self.video_count
    }

    /// The ask for a token, if it is listed.
    pub fn ask(&self, collection: &String, token_id: &String) -> (r: Option<Ask>)
        requires
            self.wf(),
        ensures
            match r {
                Some(a) => self@.asks.contains_key((collection@, token_id@)) && a@ == self@.asks[(
                    collection@,
                    token_id@,
                )],
                None => !self@.asks.contains_key((collection@, token_id@)),
            },
    {
        match self.asks.get(&(collection.clone(), token_id.clone())) {
            Some(a) => Some(a.copy_value()),
            None => None,
        }
    }

    /// Whether `owner` has deposited the token.
    pub fn has_deposit(&self, collection: &String, owner: &String, token_id: &String) -> (r: bool)
        requires
            self.wf(),
        ensures
            r == self@.deposits.contains_key((collection@, owner@, token_id@)),
    {
        self.deposits.contains(&(collection.clone(), owner.clone(), token_id.clone()))
    }

    /// Deposits the token for `owner` and lists it at `price`.
    pub fn put_listing(
        &mut self,
        collection: &String,
        owner: &String,
        token_id: &String,
        cw20_contract: Option<String>,
        price: u128,
    )
        requires
            old(self).wf(),
        ensures
            final(self).wf(),
            final(self)@ == old(self)@.set_listing(
                collection@,
                owner@,
                token_id@,
                cw20_contract.deep_view(),
                price,
            ),
    {
        let deposit = Cw721Deposits {
            owner: owner.clone(),
            collection: collection.clone(),
            token_id: token_id.clone(),
        };
        self.deposits.insert((collection.clone(), owner.clone(), token_id.clone()), deposit);
        let ask = Ask {
            collection: collection.clone(),
            token_id: token_id.clone(),
            seller: owner.clone(),
            price,
            cw20_contract,
        };
        self.asks.insert((collection.clone(), token_id.clone()), ask);
        assert(self@ =~= old(self)@.set_listing(
            collection@,
            owner@,
            token_id@,
            cw20_contract.deep_view(),
            price,
        ));
    }

    /// Drops the deposit of `owner` and the ask of the token.
    pub fn drop_listing(&mut self, collection: &String, owner: &String, token_id: &String)
        requires
            old(self).wf(),
        ensures
            final(self).wf(),
            final(self)@ == old(self)@.remove_listing(collection@, owner@, token_id@),
    {
        self.deposits.remove(&(collection.clone(), owner.clone(), token_id.clone()));
        self.asks.remove(&(collection.clone(), token_id.clone()));
        assert(self@ =~= old(self)@.remove_listing(collection@, owner@, token_id@));
    }

    /// The video with this id, if there is one.
    pub fn video(&self, video_id: u64) -> (r: Option<Video>)
        requires
            self.wf(),
        ensures
            match r {
                Some(v) => self@.videos.contains_key(video_id) && v@ == self@.videos[video_id],
                None => !self@.videos.contains_key(video_id),
            },
    {
        match self.videos.get(&video_id) {
            Some(v) => Some(v.copy_value()),
            None => None,
        }
    }

    /// Adds a video under the next id and returns that id.
    pub fn add_video(
        &mut self,
        owner: String,
        title: String,
        description: String,
        price: u128,
        video_ipfs_hash: String,
        thumbnail_ipfs_hash: String,
    ) -> (id: u64)
        requires
            old(self).wf(),
            old(self)@.video_count < u64::MAX,
        ensures
            final(self).wf(),
            id == old(self)@.video_count,
            final(self)@ == old(self)@.upload_video(
                owner@,
                title@,
                description@,
                price,
                video_ipfs_hash@,
                thumbnail_ipfs_hash@,
            ),
    {
        let id = self.video_count;
        self.video_count = id + 1;
        let ghost (o, t, d, vh, th) = (
            owner@,
            title@,
            description@,
            video_ipfs_hash@,
            thumbnail_ipfs_hash@,
        );
        let video = Video {
            id,
            owner,
            title,
            description,
            price,
            video_ipfs_hash,
            thumbnail_ipfs_hash,
        };
        self.videos.insert(id, video);
        assert(self@ =~= old(self)@.upload_video(o, t, d, price, vh, th));
        id
    }

    /// Takes video `video_id` out of the catalogue.
    pub fn drop_video(&mut self, video_id: u64)
        requires
            old(self).wf(),
        ensures
            final(self).wf(),
            final(self)@ == old(self)@.remove_video(video_id),
    {
        self.videos.remove(&video_id);
        assert(self@ =~= old(self)@.remove_video(video_id));
    }

    /// Records that `viewer` may watch video `video_id`.
    pub fn grant(&mut self, video_id: u64, viewer: &String)
        requires
            old(self).wf(),
        ensures
            final(self).wf(),
            final(self)@ == old(self)@.grant_access(video_id, viewer@),
    {
        self.access.insert((video_id, viewer.clone()), true);
        assert(self@ =~= old(self)@.grant_access(video_id, viewer@));
    }

    /// The recorded viewing right of `viewer` for video `video_id`.
    pub fn access_of(&self, video_id: u64, viewer: &String) -> (r: Option<bool>)
        requires
            self.wf(),
        ensures
            match r {
                Some(b) => self@.access.contains_key((video_id, viewer@)) && b == self@.access[(
                    video_id,
                    viewer@,
                )],
                None => !self@.access.contains_key((video_id, viewer@)),
            },
    {
        match self.access.get(&(video_id, viewer.clone())) {
            Some(b) => Some(*b),
            None => None,
        }
    }
}

} // verus!
