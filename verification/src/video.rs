//! Video records and the metadata that is free to read.

use vstd::prelude::*;
use crate::identity::Identity;

verus! {

/// A video record as the catalog keeps it. The content locator is only
/// handed out to viewers who hold an access grant.
#[derive(Debug, PartialEq, Eq)]
pub struct Video {
    pub id: i64,
    pub uploader: Identity,
    pub video_ipfs: String,
    pub thumbnail_ipfs: String,
    pub title: String,
    pub description: String,
    pub price: i128,
    pub upload_timestamp: u64,
}

/// The metadata of a video: every field of the record but the content
/// locator.
#[derive(Debug, PartialEq, Eq)]
pub struct VideoInfo {
    pub id: i64,
    pub uploader: Identity,
    pub title: String,
    pub description: String,
    pub thumbnail_ipfs: String,
    pub price: i128,
    pub upload_timestamp: u64,
}

/// The mathematical content of a [`Video`].
pub struct VideoView {
    pub id: int,
    pub uploader: Seq<char>,
    pub video_ipfs: Seq<char>,
    pub thumbnail_ipfs: Seq<char>,
    pub title: Seq<char>,
    pub description: Seq<char>,
    pub price: int,
    pub upload_timestamp: nat,
}

/// The mathematical content of a [`VideoInfo`].
pub struct VideoInfoView {
    pub id: int,
    pub uploader: Seq<char>,
    pub title: Seq<char>,
    pub description: Seq<char>,
    pub thumbnail_ipfs: Seq<char>,
    pub price: int,
    pub upload_timestamp: nat,
}

impl VideoView {
    /// What every record of the catalog satisfies: a price that is not
    /// negative, and a title and two locators that are not empty.
    pub open spec fn valid(self) -> bool {
        &&& self.price >= 0
        &&& self.title.len() > 0
        &&& self.video_ipfs.len() > 0
        &&& self.thumbnail_ipfs.len() > 0
    }

    /// The metadata of the record.
    pub open spec fn info(self) -> VideoInfoView {
        VideoInfoView {
            id: self.id,
            uploader: self.uploader,
            title: self.title,
            description: self.description,
            thumbnail_ipfs: self.thumbnail_ipfs,
            price: self.price,
            upload_timestamp: self.upload_timestamp,
        }
    }
}

impl View for Video {
    type V = VideoView;

    open spec fn view(&self) -> VideoView {
        VideoView {
            id: self.id as int,
            uploader: self.uploader@,
            video_ipfs: self.video_ipfs@,
            thumbnail_ipfs: self.thumbnail_ipfs@,
            title: self.title@,
            description: self.description@,
            price: self.price as int,
            upload_timestamp: self.upload_timestamp as nat,
        }
    }
}

impl View for VideoInfo {
    type V = VideoInfoView;

    open spec fn view(&self) -> VideoInfoView {
        VideoInfoView {
            id: self.id as int,
            uploader: self.uploader@,
            title: self.title@,
            description: self.description@,
            thumbnail_ipfs: self.thumbnail_ipfs@,
            price: self.price as int,
            upload_timestamp: self.upload_timestamp as nat,
        }
    }
}

/// The mathematical content of each of `infos`, in their order.
pub open spec fn info_views(infos: Seq<VideoInfo>) -> Seq<VideoInfoView> {
    infos.map_values(|info: VideoInfo| info@)
}

impl Video {
    /// The metadata of the record.
    pub fn info(&self) -> (info: VideoInfo)
        ensures
            info@ == self@.info(),
    {
        VideoInfo {
            id: self.id,
            uploader: self.uploader.clone(),
            title: self.title.clone(),
            description: self.description.clone(),
            thumbnail_ipfs: self.thumbnail_ipfs.clone(),
            price: self.price,
            upload_timestamp: self.upload_timestamp,
        }
    }
}

impl Clone for Video {
    fn clone(&self) -> (copy: Video)
        ensures
            copy@ == self@,
    {
        Video {
            id: self.id,
            uploader: self.uploader.clone(),
            video_ipfs: self.video_ipfs.clone(),
            thumbnail_ipfs: self.thumbnail_ipfs.clone(),
            title: self.title.clone(),
            description: self.description.clone(),
            price: self.price,
            upload_timestamp: self.upload_timestamp,
        }
    }
}

impl Clone for VideoInfo {
    fn clone(&self) -> (copy: VideoInfo)
        ensures
            copy@ == self@,
    {
        VideoInfo {
            id: self.id,
            uploader: self.uploader.clone(),
            title: self.title.clone(),
            description: self.description.clone(),
            thumbnail_ipfs: self.thumbnail_ipfs.clone(),
            price: self.price,
            upload_timestamp: self.upload_timestamp,
        }
    }
}

} // verus!
