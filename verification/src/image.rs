//! Images that a profile refers to.

use vstd::prelude::*;

verus! {

/// A point in time, not a duration: so many seconds after the Unix epoch,
/// or before it where the number is negative.
#[derive(Clone, Copy, Debug, PartialEq, Eq)]
pub struct Timestamp {
    pub seconds: i64,
}

/// The image of one post: where it can be fetched, and when it was
/// uploaded.
#[derive(Clone, Debug, PartialEq)]
pub struct PostImage {
    pub url: String,
    pub timestamp_uploaded: Timestamp,
}

/// The profile's own picture.
#[derive(Clone, Debug, PartialEq)]
pub struct ProfileImage {
    pub url: String,
}

/// A [`PostImage`] as specifications see it.
pub struct PostImageView {
    pub url: Seq<char>,
    pub timestamp_uploaded: Timestamp,
}

/// A [`ProfileImage`] as specifications see it.
pub struct ProfileImageView {
    pub url: Seq<char>,
}

impl View for PostImage {
    type V = PostImageView;

    open spec fn view(&self) -> PostImageView {
        PostImageView { url: self.url@, timestamp_uploaded: self.timestamp_uploaded }
    }
}

impl View for ProfileImage {
    type V = ProfileImageView;

    open spec fn view(&self) -> ProfileImageView {
        ProfileImageView { url: self.url@ }
    }
}

impl PostImage {
    /// The image at `url` that was uploaded `timestamp` seconds after the
    /// Unix epoch.
    pub fn new(url: &str, timestamp: i32) -> (image: PostImage)
        ensures
            image.url@ == url@,
            image.timestamp_uploaded.seconds == timestamp,
    {
        PostImage {
            url: url.to_owned(),
            timestamp_uploaded: Timestamp { seconds: timestamp as i64 },
        }
    }
}

} // verus!
