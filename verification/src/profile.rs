//! The profile that callers get, and the one way to it: from what the
//! request for the profile page brought, through every stage, to the
//! projection of the decoded record.

use crate::decode::profile_of_text;
use crate::error::{outcome, ScrapeError, ScrapeErrorView};
use crate::extract::embedded_json;
use crate::image::{PostImage, PostImageView, ProfileImage, ProfileImageView, Timestamp};
use crate::scrape::{
    fetched_page, fetched_view, scrape_profile, scraped, JsonEdge, JsonProfile, RawMedia,
    RawProfile, Response, ResponseView,
};
use vstd::prelude::*;

verus! {

/// A public profile: who it belongs to, what it says of itself, and the
/// images of its posts in the order in which the page lists them.
#[derive(Debug, PartialEq)]
pub struct Profile {
    pub username: String,
    pub full_name: Option<String>,
    pub biography: Option<String>,
    pub external_url: Option<String>,
    pub profile_pic: Option<ProfileImage>,
    pub is_private: bool,
    pub images: Vec<PostImage>,
}

/// A [`Profile`] as specifications see it.
pub struct ProfileView {
    pub username: Seq<char>,
    pub full_name: Option<Seq<char>>,
    pub biography: Option<Seq<char>>,
    pub external_url: Option<Seq<char>>,
    pub profile_pic: Option<ProfileImageView>,
    pub is_private: bool,
    pub images: Seq<PostImageView>,
}

impl ProfileView {
    /// Whether the profile names its user. A profile that was acquired
    /// does; one that was written by hand may not.
    pub open spec fn has_username(self) -> bool {
        self.username.len() > 0
    }
}

impl View for Profile {
    type V = ProfileView;

    open spec fn view(&self) -> ProfileView {
        ProfileView {
            username: self.username@,
            full_name: self.full_name.deep_view(),
            biography: self.biography.deep_view(),
            external_url: self.external_url.deep_view(),
            profile_pic: match self.profile_pic {
                Some(picture) => Some(picture@),
                None => None,
            },
            is_private: self.is_private,
            images: self.images@.map_values(|image: PostImage| image@),
        }
    }
}

/// The image that a media edge stands for: what the edge displays, uploaded
/// when it was taken.
pub open spec fn image_of(media: RawMedia) -> PostImageView {
    PostImageView {
        url: media.display_url,
        timestamp_uploaded: Timestamp { seconds: media.taken_at_timestamp as i64 },
    }
}

/// The profile that a decoded record stands for: every field as it is, one
/// image for each media edge in the same order, and a picture where the
/// record names one.
pub open spec fn projected(raw: RawProfile) -> ProfileView {
    ProfileView {
        username: raw.username,
        full_name: raw.full_name,
        biography: raw.biography,
        external_url: raw.external_url,
        profile_pic: match raw.profile_pic_url_hd {
            Some(url) => Some(ProfileImageView { url }),
            None => None,
        },
        is_private: raw.is_private,
        images: raw.edges.map_values(|media: RawMedia| image_of(media)),
    }
}

/// Projection keeps the media edges: a record with so many edges projects
/// to a profile with as many images, in the same order, each with the
/// address and the time of its edge.
pub proof fn lemma_projection_keeps_edges(raw: RawProfile)
    ensures
        projected(raw).images.len() == raw.edges.len(),
        forall|i: int|
            0 <= i < raw.edges.len() ==> {
                &&& (#[trigger] projected(raw).images[i]).url == raw.edges[i].display_url
                &&& projected(raw).images[i].timestamp_uploaded.seconds
                    == raw.edges[i].taken_at_timestamp
            },
{
}

/// Projection changes no other field, and makes a picture exactly where the
/// record names one.
pub proof fn lemma_projection_keeps_fields(raw: RawProfile)
    ensures
        projected(raw).username == raw.username,
        projected(raw).has_username() == raw.has_username(),
        projected(raw).full_name == raw.full_name,
        projected(raw).biography == raw.biography,
        projected(raw).external_url == raw.external_url,
        projected(raw).is_private == raw.is_private,
        projected(raw).profile_pic is Some <==> raw.profile_pic_url_hd is Some,
        raw.profile_pic_url_hd matches Some(url) ==> projected(raw).profile_pic == Some(
            ProfileImageView { url },
        ),
{
}

/// What `from` returns is stated in its own contract, over views. No spec
/// function names the profile itself: two profiles with one view need not
/// be one value.
impl vstd::std_specs::convert::FromSpecImpl<JsonProfile> for Profile {
    open spec fn obeys_from_spec() -> bool {
        false
    }

    open spec fn from_spec(json_profile: JsonProfile) -> Profile {
        arbitrary()
    }
}

impl From<JsonProfile> for Profile {
    /// Projects a decoded record to the profile that it stands for.
    fn from(json_profile: JsonProfile) -> (profile: Profile)
        ensures
            profile@ == projected(json_profile@),
    {
        let profile_pic = match json_profile.profile_pic_url_hd {
            Some(url) => Some(ProfileImage { url }),
            None => None,
        };
        let edges = &json_profile.edge_owner_to_timeline_media.edges;
        let mut images: Vec<PostImage> = Vec::new();
        let mut i: usize = 0;
        while i < edges.len()
            invariant
                i <= edges.len(),
                images.len() == i,
                forall|j: int| 0 <= j < i ==> (#[trigger] images[j])@ == image_of(edges[j]@),
            decreases edges.len() - i,
        {
            let edge: &JsonEdge = &edges[i];
            images.push(
                PostImage::new(edge.node.display_url.as_str(), edge.node.taken_at_timestamp),
            );
            i += 1;
        }
        let profile = Profile {
            username: json_profile.username,
            full_name: json_profile.full_name,
            biography: json_profile.biography,
            external_url: json_profile.external_url,
            profile_pic,
            is_private: json_profile.is_private,
            images,
        };
        assert(profile@.images =~= projected(json_profile@).images);
        profile
    }
}

/// The profile that a request for the page of `username` brought.
pub open spec fn acquired(username: Seq<char>, fetched: Option<ResponseView>) -> Result<
    ProfileView,
    ScrapeErrorView,
> {
    match scraped(username, fetched) {
        Ok(raw) => Ok(projected(raw)),
        Err(error) => Err(error),
    }
}

/// A profile that was acquired has a username.
pub proof fn lemma_acquired_profile_has_username(
    username: Seq<char>,
    fetched: Option<ResponseView>,
)
    ensures
        acquired(username, fetched) matches Ok(profile) ==> profile.has_username(),
{
}

/// The failure of a stage is the failure of the whole: where the request
/// brought no page, the page embeds no data, or the data cannot be decoded,
/// no profile is acquired, and the failure is passed on as it is. Where no
/// stage fails, the profile is the projection of what was decoded.
pub proof fn lemma_failures_are_passed_on(username: Seq<char>, fetched: Option<ResponseView>)
    ensures
        match fetched_page(username, fetched) {
            Err(error) => acquired(username, fetched) == Err::<ProfileView, ScrapeErrorView>(
                error,
            ),
            Ok(page) => match embedded_json(page) {
                Err(error) => acquired(username, fetched) == Err::<ProfileView, ScrapeErrorView>(
                    error,
                ),
                Ok(text) => match profile_of_text(text) {
                    Err(error) => acquired(username, fetched) == Err::<
                        ProfileView,
                        ScrapeErrorView,
                    >(error),
                    Ok(raw) => acquired(username, fetched) == Ok::<ProfileView, ScrapeErrorView>(
                        projected(raw),
                    ),
                },
            },
        },
{
}

impl Profile {
    /// Makes the profile of `username` out of what the request for its page
    /// brought: `fetched` is the response, or `None` where the transport
    /// failed.
    ///
    /// A failure of any stage is returned as it is, and no profile with it.
    /// A profile that is returned has a username.
    pub fn get(username: &str, fetched: Option<Response>) -> (profile: Result<Profile, ScrapeError>)
        ensures
            outcome(profile) == acquired(username@, fetched_view(fetched)),
            profile matches Ok(resolved) ==> resolved@.has_username(),
    {
        match scrape_profile(username, fetched) {
            Ok(json_profile) => Ok(Profile::from(json_profile)),
            Err(error) => Err(error),
        }
    }
}

} // verus!
