//! From what a request for a profile page brought to the record of the
//! profile: the stages in their order, and the shapes of what they hand on.

use crate::decode::{parse_profile_json, profile_of_text};
use crate::error::{outcome, ScrapeError, ScrapeErrorView};
use crate::extract::{embedded_json, extract_instagram_json_text};
use vstd::prelude::*;

verus! {

/// A profile as the embedded data gives it.
#[derive(Debug, PartialEq)]
pub struct JsonProfile {
    pub username: String,
    pub full_name: Option<String>,
    pub biography: Option<String>,
    pub external_url: Option<String>,
    pub profile_pic_url_hd: Option<String>,
    pub is_private: bool,
    pub edge_owner_to_timeline_media: JsonEdgeOwnerToTimelineMedia,
}

/// The media of a profile's timeline, in the order of the embedded data.
#[derive(Debug, PartialEq)]
pub struct JsonEdgeOwnerToTimelineMedia {
    pub edges: Vec<JsonEdge>,
}

/// One entry of the timeline.
#[derive(Debug, PartialEq)]
pub struct JsonEdge {
    pub node: JsonNode,
}

/// What an entry of the timeline refers to: an image and when it was taken,
/// in seconds since the Unix epoch.
#[derive(Debug, PartialEq)]
pub struct JsonNode {
    pub display_url: String,
    pub taken_at_timestamp: i32,
}

/// One media edge as specifications see it.
pub struct RawMedia {
    pub display_url: Seq<char>,
    pub taken_at_timestamp: i32,
}

/// A [`JsonProfile`] as specifications see it.
pub struct RawProfile {
    pub username: Seq<char>,
    pub full_name: Option<Seq<char>>,
    pub biography: Option<Seq<char>>,
    pub external_url: Option<Seq<char>>,
    pub profile_pic_url_hd: Option<Seq<char>>,
    pub is_private: bool,
    pub edges: Seq<RawMedia>,
}

impl RawProfile {
    /// Whether the record names its user. A record that was decoded does;
    /// one that was written by hand may not.
    pub open spec fn has_username(self) -> bool {
        self.username.len() > 0
    }
}

impl View for JsonNode {
    type V = RawMedia;

    open spec fn view(&self) -> RawMedia {
        RawMedia { display_url: self.display_url@, taken_at_timestamp: self.taken_at_timestamp }
    }
}

impl View for JsonEdge {
    type V = RawMedia;

    open spec fn view(&self) -> RawMedia {
        self.node@
    }
}

impl View for JsonEdgeOwnerToTimelineMedia {
    type V = Seq<RawMedia>;

    open spec fn view(&self) -> Seq<RawMedia> {
        self.edges@.map_values(|edge: JsonEdge| edge@)
    }
}

impl View for JsonProfile {
    type V = RawProfile;

    open spec fn view(&self) -> RawProfile {
        RawProfile {
            username: self.username@,
            full_name: self.full_name.deep_view(),
            biography: self.biography.deep_view(),
            external_url: self.external_url.deep_view(),
            profile_pic_url_hd: self.profile_pic_url_hd.deep_view(),
            is_private: self.is_private,
            edges: self.edge_owner_to_timeline_media@,
        }
    }
}

/// The response to the request for a profile page, as the transport hands
/// it over.
#[derive(Debug, PartialEq)]
pub struct Response {
    /// The status code.
    pub status: u16,
    /// The body, unless it could not be read to its end.
    pub body: Option<String>,
}

/// A [`Response`] as specifications see it.
pub struct ResponseView {
    pub status: u16,
    pub body: Option<Seq<char>>,
}

impl View for Response {
    type V = ResponseView;

    open spec fn view(&self) -> ResponseView {
        ResponseView { status: self.status, body: self.body.deep_view() }
    }
}

/// What came of one request, as specifications see it: a response, or
/// nothing where the transport failed.
pub open spec fn fetched_view(fetched: Option<Response>) -> Option<ResponseView> {
    match fetched {
        Some(response) => Some(response@),
        None => None,
    }
}

/// The address of the page of `username`.
pub open spec fn profile_url(username: Seq<char>) -> Seq<char> {
    "https://instagram.com/"@ + username + "/"@
}

/// The address of the page of `username`. The name is put in as it is.
pub fn get_instagram_profile_url(username: &str) -> (url: String)
    ensures
        url@ == profile_url(username@),
{
    let mut url = String::from_str("https://instagram.com/");
    url.append(username);
    url.append("/");
    url
}

/// Whether a status code reports that there is no such page.
pub open spec fn status_not_found(status: u16) -> bool {
    status == 404
}

/// Whether a status code reports a failure, of the client or of the server.
pub open spec fn status_failed(status: u16) -> bool {
    400 <= status <= 599
}

/// What the status of a response says of the request for the page of
/// `username`: that there is no such user, that the request failed
/// otherwise, or nothing of the kind.
pub open spec fn status_verdict(username: Seq<char>, status: u16) -> Result<(), ScrapeErrorView> {
    if status_not_found(status) {
        Err(ScrapeErrorView::UserNotFound { username })
    } else if status_failed(status) {
        Err(ScrapeErrorView::HttpRequestError { status_code: status })
    } else {
        Ok(())
    }
}

/// The body of a response whose status reports no failure.
pub open spec fn body_of(response: ResponseView) -> Result<Seq<char>, ScrapeErrorView> {
    match response.body {
        Some(body) => Ok(body),
        None => Err(ScrapeErrorView::ResponseBodyError),
    }
}

/// The page that a request for the profile of `username` brought. The
/// failures are looked for in this order: that of the transport, a status
/// that says that there is no such user, any other status of a failure, a
/// body that could not be read.
pub open spec fn fetched_page(username: Seq<char>, fetched: Option<ResponseView>) -> Result<
    Seq<char>,
    ScrapeErrorView,
> {
    match fetched {
        None => Err(ScrapeErrorView::NetworkError),
        Some(response) => match status_verdict(username, response.status) {
            Err(error) => Err(error),
            Ok(_) => body_of(response),
        },
    }
}

/// The record that a request for the profile of `username` brought: each
/// stage works on what the stage before it made, and the first failure is
/// the failure of the whole.
pub open spec fn scraped(username: Seq<char>, fetched: Option<ResponseView>) -> Result<
    RawProfile,
    ScrapeErrorView,
> {
    match fetched_page(username, fetched) {
        Err(error) => Err(error),
        Ok(page) => match embedded_json(page) {
            Err(error) => Err(error),
            Ok(json_text) => profile_of_text(json_text),
        },
    }
}

/// Judges the status of the response to the request for the page of
/// `username`.
pub fn check_status(username: &str, status: u16) -> (verdict: Result<(), ScrapeError>)
    ensures
        outcome(verdict) == status_verdict(username@, status),
{
    if status == 404 {
        Err(ScrapeError::UserNotFound { username: username.to_owned() })
    } else if 400 <= status && status <= 599 {
        Err(ScrapeError::HttpRequestError { status_code: status })
    } else {
        Ok(())
    }
}

/// Takes the body out of a response.
pub fn get_response_body(response: Response) -> (body: Result<String, ScrapeError>)
    ensures
        outcome(body) == body_of(response@),
{
    match response.body {
        Some(body) => Ok(body),
        None => Err(ScrapeError::ResponseBodyError),
    }
}

/// Makes the record of a profile out of what the request for the page of
/// `username` brought: `fetched` is the response, or `None` where the
/// transport failed. The request itself is the caller's to make, to the
/// address that [`get_instagram_profile_url`] gives.
pub fn scrape_profile(username: &str, fetched: Option<Response>) -> (scraped_profile: Result<
    JsonProfile,
    ScrapeError,
>)
    ensures
        outcome(scraped_profile) == scraped(username@, fetched_view(fetched)),
        scraped_profile matches Ok(record) ==> record@.has_username(),
{
    let response = match fetched {
        Some(response) => response,
        None => { return Err(ScrapeError::NetworkError); },
    };
    check_status(username, response.status)?;
    let response_body = get_response_body(response)?;
    let json_text = extract_instagram_json_text(response_body.as_str())?;
    parse_profile_json(json_text.as_str())
}

} // verus!
