//! The decoder: from the text of the embedded data to the record of the
//! profile.
//!
//! Three steps, each with a failure of its own: the text is parsed as a
//! JSON document, the part that describes the profile is looked up in the
//! document, and that part is decoded, strictly, into a [`JsonProfile`].

use crate::error::{outcome, ScrapeError, ScrapeErrorView};
use crate::json::{document, Json, JsonValue};
use crate::scrape::{
    JsonEdge, JsonEdgeOwnerToTimelineMedia, JsonNode, JsonProfile, RawMedia, RawProfile,
};
use vstd::prelude::*;

verus! {

/// Member `name` of `value`, where there is a value.
pub open spec fn member_of(value: Option<JsonValue>, name: Seq<char>) -> Option<JsonValue> {
    match value {
        Some(value) => value.member(name),
        None => None,
    }
}

/// Where a document keeps the profile: in member `user` of member `graphql`
/// of the first item of member `ProfilePage` of member `entry_data`.
pub open spec fn profile_node(document: JsonValue) -> Option<JsonValue> {
    let pages = member_of(document.member("entry_data"@), "ProfilePage"@);
    let page = match pages {
        Some(pages) => pages.element(0),
        None => None,
    };
    member_of(member_of(page, "graphql"@), "user"@)
}

/// The part of a document that describes the profile. A document in which
/// a step of the way is missing, or which holds `null` at its end,
/// describes none.
pub open spec fn located_profile(document: JsonValue) -> Result<JsonValue, ScrapeErrorView> {
    match profile_node(document) {
        None => Err(ScrapeErrorView::ProfileJsonInvalid),
        Some(JsonValue::Null) => Err(ScrapeErrorView::ProfileJsonInvalid),
        Some(node) => Ok(node),
    }
}

/// The text of member `name`, which has to be there and to be text.
pub open spec fn required_text(node: JsonValue, name: Seq<char>) -> Option<Seq<char>> {
    match node.member(name) {
        Some(JsonValue::Text(text)) => Some(text),
        _ => None,
    }
}

/// The text of member `name`, which may be missing or `null`; what is
/// there has to be text.
pub open spec fn optional_text(node: JsonValue, name: Seq<char>) -> Option<Option<Seq<char>>> {
    match node.member(name) {
        None => Some(None),
        Some(JsonValue::Null) => Some(None),
        Some(JsonValue::Text(text)) => Some(Some(text)),
        _ => None,
    }
}

/// The truth value of member `name`, which has to be there and to be one.
pub open spec fn required_bool(node: JsonValue, name: Seq<char>) -> Option<bool> {
    match node.member(name) {
        Some(JsonValue::Bool(b)) => Some(b),
        _ => None,
    }
}

/// The number of member `name`, which has to be there and to be a whole
/// number from `i32::MIN` to `i32::MAX`.
pub open spec fn required_i32(node: JsonValue, name: Seq<char>) -> Option<i32> {
    match node.member(name) {
        Some(JsonValue::Number { integer: Some(n) }) => if i32::MIN <= n <= i32::MAX {
            Some(n as i32)
        } else {
            None
        },
        _ => None,
    }
}

/// One entry of the timeline: its member `node` holds the address of the
/// image and the time.
pub open spec fn decoded_media(edge: JsonValue) -> Option<RawMedia> {
    match edge.member("node"@) {
        Some(node) => match (
            required_text(node, "display_url"@),
            required_i32(node, "taken_at_timestamp"@),
        ) {
            (Some(display_url), Some(taken_at_timestamp)) => Some(
                RawMedia { display_url, taken_at_timestamp },
            ),
            _ => None,
        },
        None => None,
    }
}

/// The entries of the timeline, in their order. One entry of an unexpected
/// shape spoils them all.
pub open spec fn decoded_edges(items: Seq<JsonValue>) -> Option<Seq<RawMedia>> {
    if forall|i: int| 0 <= i < items.len() ==> (#[trigger] decoded_media(items[i])) is Some {
        Some(items.map_values(|item: JsonValue| decoded_media(item).unwrap()))
    } else {
        None
    }
}

/// The timeline: its member `edges` has to be an array of entries.
pub open spec fn decoded_timeline(media: JsonValue) -> Option<Seq<RawMedia>> {
    match media.member("edges"@) {
        Some(JsonValue::Array(items)) => decoded_edges(items),
        _ => None,
    }
}

/// The profile that `node` describes, where it has the shape of one: an
/// object with a `username` that is text and not empty, an `is_private`
/// that is a truth value and an `edge_owner_to_timeline_media` that is a
/// timeline; the other members may be missing or `null`, and are text
/// otherwise.
pub open spec fn decoded_profile(node: JsonValue) -> Option<RawProfile> {
    match (
        required_text(node, "username"@),
        optional_text(node, "full_name"@),
        optional_text(node, "biography"@),
        optional_text(node, "external_url"@),
        optional_text(node, "profile_pic_url_hd"@),
        required_bool(node, "is_private"@),
        member_of(Some(node), "edge_owner_to_timeline_media"@),
    ) {
        (
            Some(username),
            Some(full_name),
            Some(biography),
            Some(external_url),
            Some(profile_pic_url_hd),
            Some(is_private),
            Some(media),
        ) => match decoded_timeline(media) {
            Some(edges) => {
                let profile = RawProfile {
                    username,
                    full_name,
                    biography,
                    external_url,
                    profile_pic_url_hd,
                    is_private,
                    edges,
                };
                if profile.has_username() {
                    Some(profile)
                } else {
                    None
                }
            },
            None => None,
        },
        _ => None,
    }
}

/// What a part of a document that describes a profile decodes to.
pub open spec fn profile_of_value(node: JsonValue) -> Result<RawProfile, ScrapeErrorView> {
    match decoded_profile(node) {
        Some(profile) => Ok(profile),
        None => Err(ScrapeErrorView::ProfileJsonParseError),
    }
}

/// What a document decodes to.
pub open spec fn profile_of_document(document: JsonValue) -> Result<RawProfile, ScrapeErrorView> {
    match located_profile(document) {
        Ok(node) => profile_of_value(node),
        Err(error) => Err(error),
    }
}

/// What the text of the embedded data decodes to.
pub open spec fn profile_of_text(json_text: Seq<char>) -> Result<RawProfile, ScrapeErrorView> {
    match document(json_text) {
        Some(document) => profile_of_document(document),
        None => Err(ScrapeErrorView::ProfileJsonParseError),
    }
}

/// A document that lacks a step of the way to the profile is invalid: so
/// is one without `entry_data`, without `ProfilePage` in that, without a
/// first item in that, without `graphql` in that item, or without `user`
/// in that.
pub proof fn lemma_document_without_profile(document: JsonValue)
    requires
        profile_node(document) is None,
    ensures
        profile_of_document(document) == Err::<RawProfile, ScrapeErrorView>(
            ScrapeErrorView::ProfileJsonInvalid,
        ),
{
}

/// A document that has all the steps of the way to the profile, and at
/// their end a value in which `username`, `is_private` or
/// `edge_owner_to_timeline_media` is missing, cannot be parsed.
pub proof fn lemma_profile_without_required_member(document: JsonValue, name: Seq<char>)
    requires
        located_profile(document) matches Ok(node) && node.member(name) is None,
        name == "username"@ || name == "is_private"@ || name == "edge_owner_to_timeline_media"@,
    ensures
        profile_of_document(document) == Err::<RawProfile, ScrapeErrorView>(
            ScrapeErrorView::ProfileJsonParseError,
        ),
{
}

/// A profile that was decoded has a username: that of the member
/// `username`.
pub proof fn lemma_decoded_profile_has_username(node: JsonValue)
    requires
        decoded_profile(node) is Some,
    ensures
        decoded_profile(node).unwrap().has_username(),
        required_text(node, "username"@) == Some(decoded_profile(node).unwrap().username),
{
}

/// Finds the part of a document that describes the profile.
pub fn locate_profile(document: &Json) -> (located: Result<&Json, ScrapeError>)
    ensures
        outcome(located) == located_profile(document@),
{
    let entry = match document.member("entry_data") {
        Some(entry) => entry,
        None => { return Err(ScrapeError::ProfileJsonInvalid); },
    };
    let pages = match entry.member("ProfilePage") {
        Some(pages) => pages,
        None => { return Err(ScrapeError::ProfileJsonInvalid); },
    };
    let page = match pages.element(0) {
        Some(page) => page,
        None => { return Err(ScrapeError::ProfileJsonInvalid); },
    };
    let graph = match page.member("graphql") {
        Some(graph) => graph,
        None => { return Err(ScrapeError::ProfileJsonInvalid); },
    };
    match graph.member("user") {
        Some(Json::Null) => Err(ScrapeError::ProfileJsonInvalid),
        Some(user) => Ok(user),
        None => Err(ScrapeError::ProfileJsonInvalid),
    }
}

/// Parses the text of the embedded data and returns the part of it that
/// describes the profile.
pub fn get_profile_json_value(json_text: &str) -> (value: Result<Json, ScrapeError>)
    ensures
        outcome(value) == (match document(json_text@) {
            Some(document) => located_profile(document),
            None => Err(ScrapeErrorView::ProfileJsonParseError),
        }),
{
    match Json::parse(json_text) {
        Ok(document) => match locate_profile(&document) {
            Ok(user) => Ok(user.clone()),
            Err(error) => Err(error),
        },
        Err(error) => Err(error),
    }
}

/// The text of member `name`, which has to be there and to be text.
fn text_member(node: &Json, name: &str) -> (text: Option<String>)
    ensures
        text.deep_view() == required_text(node@, name@),
{
    match node.member(name) {
        Some(Json::Text(text)) => Some(text.clone()),
        _ => None,
    }
}

/// The text of member `name`, which may be missing or `null`.
fn optional_text_member(node: &Json, name: &str) -> (text: Option<Option<String>>)
    ensures
        text.deep_view() == optional_text(node@, name@),
{
    match node.member(name) {
        None => Some(None),
        Some(Json::Null) => Some(None),
        Some(Json::Text(text)) => Some(Some(text.clone())),
        _ => None,
    }
}

/// The truth value of member `name`.
fn bool_member(node: &Json, name: &str) -> (value: Option<bool>)
    ensures
        value == required_bool(node@, name@),
{
    match node.member(name) {
        Some(Json::Bool(b)) => Some(*b),
        _ => None,
    }
}

/// The number of member `name`, where it fits `i32`.
fn i32_member(node: &Json, name: &str) -> (value: Option<i32>)
    ensures
        value == required_i32(node@, name@),
{
    match node.member(name) {
        Some(Json::Number { integer: Some(n) }) => {
            if -2147483648 <= *n && *n <= 2147483647 {
                Some(*n as i32)
            } else {
                None
            }
        },
        _ => None,
    }
}

/// Decodes one entry of the timeline.
fn edge_from_value(edge: &Json) -> (decoded: Option<JsonEdge>)
    ensures
        match decoded {
            Some(edge_read) => decoded_media(edge@) == Some(edge_read@),
            None => decoded_media(edge@) is None,
        },
{
    let node = match edge.member("node") {
        Some(node) => node,
        None => { return None; },
    };
    let display_url = match text_member(node, "display_url") {
        Some(text) => text,
        None => { return None; },
    };
    let taken_at_timestamp = match i32_member(node, "taken_at_timestamp") {
        Some(n) => n,
        None => { return None; },
    };
    Some(JsonEdge { node: JsonNode { display_url, taken_at_timestamp } })
}

/// Decodes the timeline.
fn timeline_from_value(media: &Json) -> (decoded: Option<JsonEdgeOwnerToTimelineMedia>)
    ensures
        match decoded {
            Some(timeline) => decoded_timeline(media@) == Some(timeline@),
            None => decoded_timeline(media@) is None,
        },
{
    let items = match media.member("edges") {
        Some(Json::Array(items)) => items,
        _ => { return None; },
    };
    proof {
        Json::lemma_array_view(*items);
    }
    let ghost values = media@.member("edges"@)->0->Array_0;
    let mut edges: Vec<JsonEdge> = Vec::new();
    let mut i: usize = 0;
    while i < items.len()
        invariant
            i <= items.len(),
            values.len() == items.len(),
            decoded_timeline(media@) == decoded_edges(values),
            forall|j: int| 0 <= j < items.len() ==> (#[trigger] values[j]) == items[j]@,
            edges.len() == i,
            forall|j: int| 0 <= j < i ==> decoded_media(values[j]) == Some(#[trigger] edges[j]@),
        decreases items.len() - i,
    {
        match edge_from_value(&items[i]) {
            Some(edge) => {
                edges.push(edge);
            },
            None => {
                assert(decoded_media(values[i as int]) is None);
                return None;
            },
        }
        i += 1;
    }
    let timeline = JsonEdgeOwnerToTimelineMedia { edges };
    proof {
        assert forall|j: int| 0 <= j < values.len() implies (#[trigger] decoded_media(
            values[j],
        )) is Some by {
            assert(decoded_media(values[j]) == Some(timeline.edges[j]@));
        }
        assert(timeline@ =~= decoded_edges(values).unwrap()) by {
            assert forall|j: int| 0 <= j < values.len() implies timeline@[j] == decoded_edges(
                values,
            ).unwrap()[j] by {
                assert(decoded_media(values[j]) == Some(timeline.edges[j]@));
            }
        }
    }
    Some(timeline)
}

/// Decodes the part of a document that describes a profile. The members
/// `username`, `is_private` and `edge_owner_to_timeline_media` have to be
/// there; whatever is there has to be of the expected type, and the
/// username not empty.
pub fn profile_from_value(node: &Json) -> (decoded: Result<JsonProfile, ScrapeError>)
    ensures
        outcome(decoded) == profile_of_value(node@),
        decoded matches Ok(record) ==> record@.has_username(),
{
    let username = match text_member(node, "username") {
        Some(text) => text,
        None => { return Err(ScrapeError::ProfileJsonParseError); },
    };
    if username.as_str().is_empty() {
        return Err(ScrapeError::ProfileJsonParseError);
    }
    let full_name = match optional_text_member(node, "full_name") {
        Some(text) => text,
        None => { return Err(ScrapeError::ProfileJsonParseError); },
    };
    let biography = match optional_text_member(node, "biography") {
        Some(text) => text,
        None => { return Err(ScrapeError::ProfileJsonParseError); },
    };
    let external_url = match optional_text_member(node, "external_url") {
        Some(text) => text,
        None => { return Err(ScrapeError::ProfileJsonParseError); },
    };
    let profile_pic_url_hd = match optional_text_member(node, "profile_pic_url_hd") {
        Some(text) => text,
        None => { return Err(ScrapeError::ProfileJsonParseError); },
    };
    let is_private = match bool_member(node, "is_private") {
        Some(b) => b,
        None => { return Err(ScrapeError::ProfileJsonParseError); },
    };
    let media = match node.member("edge_owner_to_timeline_media") {
        Some(media) => media,
        None => { return Err(ScrapeError::ProfileJsonParseError); },
    };
    let edge_owner_to_timeline_media = match timeline_from_value(media) {
        Some(timeline) => timeline,
        None => { return Err(ScrapeError::ProfileJsonParseError); },
    };
    Ok(
        JsonProfile {
            username,
            full_name,
            biography,
            external_url,
            profile_pic_url_hd,
            is_private,
            edge_owner_to_timeline_media,
        },
    )
}

/// Decodes the text of the embedded data.
///
/// Text that is not well-formed fails with `ProfileJsonParseError`; a
/// document that describes no profile with `ProfileJsonInvalid`; one that
/// describes a profile of an unexpected shape with `ProfileJsonParseError`.
pub fn parse_profile_json(json_text: &str) -> (decoded: Result<JsonProfile, ScrapeError>)
    ensures
        outcome(decoded) == profile_of_text(json_text@),
        decoded matches Ok(record) ==> record@.has_username(),
{
    let user = get_profile_json_value(json_text)?;
    profile_from_value(&user)
}

} // verus!
