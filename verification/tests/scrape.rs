use shutter::error::ScrapeError;
use shutter::scrape::{
    check_status, get_instagram_profile_url, get_response_body, scrape_profile, JsonEdge,
    JsonEdgeOwnerToTimelineMedia, JsonNode, JsonProfile, Response,
};

fn page_of(user: &str) -> String {
    format!(
        "<html>\n<script>x = 1;</script>\nwindow._sharedData = {{\"entry_data\": {{\"ProfilePage\": [{{\"graphql\": {{\"user\": {}}}}}]}}}};\n</html>\n",
        user
    )
}

#[test]
fn profile_url_is_built_from_the_name_as_it_is() {
    assert_eq!(get_instagram_profile_url("peterdn"), "https://instagram.com/peterdn/");
    assert_eq!(get_instagram_profile_url(""), "https://instagram.com//");
    assert_eq!(get_instagram_profile_url("a b/c"), "https://instagram.com/a b/c/");
}

#[test]
fn status_of_a_missing_user() {
    assert_eq!(
        check_status("ghost", 404),
        Err(ScrapeError::UserNotFound { username: "ghost".to_string() })
    );
}

#[test]
fn status_of_other_failures() {
    assert_eq!(check_status("u", 400), Err(ScrapeError::HttpRequestError { status_code: 400 }));
    assert_eq!(check_status("u", 403), Err(ScrapeError::HttpRequestError { status_code: 403 }));
    assert_eq!(check_status("u", 500), Err(ScrapeError::HttpRequestError { status_code: 500 }));
    assert_eq!(check_status("u", 599), Err(ScrapeError::HttpRequestError { status_code: 599 }));
}

#[test]
fn status_without_failure() {
    assert_eq!(check_status("u", 200), Ok(()));
    assert_eq!(check_status("u", 204), Ok(()));
    assert_eq!(check_status("u", 302), Ok(()));
    assert_eq!(check_status("u", 399), Ok(()));
    assert_eq!(check_status("u", 600), Ok(()));
}

#[test]
fn body_of_a_response() {
    assert_eq!(
        get_response_body(Response { status: 200, body: Some("page".to_string()) }),
        Ok("page".to_string())
    );
    assert_eq!(
        get_response_body(Response { status: 200, body: None }),
        Err(ScrapeError::ResponseBodyError)
    );
}

#[test]
fn scrape_reports_the_first_failure() {
    assert_eq!(scrape_profile("ghost", None), Err(ScrapeError::NetworkError));
    assert_eq!(
        scrape_profile("ghost", Some(Response { status: 404, body: None })),
        Err(ScrapeError::UserNotFound { username: "ghost".to_string() })
    );
    assert_eq!(
        scrape_profile("ghost", Some(Response { status: 503, body: None })),
        Err(ScrapeError::HttpRequestError { status_code: 503 })
    );
    assert_eq!(
        scrape_profile("ghost", Some(Response { status: 200, body: None })),
        Err(ScrapeError::ResponseBodyError)
    );
    assert_eq!(
        scrape_profile("ghost", Some(Response { status: 200, body: Some("<html>".to_string()) })),
        Err(ScrapeError::ProfileDataNotFound)
    );
    assert_eq!(
        scrape_profile(
            "ghost",
            Some(Response { status: 200, body: Some("window._sharedData = null;".to_string()) })
        ),
        Err(ScrapeError::ProfileDataDecodeFailed)
    );
    assert_eq!(
        scrape_profile(
            "ghost",
            Some(Response { status: 200, body: Some("window._sharedData = {not json}".to_string()) })
        ),
        Err(ScrapeError::ProfileJsonParseError)
    );
    assert_eq!(
        scrape_profile(
            "ghost",
            Some(Response { status: 200, body: Some("window._sharedData = {\"a\": 1}".to_string()) })
        ),
        Err(ScrapeError::ProfileJsonInvalid)
    );
}

#[test]
fn scrape_decodes_a_page() {
    let user = r#"{"username": "u", "is_private": true, "edge_owner_to_timeline_media": {"edges": [{"node": {"display_url": "https://x/1.jpg", "taken_at_timestamp": 7}}]}}"#;
    let body = page_of(user);
    assert_eq!(
        scrape_profile("u", Some(Response { status: 200, body: Some(body) })),
        Ok(JsonProfile {
            username: "u".to_string(),
            full_name: None,
            biography: None,
            external_url: None,
            profile_pic_url_hd: None,
            is_private: true,
            edge_owner_to_timeline_media: JsonEdgeOwnerToTimelineMedia {
                edges: vec![JsonEdge {
                    node: JsonNode { display_url: "https://x/1.jpg".to_string(), taken_at_timestamp: 7 },
                }],
            },
        })
    );
}
