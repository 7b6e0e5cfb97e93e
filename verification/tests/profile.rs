use shutter::error::ScrapeError;
use shutter::image::{PostImage, ProfileImage, Timestamp};
use shutter::json::Json;
use shutter::profile::Profile;
use shutter::decode::profile_from_value;
use shutter::scrape::{JsonEdge, JsonEdgeOwnerToTimelineMedia, JsonNode, JsonProfile, Response};

#[test]
fn test_from_json_profile() {
    let json_profile = JsonProfile {
        username: "peterdn".to_string(),
        full_name: Some("Peter Nelson".to_string()),
        biography: Some("test biography".to_string()),
        external_url: Some("https://peterdn.com".to_string()),
        profile_pic_url_hd: Some("https://peterdn.com/profile.jpg".to_string()),
        is_private: true,
        edge_owner_to_timeline_media: JsonEdgeOwnerToTimelineMedia {
            edges: vec![
                JsonEdge {
                    node: JsonNode {
                        display_url: "https://peterdn.com/1.jpg".to_string(),
                        taken_at_timestamp: 1200000000,
                    },
                },
                JsonEdge {
                    node: JsonNode {
                        display_url: "https://peterdn.com/2.jpg".to_string(),
                        taken_at_timestamp: 1300000000,
                    },
                },
            ],
        },
    };
    assert_eq!(
        Profile::from(json_profile),
        Profile {
            username: "peterdn".to_string(),
            full_name: Some("Peter Nelson".to_string()),
            biography: Some("test biography".to_string()),
            external_url: Some("https://peterdn.com".to_string()),
            profile_pic: Some(ProfileImage {
                url: "https://peterdn.com/profile.jpg".to_string()
            }),
            is_private: true,
            images: vec![
                PostImage::new("https://peterdn.com/1.jpg", 1200000000),
                PostImage::new("https://peterdn.com/2.jpg", 1300000000),
            ],
        }
    );
}

fn instagram_page() -> String {
    let mut edges = Vec::new();
    for i in 0..12 {
        edges.push(format!(
            r#"{{"node": {{"display_url": "https://instagram.com/p/{}.jpg", "taken_at_timestamp": {}}}}}"#,
            i,
            1500000000 + i
        ));
    }
    let user = format!(
        r#"{{"username": "instagram", "full_name": "Instagram", "biography": "Discover what's next", "external_url": null, "profile_pic_url_hd": "https://instagram.com/pic.jpg", "is_private": false, "edge_owner_to_timeline_media": {{"count": 7000, "edges": [{}]}}}}"#,
        edges.join(",")
    );
    format!(
        "<!DOCTYPE html>\n<html>\n<body>\n<script type=\"text/javascript\">window._sharedData = {{\"config\": {{}}, \"entry_data\": {{\"ProfilePage\": [{{\"graphql\": {{\"user\": {}}}}}]}}}};</script>\n</body>\n</html>\n",
        user
    )
}

#[test]
fn test_get_instagram_profile() {
    let fetched = Some(Response { status: 200, body: Some(instagram_page()) });
    let profile = Profile::get("instagram", fetched);
    assert!(profile.is_ok());

    let profile = profile.unwrap();
    assert_eq!(profile.username, "instagram".to_string());
    assert!(!profile.is_private);
    assert_eq!(profile.images.len(), 12);
}

#[test]
fn get_projects_every_field() {
    let fetched = Some(Response { status: 200, body: Some(instagram_page()) });
    let profile = Profile::get("instagram", fetched).unwrap();
    assert_eq!(profile.full_name, Some("Instagram".to_string()));
    assert_eq!(profile.biography, Some("Discover what's next".to_string()));
    assert_eq!(profile.external_url, None);
    assert_eq!(
        profile.profile_pic,
        Some(ProfileImage { url: "https://instagram.com/pic.jpg".to_string() })
    );
    for (i, image) in profile.images.iter().enumerate() {
        assert_eq!(image.url, format!("https://instagram.com/p/{}.jpg", i));
        assert_eq!(image.timestamp_uploaded.seconds, 1500000000 + i as i64);
    }
}

#[test]
fn get_of_a_user_that_is_not_found() {
    let fetched = Some(Response { status: 404, body: Some("Not Found".to_string()) });
    assert_eq!(
        Profile::get("ghost", fetched),
        Err(ScrapeError::UserNotFound { username: "ghost".to_string() })
    );
}

#[test]
fn get_passes_failures_on_unchanged() {
    assert_eq!(Profile::get("u", None), Err(ScrapeError::NetworkError));
    assert_eq!(
        Profile::get("u", Some(Response { status: 500, body: Some(instagram_page()) })),
        Err(ScrapeError::HttpRequestError { status_code: 500 })
    );
    assert_eq!(
        Profile::get("u", Some(Response { status: 200, body: None })),
        Err(ScrapeError::ResponseBodyError)
    );
    assert_eq!(
        Profile::get("u", Some(Response { status: 200, body: Some(String::new()) })),
        Err(ScrapeError::ProfileDataNotFound)
    );
    assert_eq!(
        Profile::get("u", Some(Response { status: 200, body: Some("window._sharedData = ;".to_string()) })),
        Err(ScrapeError::ProfileDataDecodeFailed)
    );
    assert_eq!(
        Profile::get("u", Some(Response { status: 200, body: Some("window._sharedData = {]}".to_string()) })),
        Err(ScrapeError::ProfileJsonParseError)
    );
    assert_eq!(
        Profile::get("u", Some(Response { status: 200, body: Some("window._sharedData = {}".to_string()) })),
        Err(ScrapeError::ProfileJsonInvalid)
    );
}

#[test]
fn a_record_without_optional_fields_projects_to_a_bare_profile() {
    let blob = r#"{"username":"u","is_private":false,"edge_owner_to_timeline_media":{"edges":[]}}"#;
    let record = profile_from_value(&Json::parse(blob).unwrap()).unwrap();
    let profile = Profile::from(record);
    assert_eq!(
        profile,
        Profile {
            username: "u".to_string(),
            full_name: None,
            biography: None,
            external_url: None,
            profile_pic: None,
            is_private: false,
            images: vec![],
        }
    );
    assert!(profile.images.is_empty());
    assert_eq!(profile.profile_pic, None);
}

#[test]
fn optional_fields_that_are_null_project_to_none() {
    let blob = r#"{"username":"u","full_name":null,"biography":null,"external_url":null,"profile_pic_url_hd":null,"is_private":false,"edge_owner_to_timeline_media":{"edges":[]}}"#;
    let record = profile_from_value(&Json::parse(blob).unwrap()).unwrap();
    let profile = Profile::from(record);
    assert!(profile.images.is_empty());
    assert_eq!(profile.profile_pic, None);
    assert_eq!(profile.full_name, None);
    assert_eq!(profile.biography, None);
    assert_eq!(profile.external_url, None);
}

#[test]
fn projection_keeps_the_edges_in_order() {
    let urls = ["https://x/c.jpg", "https://x/a.jpg", "https://x/b.jpg", "https://x/a.jpg"];
    let times = [30, -10, 20, 2147483647];
    let edges = urls
        .iter()
        .zip(times.iter())
        .map(|(url, time)| JsonEdge {
            node: JsonNode { display_url: url.to_string(), taken_at_timestamp: *time },
        })
        .collect();
    let profile = Profile::from(JsonProfile {
        username: "u".to_string(),
        full_name: None,
        biography: None,
        external_url: None,
        profile_pic_url_hd: None,
        is_private: false,
        edge_owner_to_timeline_media: JsonEdgeOwnerToTimelineMedia { edges },
    });
    assert_eq!(profile.images.len(), 4);
    for i in 0..4 {
        assert_eq!(profile.images[i].url, urls[i]);
        assert_eq!(profile.images[i].timestamp_uploaded.seconds, times[i] as i64);
    }
}

#[test]
fn post_image_keeps_its_time() {
    let image = PostImage::new("doesntmatter.jpg", 1230000000);
    assert_eq!(image.url, "doesntmatter.jpg");
    assert_eq!(image.timestamp_uploaded, Timestamp { seconds: 1230000000 });
    assert_eq!(PostImage::new("", 0).timestamp_uploaded.seconds, 0);
    assert_eq!(PostImage::new("a", -1).timestamp_uploaded.seconds, -1);
    assert_eq!(PostImage::new("a", i32::MIN).timestamp_uploaded.seconds, -2147483648);
    assert_eq!(PostImage::new("a", i32::MAX).timestamp_uploaded.seconds, 2147483647);
}
