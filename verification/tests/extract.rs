use shutter::error::ScrapeError;
use shutter::extract::extract_instagram_json_text;

#[test]
fn test_extract_instagram_json_text() {
    {
        let nominal_body = r#"<test>
                    window._sharedData = {"username": "peterdn"}
                    </test>"#;
        let nominal_json_text = extract_instagram_json_text(&nominal_body);
        assert_eq!(
            nominal_json_text,
            Ok(r#"{"username": "peterdn"}"#.to_string())
        );
    }

    {
        let nominal_body = r#"<test>
                    window._sharedData = {"username": "peterdn", "data": {}}
                    </test>"#;
        let nominal_json_text = extract_instagram_json_text(&nominal_body);
        assert_eq!(
            nominal_json_text,
            Ok(r#"{"username": "peterdn", "data": {}}"#.to_string())
        );
    }

    {
        let invalid_body = r#"<test>
                    window._sharedData = notrealjson
                    </test>"#;
        let invalid_json_text = extract_instagram_json_text(&invalid_body);
        assert_eq!(invalid_json_text, Err(ScrapeError::ProfileDataDecodeFailed));
    }

    {
        let invalid_body = r#"<test>
                    x = y
                    </test>"#;
        let invalid_json_text = extract_instagram_json_text(&invalid_body);
        assert_eq!(invalid_json_text, Err(ScrapeError::ProfileDataNotFound));
    }

    {
        let invalid_body = r#"<test>
                    window._badData = {"username": "peterdn"}
                    </test>"#;
        let invalid_json_text = extract_instagram_json_text(&invalid_body);
        assert_eq!(invalid_json_text, Err(ScrapeError::ProfileDataNotFound));
    }
}

fn page_with(line: &str) -> String {
    format!("<html>\n<script>x = 1;</script>\n{}\n</html>\n", line)
}

#[test]
fn extract_takes_first_opening_and_last_closing_brace() {
    let body = page_with(r#"<script>window._sharedData = {"a": {"b": {}}, "c": "}{"};</script>"#);
    assert_eq!(
        extract_instagram_json_text(&body),
        Ok(r#"{"a": {"b": {}}, "c": "}{"}"#.to_string())
    );
}

#[test]
fn extract_keeps_trailing_braces_of_the_line() {
    let body = page_with(r#"window._sharedData = {"a": 1}; f = function() { g({}) }"#);
    assert_eq!(
        extract_instagram_json_text(&body),
        Ok(r#"{"a": 1}; f = function() { g({}) }"#.to_string())
    );
}

#[test]
fn extract_uses_the_first_marked_line_only() {
    let body = "window._sharedData = nothing here\nwindow._sharedData = {\"a\": 1}\n";
    assert_eq!(
        extract_instagram_json_text(body),
        Err(ScrapeError::ProfileDataDecodeFailed)
    );
    let body = "window._sharedData = {\"a\": 1}\nwindow._sharedData = {\"a\": 2}\n";
    assert_eq!(extract_instagram_json_text(body), Ok("{\"a\": 1}".to_string()));
}

#[test]
fn extract_fails_on_a_missing_brace() {
    assert_eq!(
        extract_instagram_json_text("window._sharedData = {\"a\": 1"),
        Err(ScrapeError::ProfileDataDecodeFailed)
    );
    assert_eq!(
        extract_instagram_json_text("window._sharedData = \"a\": 1}"),
        Err(ScrapeError::ProfileDataDecodeFailed)
    );
    assert_eq!(
        extract_instagram_json_text("window._sharedData ="),
        Err(ScrapeError::ProfileDataDecodeFailed)
    );
}

#[test]
fn extract_fails_where_the_closing_brace_comes_first() {
    assert_eq!(
        extract_instagram_json_text("} window._sharedData = {"),
        Err(ScrapeError::ProfileDataDecodeFailed)
    );
}

#[test]
fn extract_does_not_join_lines() {
    assert_eq!(
        extract_instagram_json_text("window._sharedData = {\n\"a\": 1}"),
        Err(ScrapeError::ProfileDataDecodeFailed)
    );
    assert_eq!(
        extract_instagram_json_text("window._shared\nData = {\"a\": 1}"),
        Err(ScrapeError::ProfileDataNotFound)
    );
}

#[test]
fn extract_on_edge_pages() {
    assert_eq!(extract_instagram_json_text(""), Err(ScrapeError::ProfileDataNotFound));
    assert_eq!(extract_instagram_json_text("\n\n"), Err(ScrapeError::ProfileDataNotFound));
    assert_eq!(
        extract_instagram_json_text("window._sharedData ={}"),
        Ok("{}".to_string())
    );
    assert_eq!(
        extract_instagram_json_text("a\r\nwindow._sharedData = {\"k\": \"v\"};\r\nb"),
        Ok("{\"k\": \"v\"}".to_string())
    );
}

#[test]
fn extract_counts_characters_not_bytes() {
    let body = "é\nü window._sharedData = {\"name\": \"Zoë 日本\"} ✓\n";
    assert_eq!(
        extract_instagram_json_text(body),
        Ok("{\"name\": \"Zoë 日本\"}".to_string())
    );
}
