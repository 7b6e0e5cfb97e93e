use shutter::download::{download_result, Attempt, FailedDownload, Step};

fn completed(url: &str) -> Attempt {
    Attempt { url: url.to_string(), failed_at: None }
}

fn failed(url: &str, step: Step) -> Attempt {
    Attempt { url: url.to_string(), failed_at: Some(step) }
}

#[test]
fn three_completed_downloads_succeed() {
    let attempts = vec![completed("https://x/1.jpg"), completed("https://x/2.jpg"), completed("https://x/3.jpg")];
    assert_eq!(download_result(&attempts), Ok(()));
}

#[test]
fn one_failed_fetch_fails_the_whole_and_is_named() {
    let attempts = vec![
        completed("https://x/1.jpg"),
        failed("https://x/2.jpg", Step::Fetch),
        completed("https://x/3.jpg"),
    ];
    assert_eq!(
        download_result(&attempts),
        Err(vec![FailedDownload { url: "https://x/2.jpg".to_string(), step: Step::Fetch }])
    );
}

#[test]
fn every_failure_is_named_in_order() {
    let attempts = vec![
        failed("https://x/1.jpg", Step::OpenDestination),
        completed("https://x/2.jpg"),
        failed("https://x/3.jpg", Step::Fetch),
        failed("https://x/1.jpg", Step::Fetch),
    ];
    assert_eq!(
        download_result(&attempts),
        Err(vec![
            FailedDownload { url: "https://x/1.jpg".to_string(), step: Step::OpenDestination },
            FailedDownload { url: "https://x/3.jpg".to_string(), step: Step::Fetch },
            FailedDownload { url: "https://x/1.jpg".to_string(), step: Step::Fetch },
        ])
    );
}

#[test]
fn no_downloads_succeed() {
    assert_eq!(download_result(&vec![]), Ok(()));
}
