//! The ways in which acquiring a profile can fail.

use vstd::prelude::*;

verus! {

/// Why a profile could not be acquired. Every stage fails with exactly one
/// of these, and no stage recovers from the failure of another.
#[derive(Clone, Debug, PartialEq, Eq)]
pub enum ScrapeError {
    /// The transport failed before a response arrived.
    NetworkError,
    /// A response arrived, with a status that reports a failure.
    HttpRequestError { status_code: u16 },
    /// The response says that there is no such user.
    UserNotFound { username: String },
    /// The body of the response could not be read to its end.
    ResponseBodyError,
    /// No line of the page holds the marker of the embedded data.
    ProfileDataNotFound,
    /// The marked line holds no text between braces.
    ProfileDataDecodeFailed,
    /// The embedded data is not well-formed, or describes a profile of an
    /// unexpected shape.
    ProfileJsonParseError,
    /// The embedded data is well-formed and describes no profile.
    ProfileJsonInvalid,
}

/// An [`ScrapeError`] as specifications see it.
pub enum ScrapeErrorView {
    NetworkError,
    HttpRequestError { status_code: u16 },
    UserNotFound { username: Seq<char> },
    ResponseBodyError,
    ProfileDataNotFound,
    ProfileDataDecodeFailed,
    ProfileJsonParseError,
    ProfileJsonInvalid,
}

impl View for ScrapeError {
    type V = ScrapeErrorView;

    open spec fn view(&self) -> ScrapeErrorView {
        match self {
            ScrapeError::NetworkError => ScrapeErrorView::NetworkError,
            ScrapeError::HttpRequestError { status_code } => ScrapeErrorView::HttpRequestError {
                status_code: *status_code,
            },
            ScrapeError::UserNotFound { username } => ScrapeErrorView::UserNotFound {
                username: username@,
            },
            ScrapeError::ResponseBodyError => ScrapeErrorView::ResponseBodyError,
            ScrapeError::ProfileDataNotFound => ScrapeErrorView::ProfileDataNotFound,
            ScrapeError::ProfileDataDecodeFailed => ScrapeErrorView::ProfileDataDecodeFailed,
            ScrapeError::ProfileJsonParseError => ScrapeErrorView::ProfileJsonParseError,
            ScrapeError::ProfileJsonInvalid => ScrapeErrorView::ProfileJsonInvalid,
        }
    }
}

/// A result as specifications see it: what was computed, or why nothing was.
pub open spec fn outcome<T: View>(result: Result<T, ScrapeError>) -> Result<T::V, ScrapeErrorView> {
    match result {
        Ok(value) => Ok(value@),
        Err(error) => Err(error@),
    }
}

/// The character that stands for a single decimal digit.
pub open spec fn digit(d: nat) -> char
    recommends
        d < 10,
{
    ('0' as u8 + d) as char
}

/// A number in decimal notation, without leading zeros.
pub open spec fn decimal(n: nat) -> Seq<char>
    decreases n,
{
    if n < 10 {
        seq![digit(n)]
    } else {
        decimal(n / 10).push(digit(n % 10))
    }
}

impl ScrapeErrorView {
    /// What a user is told of this failure.
    pub open spec fn message(self) -> Seq<char> {
        match self {
            ScrapeErrorView::NetworkError => "A network error caused the request to fail"@,
            ScrapeErrorView::HttpRequestError { status_code } => "HTTP request failed ("@ + decimal(
                status_code as nat,
            ) + ")"@,
            ScrapeErrorView::UserNotFound { username } => "User `"@ + username + "` was not found"@,
            ScrapeErrorView::ResponseBodyError => "Error retrieving response body"@,
            ScrapeErrorView::ProfileDataNotFound => "Failed to find profile data"@,
            ScrapeErrorView::ProfileDataDecodeFailed => "Failed to decode profile data"@,
            ScrapeErrorView::ProfileJsonParseError => "Failed to parse profile json"@,
            ScrapeErrorView::ProfileJsonInvalid => "Profile json data is invalid"@,
        }
    }
}

/// The text of one decimal digit.
fn digit_text(d: u16) -> (text: &'static str)
    requires
        d < 10,
    ensures
        text@ == seq![digit(d as nat)],
{
    proof {
        reveal_strlit("0");
        reveal_strlit("1");
        reveal_strlit("2");
        reveal_strlit("3");
        reveal_strlit("4");
        reveal_strlit("5");
        reveal_strlit("6");
        reveal_strlit("7");
        reveal_strlit("8");
        reveal_strlit("9");
    }
    let text = match d {
        0 => "0",
        1 => "1",
        2 => "2",
        3 => "3",
        4 => "4",
        5 => "5",
        6 => "6",
        7 => "7",
        8 => "8",
        _ => "9",
    };
    assert(text@ =~= seq![digit(d as nat)]);
    text
}

/// Appends `n`, in decimal notation, to `text`.
fn append_decimal(text: &mut String, n: u16)
    ensures
        final(text)@ == old(text)@ + decimal(n as nat),
    decreases n,
{
    if n >= 10 {
        append_decimal(text, n / 10);
    }
    text.append(digit_text(n % 10));
    assert(text@ =~= old(text)@ + decimal(n as nat));
}

impl ScrapeError {
    /// What a user is told of this failure.
    pub fn message(&self) -> (text: String)
        ensures
            text@ == self@.message(),
    {
        match self {
            ScrapeError::NetworkError => String::from_str(
                "A network error caused the request to fail",
            ),
            ScrapeError::HttpRequestError { status_code } => {
                let mut text = String::from_str("HTTP request failed (");
                append_decimal(&mut text, *status_code);
                text.append(")");
                text
            },
            ScrapeError::UserNotFound { username } => {
                let mut text = String::from_str("User `");
                text.append(username.as_str());
                text.append("` was not found");
                text
            },
            ScrapeError::ResponseBodyError => String::from_str("Error retrieving response body"),
            ScrapeError::ProfileDataNotFound => String::from_str("Failed to find profile data"),
            ScrapeError::ProfileDataDecodeFailed => String::from_str(
                "Failed to decode profile data",
            ),
            ScrapeError::ProfileJsonParseError => String::from_str("Failed to parse profile json"),
            ScrapeError::ProfileJsonInvalid => String::from_str("Profile json data is invalid"),
        }
    }
}

} // verus!
