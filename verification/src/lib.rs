//! Acquires a public profile from its web page.
//!
//! The page of a profile embeds, in its markup, the data that the page is
//! rendered from. This library finds that data in the text of the page,
//! decodes it, and hands the profile on in a shape of its own:
//!
//! * [`extract`] finds the text of the embedded data in the page;
//! * [`decode`] parses that text, looks up the profile in it and decodes it
//!   into the record of [`scrape::JsonProfile`];
//! * [`scrape`] puts the stages in their order, from the response to the
//!   request for the page to the record;
//! * [`profile`] projects the record to a [`profile::Profile`].
//!
//! Each stage fails with one [`error::ScrapeError`], which the stages after it
//! pass on unchanged.
//!
//! The library makes no request and writes no file. Its callers fetch the
//! page at the address that [`scrape::get_instagram_profile_url`] gives and
//! hand over what came back; they download the images and hand over how
//! each download ended, and [`download`] says what came of the whole.

pub mod decode;
pub mod download;
pub mod error;
pub mod extract;
pub mod image;
pub mod json;
pub mod profile;
pub mod scrape;
pub mod text;
