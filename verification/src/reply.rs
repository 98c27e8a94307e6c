//! The answers of the routes that serve pages and rows.

use vstd::prelude::*;
use vstd::string::*;
use crate::status::{INTERNAL_SERVER_ERROR, OK};

verus! {

/// The answer to a request for a page.
#[derive(Clone, Debug, PartialEq, Eq)]
pub enum Page {
    /// The rendered page, sent as HTML.
    Html(String),
    /// Rendering failed: the sentence that says so, sent as plain text.
    Failure(String),
}

/// The sentence that reports why a template could not be rendered.
pub open spec fn render_failure_text(reason: Seq<char>) -> Seq<char> {
    "Failed to render template. Error: "@ + reason
}

impl Page {
    /// The HTTP status the page is sent with.
    pub open spec fn spec_status_code(&self) -> u16 {
        match self {
            Page::Html(_) => OK,
            Page::Failure(_) => INTERNAL_SERVER_ERROR,
        }
    }

    /// The answer for what the template engine returned: the page it
    /// rendered, or a report of the reason it gave for failing.
    pub fn from_rendering(rendered: Result<String, String>) -> (page: Page)
        ensures
            match rendered {
                Ok(html) => page == Page::Html(html),
                Err(reason) => page matches Page::Failure(text) && text@ == render_failure_text(
                    reason@,
                ),
            },
    {
        match rendered {
            Ok(html) => Page::Html(html),
            Err(reason) => {
                let mut text = String::from_str("Failed to render template. Error: ");
                text.append(reason.as_str());
                Page::Failure(text)
            },
        }
    }

    /// The HTTP status the page is sent with.
    #[verifier::when_used_as_spec(spec_status_code)]
    pub fn status_code(&self) -> (code: u16)
        ensures
            code == self.spec_status_code(),
    {
        match self {
            Page::Html(_) => OK,
            Page::Failure(_) => INTERNAL_SERVER_ERROR,
        }
    }
}

/// A row of the table `sample_entity`.
#[derive(Clone, Debug, PartialEq, Eq)]
pub struct SampleEntity {
    pub id: i64,
    pub name: Option<String>,
}

/// The answer to a request for the rows of the table.
#[derive(Clone, Debug, PartialEq, Eq)]
pub enum Listing {
    /// The rows, sent as a JSON array.
    Rows(Vec<SampleEntity>),
    /// The query failed. Nothing is said of why.
    Failure,
}

impl Listing {
    /// The HTTP status the listing is sent with.
    pub open spec fn spec_status_code(&self) -> u16 {
        match self {
            Listing::Rows(_) => OK,
            Listing::Failure => INTERNAL_SERVER_ERROR,
        }
    }

    /// The answer for what the query returned: its rows, untouched and in
    /// their order, or a failure whatever the error was.
    pub fn from_query<E>(fetched: Result<Vec<SampleEntity>, E>) -> (listing: Listing)
        ensures
            match fetched {
                Ok(rows) => listing == Listing::Rows(rows),
                Err(_) => listing == Listing::Failure,
            },
    {
        match fetched {
            Ok(rows) => Listing::Rows(rows),
            Err(_) => Listing::Failure,
        }
    }

    /// The HTTP status the listing is sent with.
    #[verifier::when_used_as_spec(spec_status_code)]
    pub fn status_code(&self) -> (code: u16)
        ensures
            code == self.spec_status_code(),
    {
        match self {
            Listing::Rows(_) => OK,
            Listing::Failure => INTERNAL_SERVER_ERROR,
        }
    }
}

} // verus!
