//! The search response as the provider documents it: one value per JSON
//! document, read-only once built.
//!
//! Counts that the provider may report beyond the range of a machine integer
//! (`total_results`) are kept as the decimal text that was sent.

use vstd::prelude::*;

verus! {

/// The result of one search call.
#[derive(Debug, PartialEq, Eq)]
pub struct Response {
    /// Tag of the document, `customsearch#search` for a search result.
    pub kind: String,
    /// The request template; informational.
    pub url: Url,
    /// The request that produced this page and the one for the next page.
    pub queries: Queries,
    /// The search engine that answered.
    pub context: Context,
    /// Timing and result counts.
    pub search_information: SearchInformation,
    /// The hits of this page, in rank order; empty when the result set is
    /// exhausted.
    pub items: Vec<Item>,
}

/// The template from which the provider builds search requests.
#[derive(Debug, PartialEq, Eq)]
pub struct Url {
    /// Media type of the answers, sent under the key `type`.
    pub media_type: String,
    /// The URL template.
    pub template: String,
}

/// The requests that the provider echoes with a page.
#[derive(Debug, PartialEq, Eq)]
pub struct Queries {
    /// The request that produced this page.
    pub request: Vec<Request>,
    /// The request that would produce the next page.
    pub next_page: Vec<Request>,
}

/// The parameters of one request as the provider understood them.
#[derive(Debug, PartialEq, Eq)]
pub struct Request {
    pub title: String,
    /// Estimated size of the whole result set, in decimal notation.
    pub total_results: String,
    pub search_terms: String,
    /// Number of hits in the page.
    pub count: i32,
    /// Position of the page's first hit in the result set, counted from 1.
    pub start_index: i32,
    pub input_encoding: String,
    pub output_encoding: String,
    pub safe: String,
    /// Identifier of the search engine.
    pub cx: String,
    pub search_type: String,
}

/// Display data of the search engine.
#[derive(Debug, PartialEq, Eq)]
pub struct Context {
    pub title: String,
}

/// Timing and size of the search.
#[derive(Debug, PartialEq, Eq)]
pub struct SearchInformation {
    /// Seconds that the search took, as the bit pattern of the IEEE 754
    /// single-precision number that was sent.
    pub search_time_bits: u32,
    pub formatted_search_time: String,
    /// Estimated size of the whole result set, in decimal notation.
    pub total_results: String,
    pub formatted_total_results: String,
}

/// One search hit.
#[derive(Debug, PartialEq, Eq)]
pub struct Item {
    pub kind: String,
    pub title: String,
    pub html_title: String,
    /// URL of the image itself: what the download loop fetches.
    pub link: String,
    pub display_link: String,
    pub snippet: String,
    pub html_snippet: String,
    pub mime: String,
    pub file_format: String,
    pub image: Image,
}

/// Physical data of a hit's image and of its thumbnail.
#[derive(Debug, PartialEq, Eq)]
pub struct Image {
    /// The page on which the image was found.
    pub context_link: String,
    pub height: i32,
    pub width: i32,
    pub byte_size: i32,
    pub thumbnail_link: String,
    pub thumbnail_height: i32,
    pub thumbnail_width: i32,
}

} // verus!
