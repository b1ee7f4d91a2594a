//! Data model of a search: the result set returned by the platform's
//! search call, and the per-id durations returned by the enrichment call.

use vstd::prelude::*;

verus! {

/// The text of an optional string.
pub open spec fn view_opt(o: Option<String>) -> Option<Seq<char>> {
    match o {
        Some(s) => Some(s@),
        None => None,
    }
}

/// Paging counters reported alongside a search result.
pub struct PageInfo {
    pub total_results: u64,
    pub results_per_page: u64,
}

/// The platform-specific identity of one search result.
pub struct Id {
    pub kind: String,
    pub video_id: Option<String>,
    pub channel_id: Option<String>,
    pub playlist_id: Option<String>,
}

/// One thumbnail reference.
pub struct ThumbnailData {
    pub url: String,
    pub width: Option<u32>,
    pub height: Option<u32>,
}

/// The thumbnail references of one item, by size.
pub struct Thumbnails {
    pub default: Option<ThumbnailData>,
    pub medium: Option<ThumbnailData>,
    pub high: Option<ThumbnailData>,
}

/// The descriptive part of one search result.
pub struct Snippet {
    pub published_at: String,
    pub channel_id: String,
    pub title: String,
    pub description: String,
    pub thumbnails: Thumbnails,
    pub channel_title: String,
    pub live_broadcast_content: String,
}

/// One search result.  `video_durration` starts absent and is filled in
/// by the enrichment stage, never by deserialization.
pub struct SearchItem {
    pub kind: String,
    pub etag: String,
    pub id: Id,
    pub snippet: Snippet,
    pub is_enabled: bool,
    pub video_durration: Option<String>,
}

/// An immutable snapshot of one query's results.
pub struct SearchResponse {
    pub kind: String,
    pub etag: String,
    pub next_page_token: String,
    pub region_code: String,
    pub page_info: Option<PageInfo>,
    pub items: Vec<SearchItem>,
}

impl Default for SearchResponse {
    /// A response with no items and every text field empty.
    fn default() -> (r: Self)
        ensures
            r.items@ == Seq::<SearchItem>::empty(),
            r.page_info is None,
            r.kind@ == Seq::<char>::empty(),
            r.etag@ == Seq::<char>::empty(),
            r.next_page_token@ == Seq::<char>::empty(),
            r.region_code@ == Seq::<char>::empty(),
    {
        SearchResponse {
            kind: String::new(),
            etag: String::new(),
            next_page_token: String::new(),
            region_code: String::new(),
            page_info: None,
            items: Vec::new(),
        }
    }
}

/// One entry of the enrichment call's answer: a platform id together
/// with the duration encoding the platform reported for it.
pub struct SearchDurationItem {
    pub video_id: String,
    pub video_durration: String,
}

/// The enrichment call's answer for one batch of ids.
pub struct SearchDuration {
    pub items: Vec<SearchDurationItem>,
}

impl Default for SearchDuration {
    /// An answer with no entries.
    fn default() -> (r: Self)
        ensures
            r.items@ == Seq::<SearchDurationItem>::empty(),
    {
        SearchDuration { items: Vec::new() }
    }
}

} // verus!
