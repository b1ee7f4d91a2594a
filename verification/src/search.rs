//! The two-stage search pipeline.
//!
//! Stage A issues the search call; stage B issues one batched
//! enrichment call for the ids stage A returned.  A stage A failure
//! aborts the pipeline and publishes only a failure; a stage B failure
//! degrades gracefully — the search result is still published, with
//! durations absent.  Exactly one `SearchCompleted` is published on
//! every path that has a result to publish.
//!
//! The pipeline owns no I/O: each step consumes the outcome the caller
//! obtained from the network and says which request, if any, to issue
//! next and which messages to put on the bus.

use crate::duration::spec_dec;
use crate::merge::{apply_durations, same_but_duration, spec_merged_duration};
use crate::messages::{FailureReason, WorkerMessage};
use crate::model::{view_opt, SearchDuration, SearchItem, SearchResponse};
use vstd::prelude::*;
use vstd::string::{StrSliceExecFns, StringExecFns};

verus! {

/// The first `max` items, or all of them when fewer arrived.
pub open spec fn spec_trimmed_items(items: Seq<SearchItem>, max: int) -> Seq<SearchItem> {
    if items.len() <= max {
        items
    } else {
        items.subrange(0, max)
    }
}

/// The platform ids of the items that have one, in order.
pub open spec fn spec_video_ids(items: Seq<SearchItem>) -> Seq<Seq<char>>
    decreases items.len(),
{
    if items.len() == 0 {
        Seq::empty()
    } else {
        spec_video_ids(items.drop_last()) + match items.last().id.video_id {
            Some(v) => seq![v@],
            None => Seq::empty(),
        }
    }
}

/// The ids joined with commas: one batched request, not one per item.
pub open spec fn spec_join_ids(ids: Seq<Seq<char>>) -> Seq<char>
    decreases ids.len(),
{
    if ids.len() == 0 {
        Seq::empty()
    } else if ids.len() == 1 {
        ids[0]
    } else {
        spec_join_ids(ids.drop_last()) + seq![','] + ids.last()
    }
}

/// Collect the platform ids of `items`.
pub fn collect_video_ids(items: &Vec<SearchItem>) -> (r: Vec<String>)
    ensures
        r.deep_view() == spec_video_ids(items@),
{
    let mut r: Vec<String> = Vec::new();
    let n = items.len();
    let mut i: usize = 0;
    proof {
        assert(items@.subrange(0, 0) =~= Seq::<SearchItem>::empty());
    }
    while i < n
        invariant
            i <= n,
            n == items@.len(),
            r.deep_view() == spec_video_ids(items@.subrange(0, i as int)),
        decreases n - i,
    {
        let ghost prefix = items@.subrange(0, i as int);
        let ghost next = items@.subrange(0, i + 1);
        proof {
            assert(next.drop_last() =~= prefix);
            assert(next.last() == items@[i as int]);
        }
        match &items[i].id.video_id {
            Some(v) => {
                let c = v.clone();
                r.push(c);
                proof {
                    assert(r.deep_view() =~= spec_video_ids(next));
                }
            },
            None => {
                proof {
                    assert(r.deep_view() =~= spec_video_ids(next));
                }
            },
        }
        i = i + 1;
    }
    proof {
        assert(items@.subrange(0, n as int) =~= items@);
    }
    r
}

/// Join the ids with commas.
pub fn join_ids(ids: &Vec<String>) -> (r: String)
    ensures
        r@ == spec_join_ids(ids.deep_view()),
{
    proof {
        reveal_strlit(",");
    }
    let n = ids.len();
    if n == 0 {
        let r = String::new();
        proof {
            assert(r@ =~= spec_join_ids(ids.deep_view()));
        }
        return r;
    }
    let mut r = ids[0].clone();
    let mut i: usize = 1;
    proof {
        assert(ids.deep_view().subrange(0, 1) =~= seq![ids@[0]@]);
        assert(r@ =~= spec_join_ids(ids.deep_view().subrange(0, 1)));
    }
    while i < n
        invariant
            1 <= i <= n,
            n == ids@.len(),
            n == ids.deep_view().len(),
            r@ == spec_join_ids(ids.deep_view().subrange(0, i as int)),
        decreases n - i,
    {
        let ghost dv = ids.deep_view();
        let ghost next = dv.subrange(0, i + 1);
        proof {
            assert(next.drop_last() =~= dv.subrange(0, i as int));
            assert(next.last() == ids@[i as int]@);
        }
        r.append(",");
        r.append(ids[i].as_str());
        proof {
            reveal_strlit(",");
            assert(r@ =~= spec_join_ids(next));
        }
        i = i + 1;
    }
    proof {
        assert(ids.deep_view().subrange(0, n as int) =~= ids.deep_view());
    }
    r
}

/// `q` with every space written `%20`, as a query-string fragment.
pub open spec fn spec_encode_spaces(q: Seq<char>) -> Seq<char>
    decreases q.len(),
{
    if q.len() == 0 {
        Seq::empty()
    } else {
        spec_encode_spaces(q.drop_last()) + if q.last() == ' ' {
            seq!['%', '2', '0']
        } else {
            seq![q.last()]
        }
    }
}

/// Encode spaces of a free-text query for use inside a URL.
pub fn encode_spaces(q: &str) -> (r: String)
    ensures
        r@ == spec_encode_spaces(q@),
{
    proof {
        reveal_strlit("%20");
    }
    let n = q.unicode_len();
    let mut r = String::new();
    let mut i: usize = 0;
    proof {
        assert(r@ =~= spec_encode_spaces(q@.subrange(0, 0)));
    }
    while i < n
        invariant
            i <= n,
            n == q@.len(),
            r@ == spec_encode_spaces(q@.subrange(0, i as int)),
        decreases n - i,
    {
        let ghost next = q@.subrange(0, i + 1);
        proof {
            assert(next.drop_last() =~= q@.subrange(0, i as int));
            assert(next.last() == q@[i as int]);
        }
        let c = q.get_char(i);
        if c == ' ' {
            r.append("%20");
        } else {
            let piece = q.substring_char(i, i + 1);
            proof {
                assert(piece@ =~= seq![q@[i as int]]);
            }
            r.append(piece);
        }
        proof {
            reveal_strlit("%20");
            assert(r@ =~= spec_encode_spaces(next));
        }
        i = i + 1;
    }
    proof {
        assert(q@.subrange(0, n as int) =~= q@);
    }
    r
}

/// The search call's URL for one query, credential and result cap.
pub open spec fn spec_search_url(q: Seq<char>, key: Seq<char>, max: int) -> Seq<char> {
    "https://www.googleapis.com/youtube/v3/search?part=snippet&q="@ + spec_encode_spaces(q)
        + "&key="@ + key + "&maxResults="@ + spec_dec(max) + "&type=video&videCategoryId=10"@
}

/// Compose the search call's URL.
pub fn build_search_url(query: &str, key: &str, max_results: u8) -> (r: String)
    ensures
        r@ == spec_search_url(query@, key@, max_results as int),
{
    let mut r = String::from_str("https://www.googleapis.com/youtube/v3/search?part=snippet&q=");
    let q = encode_spaces(query);
    r.append(q.as_str());
    r.append("&key=");
    r.append(key);
    r.append("&maxResults=");
    let m = crate::duration::u32_dec(max_results as u32);
    r.append(m.as_str());
    r.append("&type=video&videCategoryId=10");
    proof {
        assert(r@ =~= spec_search_url(query@, key@, max_results as int));
    }
    r
}

/// The enrichment call's URL for one comma-joined id batch.
pub open spec fn spec_videos_url(ids: Seq<char>, key: Seq<char>) -> Seq<char> {
    "https://www.googleapis.com/youtube/v3/videos?part=contentDetails&id="@ + ids + "&key="@ + key
}

/// Compose the enrichment call's URL.
pub fn build_videos_url(joined_ids: &str, key: &str) -> (r: String)
    ensures
        r@ == spec_videos_url(joined_ids@, key@),
{
    let mut r = String::from_str(
        "https://www.googleapis.com/youtube/v3/videos?part=contentDetails&id=",
    );
    r.append(joined_ids);
    r.append("&key=");
    r.append(key);
    proof {
        assert(r@ =~= spec_videos_url(joined_ids@, key@));
    }
    r
}

/// Where the pipeline stands.
pub enum SearchPhase {
    /// Created, not yet begun.
    Ready,
    /// The search call is in flight.
    AwaitSearch,
    /// The enrichment call is in flight.
    AwaitEnrich,
    /// Finished; nothing further will be published.
    Done,
}

/// The network request the caller is asked to issue next.
pub enum SearchRequest {
    /// Issue the search call for the pipeline's query and cap.
    Search,
    /// Issue one batched enrichment call for the comma-joined ids.
    Enrich(String),
}

/// One search, from query to published result.
pub struct SearchPipeline {
    /// The free-text query.
    pub query: String,
    /// The result cap; zero is legal and yields an empty result.
    pub max_results: u8,
    /// Stage A's trimmed result, held while enrichment is in flight.
    pub pending: SearchResponse,
    /// Where the pipeline stands.
    pub phase: SearchPhase,
}

impl SearchPipeline {
    /// A pipeline for one query.
    pub fn new(query: String, max_results: u8) -> (r: Self)
        ensures
            r.phase is Ready,
            r.query == query,
            r.max_results == max_results,
    {
        SearchPipeline {
            query,
            max_results,
            pending: SearchResponse::default(),
            phase: SearchPhase::Ready,
        }
    }

    /// Start: without the credential the pipeline aborts before any
    /// network call, reporting the configuration failure once;
    /// otherwise it asks for the search call.
    pub fn begin(&mut self, has_credential: bool) -> (r: (Option<SearchRequest>, Vec<
        WorkerMessage,
    >))
        requires
            old(self).phase is Ready,
        ensures
            final(self).query == old(self).query,
            final(self).max_results == old(self).max_results,
            has_credential ==> final(self).phase is AwaitSearch && (r.0 matches Some(req)
                && req is Search) && r.1@ =~= Seq::<WorkerMessage>::empty(),
            !has_credential ==> final(self).phase is Done && r.0 is None && r.1@.len() == 1 && (
            r.1@[0] matches WorkerMessage::JobFailed(row, reason) && row is None
                && reason is NotConfigured),
    {
        if has_credential {
            self.phase = SearchPhase::AwaitSearch;
            (Some(SearchRequest::Search), Vec::new())
        } else {
            self.phase = SearchPhase::Done;
            (
                None,
                vec![WorkerMessage::JobFailed(None, FailureReason::NotConfigured)],
            )
        }
    }

    /// Consume stage A's outcome.  A transport failure aborts the
    /// pipeline, publishing only the failure.  A result is trimmed to
    /// the cap; with no ids to enrich it is published at once, else the
    /// enrichment request is handed back and nothing is published yet.
    pub fn on_search_result(&mut self, outcome: Result<SearchResponse, String>) -> (r: (Option<
        SearchRequest,
    >, Vec<WorkerMessage>))
        requires
            old(self).phase is AwaitSearch,
        ensures
            final(self).query == old(self).query,
            final(self).max_results == old(self).max_results,
            outcome matches Err(why) ==> final(self).phase is Done && r.0 is None && r.1@.len()
                == 1 && (r.1@[0] matches WorkerMessage::JobFailed(row, reason) && row is None && (
            reason matches FailureReason::Transport(w) && w == why)),
            outcome matches Ok(resp) ==> ({
                let kept = spec_trimmed_items(resp.items@, old(self).max_results as int);
                let ids = spec_video_ids(kept);
                &&& (ids.len() == 0 ==> final(self).phase is Done && r.0 is None && r.1@.len() == 1
                    && (r.1@[0] matches WorkerMessage::SearchCompleted(out) && out.items@ == kept
                    && out.kind == resp.kind && out.etag == resp.etag && out.next_page_token
                    == resp.next_page_token && out.region_code == resp.region_code && out.page_info
                    == resp.page_info))
                &&& (ids.len() > 0 ==> final(self).phase is AwaitEnrich && r.1@ =~= Seq::<
                    WorkerMessage,
                >::empty() && (r.0 matches Some(req) && req matches SearchRequest::Enrich(batch)
                    && batch@ == spec_join_ids(ids)) && final(self).pending.items@ == kept
                    && final(self).pending.kind == resp.kind && final(self).pending.etag
                    == resp.etag && final(self).pending.next_page_token == resp.next_page_token
                    && final(self).pending.region_code == resp.region_code
                    && final(self).pending.page_info == resp.page_info)
            }),
    {
        match outcome {
            Err(why) => {
                self.phase = SearchPhase::Done;
                (
                    None,
                    vec![WorkerMessage::JobFailed(None, FailureReason::Transport(why))],
                )
            },
            Ok(mut resp) => {
                let cap = self.max_results as usize;
                if resp.items.len() > cap {
                    resp.items.truncate(cap);
                }
                let ids = collect_video_ids(&resp.items);
                if ids.len() == 0 {
                    self.phase = SearchPhase::Done;
                    (None, vec![WorkerMessage::SearchCompleted(resp)])
                } else {
                    let batch = join_ids(&ids);
                    self.pending = resp;
                    self.phase = SearchPhase::AwaitEnrich;
                    (Some(SearchRequest::Enrich(batch)), Vec::new())
                }
            },
        }
    }

    /// Consume stage B's outcome.  Enrichment is best effort: on
    /// success the merged result is published; on failure the held
    /// result is still published, durations absent, after the failure
    /// report.  Either way exactly one `SearchCompleted` goes out and
    /// the pipeline is done.
    pub fn on_enrichment_result(&mut self, outcome: Result<SearchDuration, String>) -> (msgs: Vec<
        WorkerMessage,
    >)
        requires
            old(self).phase is AwaitEnrich,
        ensures
            final(self).phase is Done,
            outcome matches Err(why) ==> msgs@.len() == 2 && (
            msgs@[0] matches WorkerMessage::JobFailed(row, reason) && row is None && (
            reason matches FailureReason::Transport(w) && w == why)) && (
            msgs@[1] matches WorkerMessage::SearchCompleted(out) && out == old(self).pending),
            outcome matches Ok(durs) ==> msgs@.len() == 1 && (
            msgs@[0] matches WorkerMessage::SearchCompleted(out)
                && out.items@.len() == old(self).pending.items@.len() && (forall|i: int|
                0 <= i < old(self).pending.items@.len() ==> same_but_duration(
                    #[trigger] out.items@[i],
                    old(self).pending.items@[i],
                ) && view_opt(out.items@[i].video_durration) == spec_merged_duration(
                    old(self).pending.items@[i],
                    durs.items@,
                )) && out.kind == old(self).pending.kind && out.etag == old(self).pending.etag
                && out.next_page_token == old(self).pending.next_page_token && out.region_code
                == old(self).pending.region_code && out.page_info == old(self).pending.page_info),
    {
        self.phase = SearchPhase::Done;
        let mut out = SearchResponse::default();
        core::mem::swap(&mut out, &mut self.pending);
        match outcome {
            Ok(durs) => {
                apply_durations(&mut out, &durs);
                vec![WorkerMessage::SearchCompleted(out)]
            },
            Err(why) => {
                vec![
                    WorkerMessage::JobFailed(None, FailureReason::Transport(why)),
                    WorkerMessage::SearchCompleted(out),
                ]
            },
        }
    }
}

/// A zero result cap keeps no items, so there are no ids to enrich:
/// the pipeline publishes an empty result set and issues no
/// enrichment request, whatever the search call returned.
pub proof fn lemma_zero_cap_no_enrichment(items: Seq<SearchItem>)
    ensures
        spec_trimmed_items(items, 0).len() == 0,
        spec_video_ids(spec_trimmed_items(items, 0)).len() == 0,
{
    assert(spec_trimmed_items(items, 0) =~= Seq::<SearchItem>::empty());
}

} // verus!
