//! Merging the enrichment answer into a search result.
//!
//! The enrichment call reports a duration encoding per platform id.
//! Every item whose id appears in the answer gets its duration set to
//! the reformatted encoding; items without an id, ids the answer does
//! not mention, and malformed encodings are skipped, never an error.

use crate::duration::{duration_hours, duration_minutes, duration_seconds, duration_wf,
    reformat_duration, spec_reformat};
use crate::json::{duration_entry, duration_entry_of, duration_items_len, duration_items_len_of};
use crate::model::{view_opt, SearchDuration, SearchDurationItem, SearchItem, SearchResponse};
use vstd::prelude::*;

verus! {

/// The encoding the answer reports for `id`, the last entry winning.
pub open spec fn spec_lookup_duration(entries: Seq<SearchDurationItem>, id: Seq<char>) -> Option<
    Seq<char>,
>
    decreases entries.len(),
{
    if entries.len() == 0 {
        None
    } else if entries.last().video_id@ == id {
        Some(entries.last().video_durration@)
    } else {
        spec_lookup_duration(entries.drop_last(), id)
    }
}

/// Whether an encoding can be reformatted: well-formed, components in
/// machine range.
pub open spec fn reformattable(enc: Seq<char>) -> bool {
    &&& duration_wf(enc)
    &&& duration_hours(enc) <= u32::MAX
    &&& duration_minutes(enc) <= u32::MAX
    &&& duration_seconds(enc) <= u32::MAX
}

/// The duration text an item carries after the merge.
pub open spec fn spec_merged_duration(it: SearchItem, entries: Seq<SearchDurationItem>) -> Option<
    Seq<char>,
> {
    match it.id.video_id {
        Some(vid) => match spec_lookup_duration(entries, vid@) {
            Some(enc) => if reformattable(enc) {
                Some(spec_reformat(enc))
            } else {
                view_opt(it.video_durration)
            },
            None => view_opt(it.video_durration),
        },
        None => view_opt(it.video_durration),
    }
}

/// The merge touches nothing of an item but its duration.
pub open spec fn same_but_duration(a: SearchItem, b: SearchItem) -> bool {
    &&& a.kind == b.kind
    &&& a.etag == b.etag
    &&& a.id == b.id
    &&& a.snippet == b.snippet
    &&& a.is_enabled == b.is_enabled
}

/// Find the encoding the answer reports for `id`, if any.
fn lookup_duration<'a>(durs: &'a SearchDuration, id: &String) -> (r: Option<&'a String>)
    ensures
        r matches Some(d) ==> spec_lookup_duration(durs.items@, id@) == Some(d@),
        r is None ==> spec_lookup_duration(durs.items@, id@) is None,
{
    let n = durs.items.len();
    let mut i = n;
    proof {
        assert(durs.items@.subrange(0, n as int) =~= durs.items@);
    }
    while i > 0
        invariant
            i <= n,
            n == durs.items@.len(),
            spec_lookup_duration(durs.items@, id@) == spec_lookup_duration(
                durs.items@.subrange(0, i as int),
                id@,
            ),
        decreases i,
    {
        let entry = &durs.items[i - 1];
        proof {
            assert(durs.items@.subrange(0, i as int).last() == durs.items@[i - 1]);
        }
        if entry.video_id.eq(id) {
            return Some(&entry.video_durration);
        }
        proof {
            assert(durs.items@.subrange(0, i as int).drop_last() =~= durs.items@.subrange(
                0,
                i - 1,
            ));
        }
        i = i - 1;
    }
    proof {
        assert(durs.items@.subrange(0, 0) =~= Seq::<SearchDurationItem>::empty());
    }
    None
}

/// A placeholder item, swapped in while one element is edited.
fn blank_item() -> SearchItem {
    SearchItem {
        kind: String::new(),
        etag: String::new(),
        id: crate::model::Id {
            kind: String::new(),
            video_id: None,
            channel_id: None,
            playlist_id: None,
        },
        snippet: crate::model::Snippet {
            published_at: String::new(),
            channel_id: String::new(),
            title: String::new(),
            description: String::new(),
            thumbnails: crate::model::Thumbnails { default: None, medium: None, high: None },
            channel_title: String::new(),
            live_broadcast_content: String::new(),
        },
        is_enabled: false,
        video_durration: None,
    }
}

/// Merge the enrichment answer into `resp`: set the duration of every
/// item the answer mentions, reformatted; leave everything else alone.
pub fn apply_durations(resp: &mut SearchResponse, durs: &SearchDuration)
    ensures
        final(resp).items@.len() == old(resp).items@.len(),
        forall|i: int|
            0 <= i < old(resp).items@.len() ==> same_but_duration(
                #[trigger] final(resp).items@[i],
                old(resp).items@[i],
            ) && view_opt(final(resp).items@[i].video_durration) == spec_merged_duration(
                old(resp).items@[i],
                durs.items@,
            ),
        final(resp).kind == old(resp).kind,
        final(resp).etag == old(resp).etag,
        final(resp).next_page_token == old(resp).next_page_token,
        final(resp).region_code == old(resp).region_code,
        final(resp).page_info == old(resp).page_info,
{
    let n = resp.items.len();
    let mut i: usize = 0;
    while i < n
        invariant
            i <= n,
            n == resp.items@.len(),
            n == old(resp).items@.len(),
            resp.kind == old(resp).kind,
            resp.etag == old(resp).etag,
            resp.next_page_token == old(resp).next_page_token,
            resp.region_code == old(resp).region_code,
            resp.page_info == old(resp).page_info,
            forall|j: int| i <= j < n ==> resp.items@[j] == old(resp).items@[j],
            forall|j: int|
                0 <= j < i ==> same_but_duration(
                    #[trigger] resp.items@[j],
                    old(resp).items@[j],
                ) && view_opt(resp.items@[j].video_durration) == spec_merged_duration(
                    old(resp).items@[j],
                    durs.items@,
                ),
        decreases n - i,
    {
        let upd: Option<String> = match &resp.items[i].id.video_id {
            None => None,
            Some(vid) => match lookup_duration(durs, vid) {
                None => None,
                Some(enc) => reformat_duration(enc.as_str()),
            },
        };
        if let Some(text) = upd {
            let mut tmp = blank_item();
            resp.items.set_and_swap(i, &mut tmp);
            tmp.video_durration = Some(text);
            resp.items.set_and_swap(i, &mut tmp);
        }
        i = i + 1;
    }
}

/// The id and duration texts the answer holds.
pub open spec fn entries_view(items: Seq<SearchDurationItem>) -> Seq<(Seq<char>, Seq<char>)> {
    items.map_values(|it: SearchDurationItem| (it.video_id@, it.video_durration@))
}

/// The well-formed entries among the first `n` elements of the
/// response body's `items` array, in order: exactly those whose id
/// and duration are present as strings.
pub open spec fn spec_duration_entries(body: Seq<char>, n: int) -> Seq<(Seq<char>, Seq<char>)>
    decreases n,
{
    if n <= 0 {
        Seq::empty()
    } else {
        spec_duration_entries(body, n - 1) + match duration_entry_of(body, n - 1) {
            Some(e) => seq![e],
            None => Seq::empty(),
        }
    }
}

/// Read the enrichment response body: each element of its `items`
/// array contributes its `id` and its `contentDetails.duration` when
/// both are present as strings; every other element is skipped, never
/// an error, and the well-formed ones all contribute, in order.
pub fn extract_durations(body: &str) -> (r: SearchDuration)
    ensures
        entries_view(r.items@) == spec_duration_entries(body@, duration_items_len_of(body@)),
{
    let n = duration_items_len(body);
    let mut out: Vec<SearchDurationItem> = Vec::new();
    let mut i: usize = 0;
    proof {
        assert(entries_view(out@) =~= spec_duration_entries(body@, 0));
    }
    while i < n
        invariant
            i <= n,
            n == duration_items_len_of(body@),
            entries_view(out@) == spec_duration_entries(body@, i as int),
        decreases n - i,
    {
        match duration_entry(body, i) {
            Some(entry) => {
                out.push(
                    SearchDurationItem { video_id: entry.0, video_durration: entry.1 },
                );
                proof {
                    assert(entries_view(out@) =~= spec_duration_entries(body@, i + 1));
                }
            },
            None => {
                proof {
                    assert(entries_view(out@) =~= spec_duration_entries(body@, i + 1));
                }
            },
        }
        i = i + 1;
    }
    SearchDuration { items: out }
}

} // verus!
