use ytjobs::messages::{FailureReason, WorkerMessage};
use ytjobs::model::{Id, SearchDuration, SearchDurationItem, SearchItem, SearchResponse, Snippet,
    Thumbnails};
use ytjobs::search::{build_search_url, build_videos_url, SearchPipeline, SearchRequest};

fn item(video_id: Option<&str>, title: &str) -> SearchItem {
    SearchItem {
        kind: String::new(),
        etag: String::new(),
        id: Id {
            kind: String::new(),
            video_id: video_id.map(|s| s.to_string()),
            channel_id: None,
            playlist_id: None,
        },
        snippet: Snippet {
            published_at: String::new(),
            channel_id: String::new(),
            title: title.to_string(),
            description: String::new(),
            thumbnails: Thumbnails { default: None, medium: None, high: None },
            channel_title: String::new(),
            live_broadcast_content: String::new(),
        },
        is_enabled: true,
        video_durration: None,
    }
}

fn response(items: Vec<SearchItem>) -> SearchResponse {
    SearchResponse {
        kind: String::new(),
        etag: String::new(),
        next_page_token: String::new(),
        region_code: String::new(),
        page_info: None,
        items,
    }
}

fn duration_answer(pairs: &[(&str, &str)]) -> SearchDuration {
    SearchDuration {
        items: pairs
            .iter()
            .map(|(id, enc)| SearchDurationItem {
                video_id: id.to_string(),
                video_durration: enc.to_string(),
            })
            .collect(),
    }
}

#[test]
fn missing_credential_aborts_before_any_call() {
    let mut p = SearchPipeline::new("lofi".to_string(), 5);
    let (req, msgs) = p.begin(false);
    assert!(req.is_none());
    assert_eq!(msgs.len(), 1);
    assert!(matches!(
        msgs[0],
        WorkerMessage::JobFailed(None, FailureReason::NotConfigured)
    ));
}

#[test]
fn search_failure_publishes_only_the_failure() {
    let mut p = SearchPipeline::new("lofi".to_string(), 5);
    let (req, msgs) = p.begin(true);
    assert!(matches!(req, Some(SearchRequest::Search)));
    assert!(msgs.is_empty());
    let (req, msgs) = p.on_search_result(Err("connection refused".to_string()));
    assert!(req.is_none());
    assert_eq!(msgs.len(), 1);
    match &msgs[0] {
        WorkerMessage::JobFailed(None, FailureReason::Transport(why)) => {
            assert_eq!(why, "connection refused");
        }
        other => panic!("unexpected message: {:?}", message_name(other)),
    }
}

#[test]
fn zero_cap_publishes_empty_result_and_never_enriches() {
    let mut p = SearchPipeline::new("anything".to_string(), 0);
    let (_, msgs) = p.begin(true);
    assert!(msgs.is_empty());
    let resp = response(vec![item(Some("a"), "one"), item(Some("b"), "two")]);
    let (req, msgs) = p.on_search_result(Ok(resp));
    assert!(req.is_none(), "no enrichment request may be issued");
    assert_eq!(msgs.len(), 1);
    match &msgs[0] {
        WorkerMessage::SearchCompleted(out) => assert!(out.items.is_empty()),
        other => panic!("unexpected message: {:?}", message_name(other)),
    }
}

#[test]
fn items_without_ids_publish_without_enrichment() {
    let mut p = SearchPipeline::new("q".to_string(), 5);
    let _ = p.begin(true);
    let resp = response(vec![item(None, "one"), item(None, "two")]);
    let (req, msgs) = p.on_search_result(Ok(resp));
    assert!(req.is_none());
    assert_eq!(msgs.len(), 1);
    match &msgs[0] {
        WorkerMessage::SearchCompleted(out) => {
            assert_eq!(out.items.len(), 2);
            assert!(out.items.iter().all(|it| it.video_durration.is_none()));
        }
        other => panic!("unexpected message: {:?}", message_name(other)),
    }
}

#[test]
fn ids_are_batched_into_one_request() {
    let mut p = SearchPipeline::new("lofi".to_string(), 5);
    let _ = p.begin(true);
    let resp = response(vec![
        item(Some("a1"), "one"),
        item(None, "two"),
        item(Some("c3"), "three"),
    ]);
    let (req, msgs) = p.on_search_result(Ok(resp));
    assert!(msgs.is_empty());
    match req {
        Some(SearchRequest::Enrich(batch)) => assert_eq!(batch, "a1,c3"),
        _ => panic!("expected one batched enrichment request"),
    }
}

#[test]
fn result_is_trimmed_to_the_cap() {
    let mut p = SearchPipeline::new("q".to_string(), 2);
    let _ = p.begin(true);
    let resp = response(vec![
        item(Some("a"), "one"),
        item(Some("b"), "two"),
        item(Some("c"), "three"),
    ]);
    let (req, _) = p.on_search_result(Ok(resp));
    match req {
        Some(SearchRequest::Enrich(batch)) => assert_eq!(batch, "a,b"),
        _ => panic!("expected an enrichment request"),
    }
}

#[test]
fn enrichment_failure_still_publishes_the_search_result() {
    // Scenario: a five-item search whose enrichment call fails.
    let mut p = SearchPipeline::new("lofi".to_string(), 5);
    let _ = p.begin(true);
    let resp = response(vec![
        item(Some("a"), "one"),
        item(Some("b"), "two"),
        item(Some("c"), "three"),
        item(Some("d"), "four"),
        item(Some("e"), "five"),
    ]);
    let (req, msgs) = p.on_search_result(Ok(resp));
    assert!(matches!(req, Some(SearchRequest::Enrich(_))));
    assert!(msgs.is_empty());
    let msgs = p.on_enrichment_result(Err("server error".to_string()));
    assert_eq!(msgs.len(), 2);
    assert!(matches!(
        msgs[0],
        WorkerMessage::JobFailed(None, FailureReason::Transport(_))
    ));
    match &msgs[1] {
        WorkerMessage::SearchCompleted(out) => {
            assert_eq!(out.items.len(), 5);
            assert!(out.items.iter().all(|it| it.video_durration.is_none()));
        }
        other => panic!("unexpected message: {:?}", message_name(other)),
    }
}

#[test]
fn enrichment_success_merges_reformatted_durations() {
    let mut p = SearchPipeline::new("q".to_string(), 5);
    let _ = p.begin(true);
    let resp = response(vec![
        item(Some("a"), "one"),
        item(Some("b"), "two"),
        item(None, "three"),
    ]);
    let _ = p.on_search_result(Ok(resp));
    let answer = duration_answer(&[("a", "PT3M21S"), ("b", "PT1H2M3S"), ("zz", "PT9S")]);
    let msgs = p.on_enrichment_result(Ok(answer));
    assert_eq!(msgs.len(), 1);
    match &msgs[0] {
        WorkerMessage::SearchCompleted(out) => {
            assert_eq!(out.items[0].video_durration.as_deref(), Some("3:21"));
            assert_eq!(out.items[1].video_durration.as_deref(), Some("1:02:03"));
            assert_eq!(out.items[2].video_durration, None);
        }
        other => panic!("unexpected message: {:?}", message_name(other)),
    }
}

#[test]
fn malformed_duration_encodings_are_skipped_not_errors() {
    let mut p = SearchPipeline::new("q".to_string(), 5);
    let _ = p.begin(true);
    let resp = response(vec![item(Some("a"), "one"), item(Some("b"), "two")]);
    let _ = p.on_search_result(Ok(resp));
    let answer = duration_answer(&[("a", "garbage"), ("b", "PT45S")]);
    let msgs = p.on_enrichment_result(Ok(answer));
    match &msgs[0] {
        WorkerMessage::SearchCompleted(out) => {
            assert_eq!(out.items[0].video_durration, None);
            assert_eq!(out.items[1].video_durration.as_deref(), Some("45"));
        }
        other => panic!("unexpected message: {:?}", message_name(other)),
    }
}

#[test]
fn enrichment_body_is_read_and_merged() {
    let body = "{\"items\":[\
        {\"id\":\"a\",\"contentDetails\":{\"duration\":\"PT3M21S\"}},\
        {\"id\":17,\"contentDetails\":{\"duration\":\"PT1S\"}},\
        {\"id\":\"b\",\"contentDetails\":{}},\
        {\"id\":\"c\",\"contentDetails\":{\"duration\":\"PT2H\"}}\
    ]}";
    let answer = ytjobs::merge::extract_durations(body);

    let mut p = SearchPipeline::new("q".to_string(), 5);
    let _ = p.begin(true);
    let resp = response(vec![
        item(Some("a"), "one"),
        item(Some("b"), "two"),
        item(Some("c"), "three"),
    ]);
    let _ = p.on_search_result(Ok(resp));
    let msgs = p.on_enrichment_result(Ok(answer));
    match &msgs[0] {
        WorkerMessage::SearchCompleted(out) => {
            assert_eq!(out.items[0].video_durration.as_deref(), Some("3:21"));
            assert_eq!(out.items[1].video_durration, None);
            assert_eq!(out.items[2].video_durration.as_deref(), Some("2:00:00"));
        }
        other => panic!("unexpected message: {:?}", message_name(other)),
    }
}

#[test]
fn search_url_is_composed_exactly() {
    let url = build_search_url("lofi hip hop", "KEY", 10);
    assert_eq!(
        url,
        "https://www.googleapis.com/youtube/v3/search?part=snippet&q=lofi%20hip%20hop&key=KEY&maxResults=10&type=video&videCategoryId=10"
    );
}

#[test]
fn videos_url_is_composed_exactly() {
    let url = build_videos_url("a1,c3", "KEY");
    assert_eq!(
        url,
        "https://www.googleapis.com/youtube/v3/videos?part=contentDetails&id=a1,c3&key=KEY"
    );
}

fn message_name(m: &WorkerMessage) -> &'static str {
    match m {
        WorkerMessage::SearchCompleted(_) => "SearchCompleted",
        WorkerMessage::DownloadProgress(_, _) => "DownloadProgress",
        WorkerMessage::DownloadCompleted(_) => "DownloadCompleted",
        WorkerMessage::JobFailed(_, _) => "JobFailed",
    }
}
