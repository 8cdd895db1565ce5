use chat_guard::media_group::{MediaGroupMiddleware, MediaGroupState, MediaItem, MediaKind, MAX_WAIT_MS, QUIET_PERIOD_MS};

fn ids(state: &MediaGroupState) -> Vec<String> {
    state.items.iter().map(|i| i.file_id.clone()).collect()
}

#[test]
fn media_item_prefers_photo_then_video_then_document() {
    let p = MediaGroupMiddleware::media_item(Some("p".to_string()), Some("v".to_string()), Some("d".to_string())).unwrap();
    assert_eq!((p.file_id.as_str(), p.kind), ("p", MediaKind::Photo));
    let v = MediaGroupMiddleware::media_item(None, Some("v".to_string()), Some("d".to_string())).unwrap();
    assert_eq!((v.file_id.as_str(), v.kind), ("v", MediaKind::Video));
    let d = MediaGroupMiddleware::media_item(None, None, Some("d".to_string())).unwrap();
    assert_eq!((d.file_id.as_str(), d.kind), ("d", MediaKind::Video));
    assert!(MediaGroupMiddleware::media_item(None, None, None).is_none());
}

#[test]
fn record_adds_new_files_in_order() {
    let mut state = MediaGroupState { items: Vec::new(), last_update_ms: 0 };
    MediaGroupMiddleware::record(&mut state, Some(MediaItem { file_id: "a".to_string(), kind: MediaKind::Photo }), 5);
    MediaGroupMiddleware::record(&mut state, Some(MediaItem { file_id: "b".to_string(), kind: MediaKind::Video }), 6);
    assert_eq!(ids(&state), vec!["a", "b"]);
    assert_eq!(state.last_update_ms, 6);
}

#[test]
fn record_skips_duplicate_files() {
    let mut state = MediaGroupState { items: Vec::new(), last_update_ms: 0 };
    MediaGroupMiddleware::record(&mut state, Some(MediaItem { file_id: "a".to_string(), kind: MediaKind::Photo }), 5);
    MediaGroupMiddleware::record(&mut state, Some(MediaItem { file_id: "a".to_string(), kind: MediaKind::Video }), 7);
    assert_eq!(ids(&state), vec!["a"]);
    assert_eq!(state.items[0].kind, MediaKind::Photo);
    assert_eq!(state.last_update_ms, 7);
    MediaGroupMiddleware::record(&mut state, None, 9);
    assert_eq!(ids(&state), vec!["a"]);
    assert_eq!(state.last_update_ms, 9);
}

#[test]
fn waiting_stops_when_quiet_or_too_long() {
    assert_eq!((QUIET_PERIOD_MS, MAX_WAIT_MS), (900, 8000));
    assert!(MediaGroupMiddleware::stop_waiting(900, 0));
    assert!(!MediaGroupMiddleware::stop_waiting(899, 7999));
    assert!(MediaGroupMiddleware::stop_waiting(0, 8000));
}
