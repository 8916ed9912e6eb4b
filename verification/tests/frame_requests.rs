use kicad_sch_ui::frame_requests::FrameRequests;

#[test]
fn a_canvas_over_a_fixed_stream_asks_for_nothing() {
    let mut requests = FrameRequests::new();
    assert!(!requests.has_live_document());
    assert!(!requests.begin_refresh(true));
    requests.invalidate_view();
    assert!(!requests.begin_refresh(true));
    assert_eq!(requests.document_renders(), 0);
}

#[test]
fn opening_asks_the_document_for_one_frame_and_then_stops() {
    let mut requests = FrameRequests::new();
    requests.attach();
    assert!(requests.begin_refresh(true));
    requests.finish_refresh(Ok(()));
    for _ in 0..5 {
        assert!(!requests.begin_refresh(true));
    }
    assert_eq!(requests.document_renders(), 1);
    requests.invalidate_view();
    assert!(requests.begin_refresh(true));
    assert_eq!(requests.document_renders(), 2);
}

#[test]
fn a_busy_document_is_asked_again() {
    let mut requests = FrameRequests::new();
    requests.attach();
    assert!(!requests.begin_refresh(false));
    assert!(requests.begin_refresh(true));
    assert_eq!(requests.document_renders(), 1);
}

#[test]
fn a_failure_is_kept_until_a_request_succeeds() {
    let mut requests = FrameRequests::new();
    requests.attach();
    requests.begin_refresh(true);
    requests.finish_refresh(Err("no document loaded".to_string()));
    assert_eq!(requests.document_error().map(String::as_str), Some("no document loaded"));
    requests.host_handled(false);
    assert!(!requests.begin_refresh(true));
    requests.host_handled(true);
    assert!(requests.begin_refresh(true));
    requests.finish_refresh(Ok(()));
    assert!(requests.document_error().is_none());
}

#[test]
fn the_host_hears_of_each_view_change_once() {
    let mut requests = FrameRequests::new();
    assert!(requests.take_viewport_report());
    assert!(!requests.take_viewport_report());
    requests.mark_document_dirty();
    assert!(!requests.take_viewport_report());
    requests.invalidate_view();
    assert!(requests.take_viewport_report());
}
