use sse_clock::error::SSEError;
use sse_clock::sample::ClockSample;
use sse_clock::protocol::{
    bind_event_request, event_request, metadata_request, remove_request, removal_succeeded,
    request_url, status_error, RequestKind, SSE_APP_ID, SSE_EVENT_ID,
};

#[test]
fn request_paths() {
    assert_eq!(RequestKind::RemoveGame.path(), "/remove_game");
    assert_eq!(RequestKind::GameMetadata.path(), "/game_metadata");
    assert_eq!(RequestKind::BindGameEvent.path(), "/bind_game_event");
    assert_eq!(RequestKind::GameEvent.path(), "/game_event");
}

#[test]
fn url_joins_address_and_path() {
    assert_eq!(request_url("127.0.0.1:1234", "/game_event"), "http://127.0.0.1:1234/game_event");
    assert_eq!(request_url("", ""), "http://");
}

#[test]
fn removal_carve_out() {
    assert!(removal_succeeded(&Ok(())));
    assert!(removal_succeeded(&Err(SSEError::HttpError(Some(400)))));
    assert!(!removal_succeeded(&Err(SSEError::HttpError(Some(404)))));
    assert!(!removal_succeeded(&Err(SSEError::HttpError(Some(500)))));
    assert!(!removal_succeeded(&Err(SSEError::HttpError(None))));
    assert!(!removal_succeeded(&Err(SSEError::NoAddress)));
}

#[test]
fn statuses() {
    assert_eq!(status_error(200), None);
    assert_eq!(status_error(204), None);
    assert_eq!(status_error(400), Some(SSEError::HttpError(Some(400))));
    assert_eq!(status_error(302), Some(SSEError::HttpError(Some(302))));
}

#[test]
fn metadata_body() {
    let r = metadata_request();
    assert_eq!(r.game, "CLOCK_DISPLAY");
    assert_eq!(r.game_display_name, "Clock Display");
    assert_eq!(r.icon_color_id, 6);
    assert_eq!(remove_request().game, SSE_APP_ID);
}

#[test]
fn bind_body() {
    let r = bind_event_request();
    assert_eq!(r.game, SSE_APP_ID);
    assert_eq!(r.event, "CLOCK");
    assert_eq!(r.handlers.len(), 1);
    let h = &r.handlers[0];
    assert_eq!((h.device_type, h.zone, h.mode), ("screened", "one", "screen"));
    assert_eq!(h.datas.len(), 1);
    assert_eq!(h.datas[0].icon_id, 15);
    let keys: Vec<(bool, &str)> =
        h.datas[0].lines.iter().map(|l| (l.has_text, l.context_frame_key)).collect();
    assert_eq!(keys, vec![(true, "date"), (true, "time")]);
}

#[test]
fn event_body() {
    let r = event_request("2024-05-06", "07:08:09");
    assert_eq!(r.game, SSE_APP_ID);
    assert_eq!(r.event, SSE_EVENT_ID);
    assert_eq!(r.data.value, "07:08:09");
    assert_eq!(r.data.frame.date, "2024-05-06");
    assert_eq!(r.data.frame.time, "07:08:09");
}

#[test]
fn clock_sample_lines() {
    let t = chrono::NaiveDate::from_ymd_opt(2024, 5, 6).unwrap().and_hms_opt(7, 8, 9).unwrap();
    let s = ClockSample::of(&t);
    assert_eq!(s.date, "2024-05-06");
    assert_eq!(s.time, "07:08:09");
    let t = chrono::NaiveDate::from_ymd_opt(1999, 12, 31).unwrap().and_hms_opt(23, 59, 0).unwrap();
    let s = ClockSample::of(&t);
    assert_eq!(s.date, "1999-12-31");
    assert_eq!(s.time, "23:59:00");
}
