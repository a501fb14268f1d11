use vstd::prelude::*;
use vstd::string::StringExecFns;

use crate::error::{SSEError, SSEResult};
use crate::sse_json::{
    SSEBindEventRequest, SSEEventData, SSEEventFrame, SSEEventHandler, SSEFrameData,
    SSEGameEventRequest, SSEGameMetadataRequest, SSELineData, SSERemoveGameRequest,
};

verus! {

/// The id this client registers under.
pub const SSE_APP_ID: &'static str = "CLOCK_DISPLAY";

/// The name the service shows for this client.
pub const SSE_DISPLAY_NAME: &'static str = "Clock Display";

/// The id of the one event this client sends.
pub const SSE_EVENT_ID: &'static str = "CLOCK";

/// Colour of this client's icon in the service.
pub const ICON_COLOR_ID: i32 = 6;

/// Icon shown beside the displayed frame.
pub const ICON_ID: i32 = 15;

/// Seconds that one request may take to be sent and answered.
pub const HTTP_TIMEOUT_SECS: u64 = 5;

/// HTTP status with which the service refuses to remove a client that is not
/// registered.
pub const NOT_REGISTERED_STATUS: u16 = 400;

/// The four requests this client makes.
#[derive(Debug, Clone, Copy, PartialEq, Eq, Structural)]
pub enum RequestKind {
    RemoveGame,
    GameMetadata,
    BindGameEvent,
    GameEvent,
}

/// The path, under the service's address, that a request is posted to.
pub open spec fn path_of(kind: RequestKind) -> Seq<char> {
    match kind {
        RequestKind::RemoveGame => "/remove_game"@,
        RequestKind::GameMetadata => "/game_metadata"@,
        RequestKind::BindGameEvent => "/bind_game_event"@,
        RequestKind::GameEvent => "/game_event"@,
    }
}

/// The URL of a request to `path` at `address`.
pub open spec fn url_of(address: Seq<char>, path: Seq<char>) -> Seq<char> {
    "http://"@ + address + path
}

impl RequestKind {
    /// The path this request is posted to.
    pub fn path(self) -> (r: &'static str)
        ensures
            r@ == path_of(self),
    {
        match self {
            RequestKind::RemoveGame => "/remove_game",
            RequestKind::GameMetadata => "/game_metadata",
            RequestKind::BindGameEvent => "/bind_game_event",
            RequestKind::GameEvent => "/game_event",
        }
    }
}

/// `http://<address><path>`.
pub fn request_url(address: &str, path: &str) -> (r: String)
    ensures
        r@ == url_of(address@, path@),
{
    let mut url = String::from_str("http://");
    url.append(address);
    url.append(path);
    url
}

/// Whether the answer to a removal leaves this client unregistered: it
/// succeeded, or the service said that the client was not registered.
pub open spec fn removal_ok(result: SSEResult<()>) -> bool {
    result is Ok || result == Err::<(), SSEError>(SSEError::HttpError(Some(NOT_REGISTERED_STATUS)))
}

/// See [`removal_ok`].
pub fn removal_succeeded(result: &SSEResult<()>) -> (r: bool)
    ensures
        r == removal_ok(*result),
{
    match result {
        Ok(_) => true,
        Err(SSEError::HttpError(Some(status))) => *status == NOT_REGISTERED_STATUS,
        Err(_) => false,
    }
}

/// The error for an HTTP answer with status `status`: `None` for a success.
pub fn status_error(status: u16) -> (r: Option<SSEError>)
    ensures
        200 <= status < 300 ==> r is None,
        !(200 <= status < 300) ==> r == Some(SSEError::HttpError(Some(status))),
{
    if 200 <= status && status < 300 {
        None
    } else {
        Some(SSEError::HttpError(Some(status)))
    }
}

/// Body of the removal of this client.
pub fn remove_request() -> (r: SSERemoveGameRequest<'static>)
    ensures
        r.game@ == SSE_APP_ID@,
{
    SSERemoveGameRequest { game: SSE_APP_ID }
}

/// Body that names this client to the service.
pub fn metadata_request() -> (r: SSEGameMetadataRequest<'static>)
    ensures
        r.game@ == SSE_APP_ID@,
        r.game_display_name@ == SSE_DISPLAY_NAME@,
        r.icon_color_id == ICON_COLOR_ID,
{
    SSEGameMetadataRequest {
        game: SSE_APP_ID,
        game_display_name: SSE_DISPLAY_NAME,
        icon_color_id: ICON_COLOR_ID,
    }
}

/// Whether `line` is a text line filled from the frame member `key`.
pub open spec fn is_text_line(line: SSELineData, key: Seq<char>) -> bool {
    line.has_text && line.context_frame_key@ == key
}

/// Body that binds the clock event to one screen handler, whose one frame
/// shows the date on its first line and the time on its second.
pub fn bind_event_request() -> (r: SSEBindEventRequest<'static>)
    ensures
        r.game@ == SSE_APP_ID@,
        r.event@ == SSE_EVENT_ID@,
        r.handlers@.len() == 1,
        r.handlers@[0].device_type@ == "screened"@,
        r.handlers@[0].zone@ == "one"@,
        r.handlers@[0].mode@ == "screen"@,
        r.handlers@[0].datas@.len() == 1,
        r.handlers@[0].datas@[0].icon_id == ICON_ID,
        r.handlers@[0].datas@[0].lines@.len() == 2,
        is_text_line(r.handlers@[0].datas@[0].lines@[0], "date"@),
        is_text_line(r.handlers@[0].datas@[0].lines@[1], "time"@),
{
    let lines = vec![
        SSELineData { has_text: true, context_frame_key: "date" },
        SSELineData { has_text: true, context_frame_key: "time" },
    ];
    let datas = vec![SSEFrameData { icon_id: ICON_ID, lines }];
    let handlers = vec![
        SSEEventHandler { device_type: "screened", zone: "one", mode: "screen", datas },
    ];
    SSEBindEventRequest { game: SSE_APP_ID, event: SSE_EVENT_ID, handlers }
}

/// Body that sends the clock's value: the time as the event's value, and the
/// date and time as its frame.
pub fn event_request<'a>(date: &'a str, time: &'a str) -> (r: SSEGameEventRequest<'a>)
    ensures
        r.game@ == SSE_APP_ID@,
        r.event@ == SSE_EVENT_ID@,
        r.data.value@ == time@,
        r.data.frame.date@ == date@,
        r.data.frame.time@ == time@,
{
    SSEGameEventRequest {
        game: SSE_APP_ID,
        event: SSE_EVENT_ID,
        data: SSEEventData { value: time, frame: SSEEventFrame { date, time } },
    }
}

} // verus!
