use vstd::prelude::*;

verus! {

/// Body of `/game_metadata`: names this client to the service.
pub struct SSEGameMetadataRequest<'a> {
    pub game: &'a str,
    pub game_display_name: &'a str,
    pub icon_color_id: i32,
}

/// Body of `/game_event`: one new value of the clock event.
pub struct SSEGameEventRequest<'a> {
    pub game: &'a str,
    pub event: &'a str,
    pub data: SSEEventData<'a>,
}

/// The value of an event and the frame that the display shows.
pub struct SSEEventData<'a> {
    pub value: &'a str,
    pub frame: SSEEventFrame<'a>,
}

/// The two lines of the displayed frame.
pub struct SSEEventFrame<'a> {
    pub date: &'a str,
    pub time: &'a str,
}

/// Body of `/remove_game`.
pub struct SSERemoveGameRequest<'a> {
    pub game: &'a str,
}

/// Body of `/bind_game_event`: how the service shows the event.
pub struct SSEBindEventRequest<'a> {
    pub game: &'a str,
    pub event: &'a str,
    pub handlers: Vec<SSEEventHandler<'a>>,
}

/// One display handler of a bound event.
pub struct SSEEventHandler<'a> {
    pub device_type: &'a str,
    pub zone: &'a str,
    pub mode: &'a str,
    pub datas: Vec<SSEFrameData<'a>>,
}

/// One frame of a display handler.
pub struct SSEFrameData<'a> {
    pub icon_id: i32,
    pub lines: Vec<SSELineData<'a>>,
}

/// One text line of a frame, filled from the frame member `context_frame_key`.
pub struct SSELineData<'a> {
    pub has_text: bool,
    pub context_frame_key: &'a str,
}

} // verus!
