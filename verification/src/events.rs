//! Events published to the presentation layer. The supervision core never
//! talks to a sink directly: every operation returns the events it caused,
//! and the driver forwards them, fire-and-forget.

use vstd::prelude::*;

verus! {

/// Payload of a `process-log` event: one freshly appended scrollback line.
pub struct LogPayload {
    pub project_id: String,
    pub log: String,
}

/// Payload of a `process-status` event: the label of the status just entered.
pub struct StatusPayload {
    pub project_id: String,
    pub status: String,
}

/// Payload of a `process-crash` event: the restart counter after the crash
/// was handled and whether a respawn is scheduled.
pub struct CrashPayload {
    pub project_id: String,
    pub restart_count: u32,
    pub will_restart: bool,
}

/// Mathematical model of one published event.
pub ghost enum EventView {
    Log { id: Seq<char>, line: Seq<char> },
    Status { id: Seq<char>, status: Seq<char> },
    Crash { id: Seq<char>, restart_count: u32, will_restart: bool },
}

/// One outward event, tagged with the topic it is published under.
pub enum Event {
    Log(LogPayload),
    Status(StatusPayload),
    Crash(CrashPayload),
}

impl View for Event {
    type V = EventView;

    open spec fn view(&self) -> EventView {
        match self {
            Event::Log(p) => EventView::Log { id: p.project_id@, line: p.log@ },
            Event::Status(p) => EventView::Status { id: p.project_id@, status: p.status@ },
            Event::Crash(p) => EventView::Crash {
                id: p.project_id@,
                restart_count: p.restart_count,
                will_restart: p.will_restart,
            },
        }
    }
}

/// The views of a batch of events, in publication order.
pub open spec fn events_view(evs: Seq<Event>) -> Seq<EventView> {
    evs.map_values(|e: Event| e@)
}

/// The topic an event of this kind is published under.
pub open spec fn topic_view(e: EventView) -> Seq<char> {
    match e {
        EventView::Log { .. } => "process-log"@,
        EventView::Status { .. } => "process-status"@,
        EventView::Crash { .. } => "process-crash"@,
    }
}

impl Event {
    /// The topic this event is published under.
    pub fn topic(&self) -> (r: &'static str)
        ensures
            r@ == topic_view(self@),
    {
        match self {
            Event::Log(_) => "process-log",
            Event::Status(_) => "process-status",
            Event::Crash(_) => "process-crash",
        }
    }
}

} // verus!
