//! Classification of one fetch attempt into the caller-visible outcome.
//!
//! The I/O layer around the library acquires the permit, performs the GET
//! and the body read, and reports what happened as a [`FetchEvent`]; the
//! decision of what each event means for the caller is taken here, where it
//! is verified. The outcome is deliberately a tri-state value: missing data
//! is a normal result, transport trouble is folded into it for batch
//! resilience, and only an integrity failure after a declared success is
//! surfaced distinctly.

use vstd::prelude::*;

use crate::extract::extract_spec;
use crate::extract::extract_talent_string;

verus! {

/// The result of one fetch attempt. `Found` and `NotFound` are both
/// successful terminal outcomes (the remote resource may legitimately have
/// no data); only `Failed` signals an abnormal condition, with its cause.
#[derive(Debug, PartialEq, Eq)]
pub enum FetchOutcome {
    Found(String),
    NotFound,
    Failed(String),
}

/// How a response status code is treated: `Success` asks for the body to be
/// read, `NoData` is the remote service's documented signal for
/// insufficient underlying data, and `Anomaly` is any other non-success
/// status, worth a diagnostic line but no more.
#[derive(Debug, Clone, Copy, PartialEq, Eq)]
pub enum StatusClass {
    Success,
    NoData,
    Anomaly,
}

/// What happened during one fetch attempt, reported by the I/O layer:
/// no permit was granted, the GET failed in transit, a
/// non-success status came back, the body of a declared-successful
/// response could not be read, or the body was read in full; each variant
/// carries its cause or diagnostic where one exists.
#[derive(Debug, PartialEq, Eq)]
pub enum FetchEvent {
    GateClosed(String),
    Transport(String),
    Status(u16),
    BodyUnreadable(String),
    Body(String),
}

/// Classify a response status code: `Success` exactly for the 2xx range,
/// `NoData` exactly for 500, `Anomaly` for everything else.
pub fn classify_status(status: u16) -> (r: StatusClass)
    ensures
        r is Success <==> 200 <= status < 300,
        r is NoData <==> status == 500,
        r is Anomaly <==> !(200 <= status < 300) && status != 500,
{
    if 200 <= status && status < 300 {
        StatusClass::Success
    } else if status == 500 {
        StatusClass::NoData
    } else {
        StatusClass::Anomaly
    }
}

/// The caller-visible outcome of one fetch attempt, decided from what
/// happened. A gate-acquisition failure and an unreadable body of a
/// declared-successful response are the only failures; a transport-level
/// failure and any non-success status are folded into `NotFound`; a body
/// read in full yields `Found` exactly when extraction yields an
/// identifier, and that identifier verbatim.
pub fn outcome_of_event(event: FetchEvent) -> (r: FetchOutcome)
    ensures
        match event {
            FetchEvent::GateClosed(cause) => (r matches FetchOutcome::Failed(m) && m == cause),
            FetchEvent::Transport(_) => r is NotFound,
            FetchEvent::Status(_) => r is NotFound,
            FetchEvent::BodyUnreadable(cause) => (r matches FetchOutcome::Failed(m)
                && m == cause),
            FetchEvent::Body(html) => match extract_spec(html@) {
                Option::Some(id) => (r matches FetchOutcome::Found(s) && s@ == id),
                Option::None => r is NotFound,
            },
        },
{
    match event {
        FetchEvent::GateClosed(cause) => FetchOutcome::Failed(cause),
        FetchEvent::Transport(_) => FetchOutcome::NotFound,
        FetchEvent::Status(_) => FetchOutcome::NotFound,
        FetchEvent::BodyUnreadable(cause) => FetchOutcome::Failed(cause),
        FetchEvent::Body(html) => match extract_talent_string(html.as_str()) {
            Option::Some(id) => FetchOutcome::Found(id),
            Option::None => FetchOutcome::NotFound,
        },
    }
}

} // verus!
