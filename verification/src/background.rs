//! What the background work reports to the program.

use crate::app::{BgMsg, BgView};
use crate::download::{collect_downloads, number_field, reported_downloads, reported_number};
use crate::json::{Json, JsonView};
use crate::search::low_bits;
use crate::text::texts;
use crate::trackers::{loaded_message, loaded_text, merge_trackers, merged};
use vstd::prelude::*;

verus! {

/// How often the daemon is asked at the start before it is given up.
pub const CONNECT_TRIES: u32 = 10;

/// The time before each of these tries, in milliseconds.
pub const CONNECT_MILLIS: u64 = 300;

/// The time between two looks at the downloads, in milliseconds.
pub const REFRESH_MILLIS: u64 = 800;

/// The time between two looks at the tracker lists, in seconds: one hour.
pub const TRACKER_REFRESH_SECS: u64 = 3_600;

/// The most waiting downloads, and the most stopped ones, that are shown.
pub const LISTED: i64 = 50;

/// The overall speeds and counts that a report holds.
pub open spec fn reported_stats(v: JsonView) -> BgView {
    BgView::Stats {
        dl: reported_number(v, "downloadSpeed"@, u64::MAX as nat) as u64,
        ul: reported_number(v, "uploadSpeed"@, u64::MAX as nat) as u64,
        active: low_bits(reported_number(v, "numActive"@, u64::MAX as nat) as u64),
    }
}

/// The downloads that aria2 reports as active, waiting and stopped.
pub fn downloads_message(active: &Json, waiting: &Json, stopped: &Json) -> (m: BgMsg)
    ensures
        m@ == BgView::Downloads(reported_downloads(active@, waiting@, stopped@)),
{
    BgMsg::Downloads(collect_downloads(active, waiting, stopped))
}

/// The overall speeds and counts that aria2 reports.
pub fn stats_message(report: &Json) -> (m: BgMsg)
    ensures
        m@ == reported_stats(report@),
{
    BgMsg::Stats {
        dl: number_field(report, "downloadSpeed", u64::MAX),
        ul: number_field(report, "uploadSpeed", u64::MAX),
        active: (number_field(report, "numActive", u64::MAX) % 0x1_0000_0000) as u32,
    }
}

/// What is reported when aria2 was asked for the overall speeds and counts: nothing where
/// the call failed.
pub fn stats_report(reply: Result<Json, String>) -> (m: Option<BgMsg>)
    ensures
        m is Some <==> reply is Ok,
        reply is Ok ==> m->0@ == reported_stats(reply->Ok_0@),
{
    match reply {
        Ok(report) => Some(stats_message(&report)),
        Err(_) => None,
    }
}

/// What is done at the start: the daemon answers, is asked once more, or is given up.
#[derive(Debug, Clone, Copy, PartialEq, Eq, Structural)]
pub enum Connect {
    Ready,
    Ask,
    GiveUp,
}

/// What is done after the daemon was asked so many times, and did or did not answer the
/// last time.
pub fn connect_step(tries: u32, answered: bool) -> (next: Connect)
    ensures
        next == (if answered {
            Connect::Ready
        } else if tries < CONNECT_TRIES {
            Connect::Ask
        } else {
            Connect::GiveUp
        }),
{
    if answered {
        Connect::Ready
    } else if tries < CONNECT_TRIES {
        Connect::Ask
    } else {
        Connect::GiveUp
    }
}

/// The message when the tracker lists are about to be asked for.
pub fn fetch_started() -> (m: BgMsg)
    ensures
        m@ == BgView::Status("Fetching trackers…"@),
{
    BgMsg::Status("Fetching trackers…".to_owned())
}

/// The messages when those tracker lists have come that could be got: the trackers
/// first, and how many they are.
pub fn fetch_finished(lists: &Vec<String>) -> (m: (BgMsg, BgMsg))
    ensures
        m.0@ == BgView::Trackers(merged(texts(lists@))),
        m.1@ == BgView::Status(loaded_text(merged(texts(lists@)).len())),
{
    let trackers = merge_trackers(lists);
    let n: usize = trackers.len();
    (BgMsg::Trackers(trackers), BgMsg::Status(loaded_message(n)))
}

}
