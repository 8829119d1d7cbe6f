//! The downloads that aria2 reports.

use crate::double::{scaled_progress, scaled_ratio};
use crate::json::{Json, JsonView};
use crate::screen::Color;
use crate::text::{base_name, clip, decimal, file_name, number_up_to, parse_up_to, push_decimal, push_two_digits, same, take_chars, two_digits};
use vstd::prelude::*;
use vstd::string::*;

verus! {

/// One download, as aria2 reported it last.
#[derive(Debug, PartialEq, Eq)]
pub struct Download {
    pub gid: String,
    pub name: String,
    pub status: String,
    pub dl_speed: u64,
    pub ul_speed: u64,
    pub total: u64,
    pub done: u64,
    pub seeds: u32,
    pub conns: u32,
    pub error: String,
    pub is_torrent: bool,
}

/// What a download record says.
#[verifier::ext_equal]
pub struct DownloadView {
    pub gid: Seq<char>,
    pub name: Seq<char>,
    pub status: Seq<char>,
    pub dl_speed: u64,
    pub ul_speed: u64,
    pub total: u64,
    pub done: u64,
    pub seeds: u32,
    pub conns: u32,
    pub error: Seq<char>,
    pub is_torrent: bool,
}

impl View for Download {
    type V = DownloadView;

    open spec fn view(&self) -> DownloadView {
        DownloadView {
            gid: self.gid@,
            name: self.name@,
            status: self.status@,
            dl_speed: self.dl_speed,
            ul_speed: self.ul_speed,
            total: self.total,
            done: self.done,
            seeds: self.seeds,
            conns: self.conns,
            error: self.error@,
            is_torrent: self.is_torrent,
        }
    }
}

/// What a list of downloads says.
pub open spec fn download_views(v: Seq<Download>) -> Seq<DownloadView> {
    v.map_values(|d: Download| d@)
}

/// The number that a field of a report spells, when it is at most `max`; nought
/// otherwise. aria2 reports numbers as strings.
pub open spec fn reported_number(v: JsonView, name: Seq<char>, max: nat) -> nat {
    match v.field(name).text() {
        Some(s) => match number_up_to(s, max) {
            Some(n) => n,
            None => 0,
        },
        None => 0,
    }
}

/// The name under which a reported download is shown. A torrent has the name in its
/// metadata, once that has come; any other download has the name of its first file, or
/// the beginning of its first address as long as no file is known.
pub open spec fn reported_name(v: JsonView) -> Seq<char> {
    if v.field("bittorrent"@) is Object {
        v.field("bittorrent"@).field("info"@).field("name"@).text_or("Fetching metadata…"@)
    } else {
        let file = v.field("files"@).item(0);
        match file.field("path"@).text() {
            Some(path) => match base_name(path) {
                Some(name) => name,
                None => path,
            },
            None => match file.field("uris"@).item(0).field("uri"@).text() {
                Some(uri) => clip(uri, 60),
                None => "Unknown"@,
            },
        }
    }
}

/// The download that a report describes.
pub open spec fn reported_download(v: JsonView) -> DownloadView {
    DownloadView {
        gid: v.field("gid"@).text_or(""@),
        name: reported_name(v),
        status: v.field("status"@).text_or("unknown"@),
        dl_speed: reported_number(v, "downloadSpeed"@, u64::MAX as nat) as u64,
        ul_speed: reported_number(v, "uploadSpeed"@, u64::MAX as nat) as u64,
        total: reported_number(v, "totalLength"@, u64::MAX as nat) as u64,
        done: reported_number(v, "completedLength"@, u64::MAX as nat) as u64,
        seeds: reported_number(v, "numSeeders"@, u32::MAX as nat) as u32,
        conns: reported_number(v, "connections"@, u32::MAX as nat) as u32,
        error: v.field("errorMessage"@).text_or(""@),
        is_torrent: v.field("bittorrent"@) is Object,
    }
}

/// How much of `scale` a progress of `done` out of `total` covers.
pub open spec fn progress_of(done: nat, total: nat, scale: nat) -> nat {
    if total == 0 {
        0
    } else {
        scaled_ratio(done, total, scale)
    }
}

/// The colour in which a status is shown.
pub open spec fn color_of_status(status: Seq<char>) -> Color {
    if status == "active"@ {
        Color::Green
    } else if status == "waiting"@ {
        Color::Yellow
    } else if status == "paused"@ {
        Color::Cyan
    } else if status == "error"@ {
        Color::Red
    } else if status == "complete"@ {
        Color::Blue
    } else {
        Color::Gray
    }
}

/// A number of seconds as hours and minutes from one hour on, as minutes and seconds
/// below.
pub open spec fn duration_text(secs: nat) -> Seq<char> {
    if secs >= 3600 {
        decimal(secs / 3600) + "h"@ + two_digits((secs % 3600) / 60) + "m"@
    } else {
        two_digits(secs / 60) + ":"@ + two_digits(secs % 60)
    }
}

/// The time until a download is done at its present speed, where that can be told.
pub open spec fn eta_text(d: DownloadView) -> Seq<char> {
    if d.dl_speed == 0 || d.total == 0 {
        "--:--"@
    } else {
        let rest: nat = if d.total > d.done {
            (d.total - d.done) as nat
        } else {
            0
        };
        duration_text(rest / d.dl_speed as nat)
    }
}

/// The number that a field of a report spells, when it is at most `max`; nought
/// otherwise.
pub fn number_field(v: &Json, name: &str, max: u64) -> (n: u64)
    ensures
        n as nat == reported_number(v@, name@, max as nat),
        n <= max,
{
    match v.str_field(name) {
        Some(s) => match parse_up_to(s, max) {
            Some(n) => n,
            None => 0,
        },
        None => 0,
    }
}

/// The text in a field of a report, or `default` where there is none.
pub fn text_field(v: &Json, name: &str, default: &str) -> (s: String)
    ensures
        s@ == v@.field(name@).text_or(default@),
{
    match v.str_field(name) {
        Some(s) => s.to_owned(),
        None => default.to_owned(),
    }
}

fn name_of_torrent(torrent: &Json) -> (s: String)
    ensures
        s@ == torrent@.field("info"@).field("name"@).text_or("Fetching metadata…"@),
{
    match torrent.get("info") {
        Some(info) => text_field(info, "name", "Fetching metadata…"),
        None => "Fetching metadata…".to_owned(),
    }
}

fn first_uri(file: &Json) -> (s: String)
    ensures
        s@ == match file@.field("uris"@).item(0).field("uri"@).text() {
            Some(uri) => clip(uri, 60),
            None => "Unknown"@,
        },
{
    match file.get("uris") {
        Some(uris) => match uris.at(0) {
            Some(uri) => match uri.str_field("uri") {
                Some(u) => take_chars(u, 60),
                None => "Unknown".to_owned(),
            },
            None => "Unknown".to_owned(),
        },
        None => "Unknown".to_owned(),
    }
}

fn name_of_file(file: &Json) -> (s: String)
    ensures
        s@ == match file@.field("path"@).text() {
            Some(path) => match base_name(path) {
                Some(name) => name,
                None => path,
            },
            None => match file@.field("uris"@).item(0).field("uri"@).text() {
                Some(uri) => clip(uri, 60),
                None => "Unknown"@,
            },
        },
{
    match file.str_field("path") {
        Some(path) => match file_name(path) {
            Some(name) => name,
            None => path.to_owned(),
        },
        None => first_uri(file),
    }
}

impl Download {
    /// The download that a report describes.
    pub fn from(v: &Json) -> (d: Download)
        ensures
            d@ == reported_download(v@),
    {
        let torrent = v.get("bittorrent");
        let is_torrent = match torrent {
            Some(Json::Object(_)) => true,
            _ => false,
        };
        let name: String = if is_torrent {
            match torrent {
                Some(t) => name_of_torrent(t),
                None => String::new(),
            }
        } else {
            match v.get("files") {
                Some(files) => match files.at(0) {
                    Some(file) => name_of_file(file),
                    None => "Unknown".to_owned(),
                },
                None => "Unknown".to_owned(),
            }
        };
        Download {
            gid: text_field(v, "gid", ""),
            name,
            status: text_field(v, "status", "unknown"),
            dl_speed: number_field(v, "downloadSpeed", u64::MAX),
            ul_speed: number_field(v, "uploadSpeed", u64::MAX),
            total: number_field(v, "totalLength", u64::MAX),
            done: number_field(v, "completedLength", u64::MAX),
            seeds: number_field(v, "numSeeders", u32::MAX as u64) as u32,
            conns: number_field(v, "connections", u32::MAX as u64) as u32,
            error: text_field(v, "errorMessage", ""),
            is_torrent,
        }
    }

    /// The colour in which the status is shown.
    pub fn status_color(&self) -> (c: Color)
        ensures
            c == color_of_status(self@.status),
    {
        let status = self.status.as_str();
        if same(status, "active") {
            Color::Green
        } else if same(status, "waiting") {
            Color::Yellow
        } else if same(status, "paused") {
            Color::Cyan
        } else if same(status, "error") {
            Color::Red
        } else if same(status, "complete") {
            Color::Blue
        } else {
            Color::Gray
        }
    }

    /// The time until the download is done at its present speed.
    pub fn eta(&self) -> (s: String)
        ensures
            s@ == eta_text(self@),
    {
        if self.dl_speed == 0 || self.total == 0 {
            return "--:--".to_owned();
        }
        let rest: u64 = if self.total > self.done {
            self.total - self.done
        } else {
            0
        };
        let secs: u64 = rest / self.dl_speed;
        let mut s = String::new();
        if secs >= 3600 {
            push_decimal(&mut s, secs / 3600);
            s.append("h");
            push_two_digits(&mut s, (secs % 3600) / 60);
            s.append("m");
        } else {
            push_two_digits(&mut s, secs / 60);
            s.append(":");
            push_two_digits(&mut s, secs % 60);
        }
        proof {
            assert(s@ =~= duration_text(secs as nat));
        }
        s
    }

    /// How much of `scale` the progress covers, or the greatest `u64` when that is more.
    pub fn progress(&self, scale: u64) -> (n: u64)
        requires
            scale <= 1024,
        ensures
            ({
                let p = progress_of(self@.done as nat, self@.total as nat, scale as nat);
                n as nat == if p <= u64::MAX {
                    p
                } else {
                    u64::MAX as nat
                }
            }),
    {
        if self.total == 0 {
            0
        } else {
            scaled_progress(self.done, self.total, scale)
        }
    }
}

/// All the downloads that three reports list, in the order of the reports. A report
/// that is no array lists none.
pub open spec fn reported_downloads(
    active: JsonView,
    waiting: JsonView,
    stopped: JsonView,
) -> Seq<DownloadView> {
    (active.items() + waiting.items() + stopped.items()).map_values(
        |v: JsonView| reported_download(v),
    )
}

fn push_downloads(list: &mut Vec<Download>, report: &Json)
    ensures
        download_views(final(list)@) == download_views(old(list)@) + report@.items().map_values(
            |v: JsonView| reported_download(v),
        ),
{
    match report {
        Json::Array(items) => {
            let ghost all = report@.items().map_values(|v: JsonView| reported_download(v));
            let mut i: usize = 0;
            while i < items.len()
                invariant
                    i <= items@.len(),
                    all.len() == items@.len(),
                    forall|j: int|
                        #![trigger all[j]]
                        0 <= j < all.len() ==> all[j] == reported_download(items@[j]@),
                    download_views(list@) == download_views(old(list)@) + all.take(i as int),
                decreases items@.len() - i,
            {
                let ghost before = list@;
                list.push(Download::from(&items[i]));
                proof {
                    assert(download_views(list@) =~= download_views(before).push(all[i as int]));
                    assert(all.take(i + 1) =~= all.take(i as int).push(all[i as int]));
                    assert(download_views(list@) =~= download_views(old(list)@) + all.take(i + 1));
                }
                i = i + 1;
            }
            proof {
                assert(all.take(i as int) =~= all);
            }
        },
        _ => {
            proof {
                assert(download_views(list@) =~= download_views(old(list)@)
                    + report@.items().map_values(|v: JsonView| reported_download(v)));
            }
        },
    }
}

/// All the downloads that aria2 reports as active, waiting and stopped, in that order.
pub fn collect_downloads(active: &Json, waiting: &Json, stopped: &Json) -> (list: Vec<Download>)
    ensures
        download_views(list@) == reported_downloads(active@, waiting@, stopped@),
{
    let mut list: Vec<Download> = Vec::new();
    push_downloads(&mut list, active);
    push_downloads(&mut list, waiting);
    push_downloads(&mut list, stopped);
    proof {
        assert(download_views(list@) =~= reported_downloads(active@, waiting@, stopped@));
    }
    list
}

}
