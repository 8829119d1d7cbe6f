//! What holds of the calls to the daemon and of its reports.

use crate::app::{add_options, limit_options, AppView, Tab};
use crate::aria2::{integer, outcome, report_keys, request};
use crate::background::{reported_stats, CONNECT_MILLIS, CONNECT_TRIES, LISTED, REFRESH_MILLIS, TRACKER_REFRESH_SECS};
use crate::download::{color_of_status, duration_text, eta_text, reported_download, reported_downloads, reported_name, reported_number, DownloadView};
use crate::json::JsonView;
use crate::keys::{action_call, limit_text, Key};
use crate::laws::{after, after_typing, called_for, law_limits_by_keys};
use crate::screen::Color;
use crate::sizes::{size_text, speed_text};
use crate::text::{all_digits, decimal, is_digit, law_decimal_round_trip, lemma_decimal_digits, spelled_number, split, two_digits};
use crate::text_laws::{law_base_name, law_clip, law_field, law_joined, law_two_digits};
use vstd::prelude::*;

verus! {

// ---------------------------------------------------------------------------
// Calls
// ---------------------------------------------------------------------------

/// A call names its method, and carries its parameters in their order, behind the secret
/// token where there is one.
pub proof fn law_request(token: Option<Seq<char>>, method: Seq<char>, params: Seq<JsonView>)
    ensures
        ({
            let body = request(token, method, params);
            let sent = body.field("params"@).items();
            let first = if token is Some {
                1int
            } else {
                0int
            };
            &&& body.field("jsonrpc"@) == JsonView::Str("2.0"@)
            &&& body.field("id"@) == JsonView::Str("1"@)
            &&& body.field("method"@) == JsonView::Str(method)
            &&& sent.len() == first + params.len()
            &&& token is Some ==> sent[0] == JsonView::Str("token:"@ + token->0)
            &&& forall|i: int|
                0 <= i < params.len() ==> #[trigger] params[i] == sent[first + i]
        }),
{
    reveal_strlit("jsonrpc");
    reveal_strlit("id");
    reveal_strlit("method");
    reveal_strlit("params");
    let body = request(token, method, params);
    let fields = body->Object_0;
    assert(fields[0].0 == "jsonrpc"@ && fields[1].0 == "id"@ && fields[2].0 == "method"@
        && fields[3].0 == "params"@);
    assert(fields[0].0.len() == 7 && fields[1].0.len() == 2 && fields[2].0.len() == 6
        && fields[3].0.len() == 6);
    assert(fields[2].0[0] == 'm' && fields[3].0[0] == 'p');
    law_field(fields, 0, JsonView::Null, method);
    law_field(fields, 1, JsonView::Null, method);
    law_field(fields, 2, JsonView::Null, method);
    law_field(fields, 3, JsonView::Null, method);
}

/// An answer with an error is an error, whatever else it holds; any other object means its
/// result.
pub proof fn law_outcome(fields: Seq<(Seq<char>, JsonView)>, i: int)
    requires
        0 <= i < fields.len(),
        forall|j: int| 0 <= j < fields.len() && j != i ==> (#[trigger] fields[j]).0 != fields[i].0,
    ensures
        fields[i].0 == "error"@ ==> outcome(JsonView::Object(fields)) == Err::<JsonView, JsonView>(
            fields[i].1,
        ),
        fields[i].0 == "result"@ && (forall|j: int|
            0 <= j < fields.len() ==> (#[trigger] fields[j]).0 != "error"@) ==> outcome(
            JsonView::Object(fields),
        ) == Ok::<JsonView, JsonView>(fields[i].1),
{
    law_field(fields, i, JsonView::Null, fields[i].0);
    crate::text_laws::law_lookup(fields, "error"@);
    if fields[i].0 == "error"@ {
        if crate::json::lookup(fields, "error"@) is None {
            assert(fields[i].0 != "error"@);
        }
    }
}

/// An answer without an error is a success.
pub proof fn law_no_error(answer: JsonView)
    ensures
        outcome(answer) is Err ==> answer is Object,
        answer matches JsonView::Object(fields) && (forall|j: int|
            0 <= j < fields.len() ==> (#[trigger] fields[j]).0 != "error"@) ==> outcome(answer)
            is Ok,
{
    if let JsonView::Object(fields) = answer {
        crate::text_laws::law_lookup(fields, "error"@);
    }
}

/// Integers are sent as numbers that read back.
pub proof fn law_integer(n: int)
    requires
        -0x8000_0000_0000_0000 <= n <= 0x7fff_ffff_ffff_ffff,
    ensures
        n >= 0 ==> integer(n).uint_or_nought() == n,
        n < 0 ==> integer(n) is Number && integer(n)->Number_0.len() > 1 && spelled_number(
            integer(n)->Number_0.skip(1),
        ) == Some((-n) as nat) && integer(n)->Number_0[0] == '-',
{
    reveal_strlit("-");
    if n < 0 {
        law_decimal_round_trip((-n) as nat);
        lemma_decimal_digits((-n) as nat);
        assert(integer(n)->Number_0.skip(1) =~= decimal((-n) as nat));
    }
}

/// The call that sets the speed limits carries both: the option for each direction spells
/// the number of bytes per second of that direction.
pub proof fn law_limits_are_sent(s: AppView, token: Option<Seq<char>>)
    ensures
        ({
            let call = action_call(s, token, crate::keys::ActionView::ApplyLimits);
            let options = call->0.field("params"@).items().last();
            let down = options.field("max-overall-download-limit"@);
            let up = options.field("max-overall-upload-limit"@);
            &&& call is Some
            &&& call->0.field("method"@) == JsonView::Str("aria2.changeGlobalOption"@)
            &&& options == limit_options(s.limits)
            &&& down is Str && spelled_number(down->Str_0) == Some(s.limits.dl_bps as nat)
            &&& up is Str && spelled_number(up->Str_0) == Some(s.limits.ul_bps as nat)
        }),
{
    reveal_strlit("max-overall-download-limit");
    reveal_strlit("max-overall-upload-limit");
    let fields = limit_options(s.limits)->Object_0;
    assert(fields[0].0.len() == 26 && fields[1].0.len() == 24);
    law_field(fields, 0, JsonView::Null, ""@);
    law_field(fields, 1, JsonView::Null, ""@);
    law_decimal_round_trip(s.limits.dl_bps as nat);
    law_decimal_round_trip(s.limits.ul_bps as nat);
    let params = seq![limit_options(s.limits)];
    law_request(token, "aria2.changeGlobalOption"@, params);
    assert(params[0] == limit_options(s.limits));
}

/// On the settings page `l`, a number, Tab, a second number and Enter lead to the call in
/// which the option for the download spells the first number of kilobytes, in bytes, and
/// the option for the upload the second.
pub proof fn law_limits_from_key_to_call(
    s: AppView,
    token: Option<Seq<char>>,
    down: nat,
    up: nat,
)
    requires
        s.mode is Normal,
        !s.show_help,
        s.tab == Tab::Settings,
        down * 1024 <= u64::MAX,
        up * 1024 <= u64::MAX,
    ensures
        ({
            let first = after_typing(after(s, Key::Char('l')), decimal(down));
            let second = after_typing(after(first, Key::Tab), decimal(up));
            let call = action_call(after(second, Key::Enter), token, called_for(second, Key::Enter));
            let options = call->0.field("params"@).items().last();
            let d = options.field("max-overall-download-limit"@);
            let u = options.field("max-overall-upload-limit"@);
            &&& call is Some
            &&& d is Str && spelled_number(d->Str_0) == Some(down * 1024)
            &&& u is Str && spelled_number(u->Str_0) == Some(up * 1024)
        }),
{
    law_limits_by_keys(s, down, up);
    let first = after_typing(after(s, Key::Char('l')), decimal(down));
    let second = after_typing(after(first, Key::Tab), decimal(up));
    law_limits_are_sent(after(second, Key::Enter), token);
}

/// The options of a new download: the directory, and the known trackers, from which they
/// read back; where none is known, none is sent.
pub proof fn law_add_options(s: AppView)
    ensures
        add_options(s).field("dir"@) == JsonView::Str(s.dl_dir),
        s.trackers.len() == 0 ==> add_options(s).field("bt-tracker"@) == JsonView::Null,
        s.trackers.len() > 0 ==> add_options(s).field("bt-tracker"@) is Str,
        s.trackers.len() > 0 && (forall|i: int|
            0 <= i < s.trackers.len() ==> !(#[trigger] s.trackers[i]).contains(',')) ==> split(
            add_options(s).field("bt-tracker"@)->Str_0,
            ',',
        ) == s.trackers,
{
    reveal_strlit("dir");
    reveal_strlit("bt-tracker");
    reveal_strlit(",");
    let fields = add_options(s)->Object_0;
    assert(fields[0].0.len() == 3);
    law_field(fields, 0, JsonView::Null, ""@);
    assert(","@ =~= seq![',']);
    if s.trackers.len() > 0 {
        assert(fields[1].0.len() == 10);
        law_field(fields, 1, JsonView::Null, ""@);
        if forall|i: int| 0 <= i < s.trackers.len() ==> !(#[trigger] s.trackers[i]).contains(',') {
            law_joined(s.trackers, ',');
        }
    } else {
        crate::text_laws::law_lookup(fields, "bt-tracker"@);
        if crate::json::lookup(fields, "bt-tracker"@) is Some {
            let v = crate::json::lookup(fields, "bt-tracker"@)->0;
            let k = choose|k: int|
                0 <= k < fields.len() && #[trigger] fields[k] == ("bt-tracker"@, v) && forall|j: int|
                    0 <= j < k ==> (#[trigger] fields[j]).0 != "bt-tracker"@;
            assert(k == 0);
        }
    }
}

// ---------------------------------------------------------------------------
// Reports
// ---------------------------------------------------------------------------

/// Whether a field of a report spells a number.
pub open spec fn tells(v: JsonView, name: Seq<char>, n: nat) -> bool {
    v.field(name) matches JsonView::Str(s) && spelled_number(s) == Some(n)
}

/// Whether a field of a report is read as this number: it spells it, within the bound; or
/// it spells none within the bound, and the number is nought.
pub open spec fn read_as(v: JsonView, name: Seq<char>, max: nat, n: nat) -> bool {
    ||| n <= max && tells(v, name, n)
    ||| n == 0 && forall|k: nat| k <= max ==> !#[trigger] tells(v, name, k)
}

/// Each number of a download is read from the field that aria2 has it in.
pub proof fn law_report_numbers(v: JsonView)
    ensures
        read_as(v, "totalLength"@, u64::MAX as nat, reported_download(v).total as nat),
        read_as(v, "completedLength"@, u64::MAX as nat, reported_download(v).done as nat),
        read_as(v, "downloadSpeed"@, u64::MAX as nat, reported_download(v).dl_speed as nat),
        read_as(v, "uploadSpeed"@, u64::MAX as nat, reported_download(v).ul_speed as nat),
        read_as(v, "numSeeders"@, u32::MAX as nat, reported_download(v).seeds as nat),
        read_as(v, "connections"@, u32::MAX as nat, reported_download(v).conns as nat),
{
    lemma_read_as(v, "totalLength"@, u64::MAX as nat);
    lemma_read_as(v, "completedLength"@, u64::MAX as nat);
    lemma_read_as(v, "downloadSpeed"@, u64::MAX as nat);
    lemma_read_as(v, "uploadSpeed"@, u64::MAX as nat);
    lemma_read_as(v, "numSeeders"@, u32::MAX as nat);
    lemma_read_as(v, "connections"@, u32::MAX as nat);
}

/// A number in a field is read as the text spells it.
pub proof fn lemma_read_as(v: JsonView, name: Seq<char>, max: nat)
    ensures
        read_as(v, name, max, reported_number(v, name, max)),
        reported_number(v, name, max) <= max,
{
    if !(reported_number(v, name, max) <= max && tells(v, name, reported_number(v, name, max))) {
        assert forall|k: nat| k <= max implies !#[trigger] tells(v, name, k) by {}
    }
}

/// Each text of a download is read from the field that aria2 has it in; and it is a
/// torrent if and only if the report holds an object about it.
pub proof fn law_report_texts(v: JsonView, s: Seq<char>)
    ensures
        v.field("gid"@) == JsonView::Str(s) ==> reported_download(v).gid == s,
        v.field("status"@) == JsonView::Str(s) ==> reported_download(v).status == s,
        v.field("errorMessage"@) == JsonView::Str(s) ==> reported_download(v).error == s,
        !(v.field("gid"@) is Str) ==> reported_download(v).gid == ""@,
        !(v.field("status"@) is Str) ==> reported_download(v).status == "unknown"@,
        !(v.field("errorMessage"@) is Str) ==> reported_download(v).error == ""@,
        reported_download(v).is_torrent <==> v.field("bittorrent"@) is Object,
        reported_download(v).name == reported_name(v),
{
}

/// A torrent is shown by the name in its metadata; anything else by the name of its first
/// file, which is what stands behind the last slash of its path, or else by the first
/// sixty characters of its first address.
pub proof fn law_report_names(v: JsonView, dir: Seq<char>, s: Seq<char>)
    ensures
        v.field("bittorrent"@) is Object && v.field("bittorrent"@).field("info"@).field("name"@)
            == JsonView::Str(s) ==> reported_name(v) == s,
        v.field("bittorrent"@) is Object && !(v.field("bittorrent"@).field("info"@).field("name"@)
            is Str) ==> reported_name(v) == "Fetching metadata…"@,
        !(v.field("bittorrent"@) is Object) && v.field("files"@).item(0).field("path"@)
            == JsonView::Str(dir.push('/') + s) && s.len() > 0 && !s.contains('/') && s != seq!['.']
            && s != seq!['.', '.'] ==> reported_name(v) == s,
        !(v.field("bittorrent"@) is Object) && !(v.field("files"@).item(0).field("path"@) is Str)
            && v.field("files"@).item(0).field("uris"@).item(0).field("uri"@) == JsonView::Str(s)
            ==> reported_name(v).is_prefix_of(s) && (s.len() <= 60 ==> reported_name(v) == s) && (
        s.len() >= 60 ==> reported_name(v).len() == 60),
        !(v.field("bittorrent"@) is Object) && !(v.field("files"@).item(0).field("path"@) is Str)
            && !(v.field("files"@).item(0).field("uris"@).item(0).field("uri"@) is Str)
            ==> reported_name(v) == "Unknown"@,
{
    law_clip(s, 60);
    if s.len() > 0 && !s.contains('/') && s != seq!['.'] && s != seq!['.', '.'] {
        law_base_name(dir, s);
    }
}

/// The fields that reports are asked for are enough: what else a report may hold makes no
/// difference to the download.
pub proof fn law_asked_fields_suffice(v: JsonView, w: JsonView)
    requires
        forall|i: int|
            0 <= i < report_keys().items().len() ==> v.field(
                (#[trigger] report_keys().items()[i]).text_or(""@),
            ) == w.field(report_keys().items()[i].text_or(""@)),
    ensures
        reported_download(v) == reported_download(w),
{
    let keys = report_keys().items();
    assert(keys[0].text_or(""@) == "gid"@);
    assert(keys[1].text_or(""@) == "status"@);
    assert(keys[2].text_or(""@) == "totalLength"@);
    assert(keys[3].text_or(""@) == "completedLength"@);
    assert(keys[4].text_or(""@) == "downloadSpeed"@);
    assert(keys[5].text_or(""@) == "uploadSpeed"@);
    assert(keys[6].text_or(""@) == "bittorrent"@);
    assert(keys[7].text_or(""@) == "files"@);
    assert(keys[8].text_or(""@) == "numSeeders"@);
    assert(keys[9].text_or(""@) == "connections"@);
    assert(keys[10].text_or(""@) == "errorMessage"@);
}

/// The list holds every download that aria2 reports, and nothing else: those that are
/// active, then those that wait, then those that have stopped, each in its order.
pub proof fn law_all_are_listed(active: JsonView, waiting: JsonView, stopped: JsonView)
    ensures
        ({
            let list = reported_downloads(active, waiting, stopped);
            let (a, b, c) = (
                active.items().len() as int,
                waiting.items().len() as int,
                stopped.items().len() as int,
            );
            &&& list.len() == a + b + c
            &&& forall|i: int|
                0 <= i < a ==> list[i] == reported_download(#[trigger] active.items()[i])
            &&& forall|i: int|
                0 <= i < b ==> list[a + i] == reported_download(#[trigger] waiting.items()[i])
            &&& forall|i: int|
                0 <= i < c ==> list[a + b + i] == reported_download(#[trigger] stopped.items()[i])
        }),
{
}

/// The statistics are read from the fields that aria2 has them in; of the count, the lowest
/// thirty-two bits.
pub proof fn law_statistics(v: JsonView, n: nat)
    ensures
        reported_stats(v) is Stats,
        read_as(v, "downloadSpeed"@, u64::MAX as nat, reported_stats(v)->dl as nat),
        read_as(v, "uploadSpeed"@, u64::MAX as nat, reported_stats(v)->ul as nat),
        n <= u64::MAX && tells(v, "numActive"@, n) ==> reported_stats(v)->active as nat == n
            % 0x1_0000_0000,
        (forall|k: nat| k <= u64::MAX ==> !#[trigger] tells(v, "numActive"@, k)) ==> reported_stats(
            v,
        )->active == 0,
{
    lemma_read_as(v, "downloadSpeed"@, u64::MAX as nat);
    lemma_read_as(v, "uploadSpeed"@, u64::MAX as nat);
    lemma_read_as(v, "numActive"@, u64::MAX as nat);
}

/// How often things are done: the trackers every hour, the downloads more than once a
/// second, the daemon for three seconds at the start; and fifty downloads are asked for.
pub proof fn law_periods()
    ensures
        TRACKER_REFRESH_SECS == 60 * 60,
        REFRESH_MILLIS == 800,
        CONNECT_TRIES * CONNECT_MILLIS == 3 * 1000,
        CONNECT_TRIES == 10,
        LISTED == 50,
{
}

/// Each status that aria2 has stands out by its colour, and no other text does.
pub proof fn law_status_colors(a: Seq<char>, b: Seq<char>)
    ensures
        color_of_status(a) == color_of_status(b) && color_of_status(a) != Color::Gray ==> a == b,
        color_of_status(a) == Color::Green <==> a == "active"@,
        color_of_status(a) == Color::Yellow <==> a == "waiting"@,
        color_of_status(a) == Color::Cyan <==> a == "paused"@,
        color_of_status(a) == Color::Red <==> a == "error"@,
        color_of_status(a) == Color::Blue <==> a == "complete"@,
{
    reveal_strlit("active");
    reveal_strlit("waiting");
    reveal_strlit("paused");
    reveal_strlit("error");
    reveal_strlit("complete");
    assert("active"@.len() == 6 && "waiting"@.len() == 7 && "paused"@.len() == 6 && "error"@.len()
        == 5 && "complete"@.len() == 8);
    assert("active"@[0] == 'a' && "paused"@[0] == 'p');
}

// ---------------------------------------------------------------------------
// Times
// ---------------------------------------------------------------------------

/// Two texts that begin with digits and then the same other character agree in both parts.
proof fn lemma_cut(a: Seq<char>, b: Seq<char>, c: char, x: Seq<char>, y: Seq<char>)
    requires
        all_digits(a),
        all_digits(b),
        !is_digit(c),
        a.push(c) + x == b.push(c) + y,
    ensures
        a == b,
        x == y,
{
    let whole = a.push(c) + x;
    if a.len() < b.len() {
        assert(whole[a.len() as int] == c);
        assert((b.push(c) + y)[a.len() as int] == b[a.len() as int]);
        assert(is_digit(b[a.len() as int]));
    } else if b.len() < a.len() {
        assert((b.push(c) + y)[b.len() as int] == c);
        assert(whole[b.len() as int] == a[b.len() as int]);
        assert(is_digit(a[b.len() as int]));
    }
    assert(a =~= whole.take(a.len() as int));
    assert(b =~= whole.take(b.len() as int));
    assert(x =~= whole.skip(a.len() as int + 1));
    assert(y =~= whole.skip(b.len() as int + 1));
}

/// From one hour on a time is shown in hours and minutes, and reads back to within the
/// minute: whatever hours and minutes the text says, the time is not less, and less than a
/// minute more; and the minutes are below sixty.
pub proof fn law_hours(secs: nat)
    requires
        secs >= 3600,
    ensures
        exists|h: nat, mm: nat|
            duration_text(secs) == #[trigger] decimal(h) + "h"@ + #[trigger] two_digits(mm) + "m"@,
        forall|h: nat, mm: nat|
            duration_text(secs) == #[trigger] decimal(h) + "h"@ + #[trigger] two_digits(mm) + "m"@
                ==> mm < 60 && 60 * (60 * h + mm) <= secs < 60 * (60 * h + mm + 1),
{
    reveal_strlit("h");
    reveal_strlit("m");
    let hours = secs / 3600;
    let minutes = (secs % 3600) / 60;
    assert(duration_text(secs) == decimal(hours) + "h"@ + two_digits(minutes) + "m"@);
    assert forall|h: nat, mm: nat|
        duration_text(secs) == #[trigger] decimal(h) + "h"@ + #[trigger] two_digits(mm)
            + "m"@ implies mm < 60 && 60 * (60 * h + mm) <= secs < 60 * (60 * h + mm + 1) by {
        lemma_decimal_digits(h);
        lemma_decimal_digits(hours);
        law_two_digits(mm);
        law_two_digits(minutes);
        assert(decimal(h) + "h"@ + two_digits(mm) + "m"@ =~= decimal(h).push('h') + two_digits(
            mm,
        ).push('m'));
        assert(decimal(hours) + "h"@ + two_digits(minutes) + "m"@ =~= decimal(hours).push('h')
            + two_digits(minutes).push('m'));
        lemma_cut(decimal(h), decimal(hours), 'h', two_digits(mm).push('m'), two_digits(minutes).push('m'));
        assert(two_digits(mm) =~= two_digits(mm).push('m').drop_last());
        assert(two_digits(minutes) =~= two_digits(minutes).push('m').drop_last());
        assert(h == hours && mm == minutes);
    }
}

/// Below one hour a time is shown in minutes and seconds, and reads back to itself.
pub proof fn law_minutes(secs: nat)
    requires
        secs < 3600,
    ensures
        duration_text(secs).len() == 5,
        exists|m: nat, s: nat|
            duration_text(secs) == #[trigger] two_digits(m) + ":"@ + #[trigger] two_digits(s),
        forall|m: nat, s: nat|
            duration_text(secs) == #[trigger] two_digits(m) + ":"@ + #[trigger] two_digits(s)
                ==> m < 60 && s < 60 && 60 * m + s == secs,
{
    reveal_strlit(":");
    let minutes = secs / 60;
    let seconds = secs % 60;
    law_two_digits(minutes);
    law_two_digits(seconds);
    assert(duration_text(secs) == two_digits(minutes) + ":"@ + two_digits(seconds));
    assert forall|m: nat, s: nat|
        duration_text(secs) == #[trigger] two_digits(m) + ":"@ + #[trigger] two_digits(s) implies m
        < 60 && s < 60 && 60 * m + s == secs by {
        law_two_digits(m);
        law_two_digits(s);
        assert(two_digits(m) + ":"@ + two_digits(s) =~= two_digits(m).push(':') + two_digits(s));
        assert(two_digits(minutes) + ":"@ + two_digits(seconds) =~= two_digits(minutes).push(':')
            + two_digits(seconds));
        lemma_cut(two_digits(m), two_digits(minutes), ':', two_digits(s), two_digits(seconds));
    }
}

/// The time that is left is what is left of the download, divided by its speed: as many
/// seconds as the speed covers no more than the rest in, and one more would cover more.
/// Without a speed or a size none is shown, and all done takes no time.
pub proof fn law_eta(d: DownloadView, secs: nat)
    ensures
        d.dl_speed == 0 || d.total == 0 ==> eta_text(d) == "--:--"@,
        d.dl_speed > 0 && d.total > d.done && secs * d.dl_speed <= d.total - d.done < (secs + 1)
            * d.dl_speed ==> eta_text(d) == duration_text(secs),
        d.dl_speed > 0 && 0 < d.total <= d.done ==> eta_text(d) == duration_text(0),
{
    if d.dl_speed > 0 && d.total > d.done && secs * d.dl_speed <= d.total - d.done < (secs + 1)
        * d.dl_speed {
        let rest = (d.total - d.done) as int;
        let speed = d.dl_speed as int;
        assert(rest / speed == secs) by (nonlinear_arith)
            requires
                speed > 0,
                secs * speed <= rest < (secs + 1) * speed,
        ;
    }
    if d.dl_speed > 0 {
        vstd::arithmetic::div_mod::lemma_div_basics(d.dl_speed as int);
    }
}

// ---------------------------------------------------------------------------
// Sizes
// ---------------------------------------------------------------------------

/// An integer of sixty-four bits differs little from its double.
proof fn lemma_double_near(n: nat)
    requires
        n <= u64::MAX,
    ensures
        crate::double::double_of(n) <= n + 2048,
        n <= crate::double::double_of(n) + 2048,
        n <= 0x20_0000_0000_0000 ==> crate::double::double_of(n) == n,
{
    if n <= 0x20_0000_0000_0000 {
        crate::double::lemma_whole(n);
    } else {
        let c = crate::double::coarse(n, 1);
        crate::double::lemma_coarse(n, 1);
        assert(1 * c == c);
        crate::double::lemma_rounded_bounds(n, c);
        let m = crate::double::rounded(n, c);
        assert(2 * m * c == 2 * (m * c)) by (nonlinear_arith);
    }
}

/// A size is shown in the largest unit that it reaches, to the nearest: whole below a
/// gigabyte, in tenths from there on; below a kilobyte exactly, and no bytes at all as a
/// dash. Up to nine petabytes the number is off by no more than half of its last place.
pub proof fn law_sizes(b: nat)
    requires
        b <= u64::MAX,
    ensures
        b == 0 ==> size_text(b) == "-"@,
        0 < b < 0x400 ==> size_text(b) == decimal(b) + "B"@,
        0x400 <= b < 0x10_0000 ==> exists|k: nat|
            size_text(b) == #[trigger] decimal(k) + "K"@ && 2 * (k * 0x400) <= 2 * b + 0x400 && 2
                * b <= 2 * (k * 0x400) + 0x400,
        0x10_0000 <= b < 0x4000_0000 ==> exists|k: nat|
            size_text(b) == #[trigger] decimal(k) + "M"@ && 2 * (k * 0x10_0000) <= 2 * b
                + 0x10_0000 && 2 * b <= 2 * (k * 0x10_0000) + 0x10_0000,
        0x4000_0000 <= b < 0x100_0000_0000 ==> exists|k: nat, t: nat|
            t < 10 && size_text(b) == #[trigger] decimal(k) + "."@ + #[trigger] decimal(t) + "G"@
                && 2 * ((10 * k + t) * 0x4000_0000) <= 20 * b + 0x4000_0000 && 20 * b <= 2 * ((10
                * k + t) * 0x4000_0000) + 0x4000_0000,
        0x100_0000_0000 <= b ==> exists|k: nat, t: nat|
            t < 10 && size_text(b) == #[trigger] decimal(k) + "."@ + #[trigger] decimal(t) + "T"@
                && 2 * ((10 * k + t) * 0x100_0000_0000) <= 20 * b + 0x100_0000_0000 + 40960 && 20
                * b <= 2 * ((10 * k + t) * 0x100_0000_0000) + 0x100_0000_0000 + 40960,
{
    lemma_double_near(b);
    let d = crate::double::double_of(b);
    if 0x400 <= b < 0x10_0000 {
        let k = crate::double::rounded(d, 0x400);
        crate::double::lemma_rounded_bounds(d, 0x400);
        assert(size_text(b) == decimal(k) + "K"@);
    } else if 0x10_0000 <= b < 0x4000_0000 {
        let k = crate::double::rounded(d, 0x10_0000);
        crate::double::lemma_rounded_bounds(d, 0x10_0000);
        assert(size_text(b) == decimal(k) + "M"@);
    } else if 0x4000_0000 <= b < 0x100_0000_0000 {
        let r = crate::double::rounded(10 * d, 0x4000_0000);
        crate::double::lemma_rounded_bounds(10 * d, 0x4000_0000);
        assert(r == 10 * (r / 10) + r % 10);
        assert(size_text(b) == decimal(r / 10) + "."@ + decimal(r % 10) + "G"@);
    } else if 0x100_0000_0000 <= b {
        let r = crate::double::rounded(10 * d, 0x100_0000_0000);
        crate::double::lemma_rounded_bounds(10 * d, 0x100_0000_0000);
        assert(r == 10 * (r / 10) + r % 10);
        assert(size_text(b) == decimal(r / 10) + "."@ + decimal(r % 10) + "T"@);
    }
}

/// A speed is the size of what comes in a second, and nothing is shown where nothing
/// comes. A speed limit is shown as a speed, or as the word for none.
pub proof fn law_speeds(bps: u64, none: Seq<char>)
    ensures
        bps == 0 ==> speed_text(bps as nat).len() == 0 && limit_text(bps, none) == none,
        bps > 0 ==> speed_text(bps as nat) == size_text(bps as nat) + "/s"@,
        bps > 0 ==> limit_text(bps, none) == size_text(bps as nat) + "/s"@,
{
}

}
