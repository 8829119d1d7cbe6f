//! The state of the program, and what each message does to it.

use crate::aria2::{request, Aria2};
use crate::download::{download_views, Download, DownloadView};
use crate::json::{values, Json, JsonView};
use crate::outside::base64_text;
use crate::search::{knaben_results, order_by_seeds, ordered, result_views, search_knaben, search_tpb, tpb_results, Category, Engine, ResultView, SearchResult};
use crate::text::{clip, contains, decimal, decimal_text, ends_with, join, joined, occurs_in, starts_with, take_chars, texts, trim, trimmed};
use vstd::prelude::*;
use vstd::string::*;

verus! {

/// A page of the program.
#[derive(Debug, Clone, Copy, PartialEq, Eq, Structural)]
pub enum Tab {
    Downloads,
    Search,
    Settings,
}

impl Tab {
    /// The place of the page, from nought on.
    pub open spec fn place(self) -> usize {
        match self {
            Tab::Downloads => 0,
            Tab::Search => 1,
            Tab::Settings => 2,
        }
    }

    /// The place of the page, from nought on.
    pub fn index(self) -> (i: usize)
        ensures
            i == self.place(),
    {
        match self {
            Tab::Downloads => 0,
            Tab::Search => 1,
            Tab::Settings => 2,
        }
    }
}

/// What the user is asked to confirm.
#[derive(Debug, PartialEq, Eq)]
pub enum ConfirmKind {
    ClearOne { gid: String, name: String },
    ClearAll,
}

/// What a question says.
pub enum ConfirmView {
    ClearOne { gid: Seq<char>, name: Seq<char> },
    ClearAll,
}

impl View for ConfirmKind {
    type V = ConfirmView;

    open spec fn view(&self) -> ConfirmView {
        match self {
            ConfirmKind::ClearOne { gid, name } => ConfirmView::ClearOne { gid: gid@, name: name@ },
            ConfirmKind::ClearAll => ConfirmView::ClearAll,
        }
    }
}

/// The question as the user reads it.
pub open spec fn prompt_text(kind: ConfirmView) -> Seq<char> {
    match kind {
        ConfirmView::ClearOne { gid, name } => "Remove \""@ + clip(name, 50) + "\" from history?"@,
        ConfirmView::ClearAll => "Clear ALL completed / error entries from history?"@,
    }
}

impl ConfirmKind {
    /// The question as the user reads it.
    pub fn prompt(&self) -> (s: String)
        ensures
            s@ == prompt_text(self@),
    {
        match self {
            ConfirmKind::ClearOne { gid: _, name } => {
                let mut s = "Remove \"".to_owned();
                s.append(take_chars(name.as_str(), 50).as_str());
                s.append("\" from history?");
                s
            },
            ConfirmKind::ClearAll =>
                "Clear ALL completed / error entries from history?".to_owned(),
        }
    }
}

/// What the keys act on. In `SpeedLimit`, field nought is the download limit and field
/// one the upload limit; in `Confirm`, the flag says that "No" is highlighted.
#[derive(Debug, PartialEq, Eq)]
pub enum Mode {
    Normal,
    AddUrl,
    Searching,
    SpeedLimit { field: u8 },
    Confirm(ConfirmKind, bool),
}

/// What a mode says.
pub enum ModeView {
    Normal,
    AddUrl,
    Searching,
    SpeedLimit { field: u8 },
    Confirm(ConfirmView, bool),
}

impl View for Mode {
    type V = ModeView;

    open spec fn view(&self) -> ModeView {
        match self {
            Mode::Normal => ModeView::Normal,
            Mode::AddUrl => ModeView::AddUrl,
            Mode::Searching => ModeView::Searching,
            Mode::SpeedLimit { field } => ModeView::SpeedLimit { field: *field },
            Mode::Confirm(kind, no) => ModeView::Confirm(kind@, *no),
        }
    }
}

/// The speed limits in bytes per second; nought stands for none.
#[derive(Debug, Clone, Copy, PartialEq, Eq, Structural)]
pub struct SpeedLimits {
    pub dl_bps: u64,
    pub ul_bps: u64,
}

impl Default for SpeedLimits {
    fn default() -> (l: SpeedLimits)
        ensures
            l == (SpeedLimits { dl_bps: 0, ul_bps: 0 }),
    {
        SpeedLimits { dl_bps: 0, ul_bps: 0 }
    }
}

/// What the background work reports.
#[derive(Debug, PartialEq, Eq)]
pub enum BgMsg {
    Downloads(Vec<Download>),
    Stats { dl: u64, ul: u64, active: u32 },
    Trackers(Vec<String>),
    Status(String),
}

/// What a report of the background work says.
pub enum BgView {
    Downloads(Seq<DownloadView>),
    Stats { dl: u64, ul: u64, active: u32 },
    Trackers(Seq<Seq<char>>),
    Status(Seq<char>),
}

impl View for BgMsg {
    type V = BgView;

    open spec fn view(&self) -> BgView {
        match self {
            BgMsg::Downloads(d) => BgView::Downloads(download_views(d@)),
            BgMsg::Stats { dl, ul, active } => BgView::Stats { dl: *dl, ul: *ul, active: *active },
            BgMsg::Trackers(t) => BgView::Trackers(texts(t@)),
            BgMsg::Status(s) => BgView::Status(s@),
        }
    }
}

/// What a list of reports says.
pub open spec fn bg_views(v: Seq<BgMsg>) -> Seq<BgView> {
    v.map_values(|m: BgMsg| m@)
}

/// The state of the program.
#[derive(Debug, PartialEq, Eq)]
pub struct App {
    pub downloads: Vec<Download>,
    pub dl_sel: Option<usize>,
    pub results: Vec<SearchResult>,
    pub res_sel: Option<usize>,
    pub mode: Mode,
    pub buf: String,
    pub tab: Tab,
    pub trackers: Vec<String>,
    pub status: String,
    pub dl_dir: String,
    pub global_dl: u64,
    pub global_ul: u64,
    pub active_cnt: u32,
    pub engine: Engine,
    pub category: Category,
    pub limits: SpeedLimits,
    pub show_help: bool,
}

/// What the state says.
#[verifier::ext_equal]
pub struct AppView {
    pub downloads: Seq<DownloadView>,
    pub dl_sel: Option<usize>,
    pub results: Seq<ResultView>,
    pub res_sel: Option<usize>,
    pub mode: ModeView,
    pub buf: Seq<char>,
    pub tab: Tab,
    pub trackers: Seq<Seq<char>>,
    pub status: Seq<char>,
    pub dl_dir: Seq<char>,
    pub global_dl: u64,
    pub global_ul: u64,
    pub active_cnt: u32,
    pub engine: Engine,
    pub category: Category,
    pub limits: SpeedLimits,
    pub show_help: bool,
}

impl View for App {
    type V = AppView;

    open spec fn view(&self) -> AppView {
        AppView {
            downloads: download_views(self.downloads@),
            dl_sel: self.dl_sel,
            results: result_views(self.results@),
            res_sel: self.res_sel,
            mode: self.mode@,
            buf: self.buf@,
            tab: self.tab,
            trackers: texts(self.trackers@),
            status: self.status@,
            dl_dir: self.dl_dir@,
            global_dl: self.global_dl,
            global_ul: self.global_ul,
            active_cnt: self.active_cnt,
            engine: self.engine,
            category: self.category,
            limits: self.limits,
            show_help: self.show_help,
        }
    }
}

/// The state at the start, with this download directory.
pub open spec fn initial(dl_dir: Seq<char>) -> AppView {
    AppView {
        downloads: Seq::empty(),
        dl_sel: None,
        results: Seq::empty(),
        res_sel: None,
        mode: ModeView::Normal,
        buf: Seq::empty(),
        tab: Tab::Downloads,
        trackers: Seq::empty(),
        status: "Connecting to aria2… │ [?] Help"@,
        dl_dir,
        global_dl: 0,
        global_ul: 0,
        active_cnt: 0,
        engine: Engine::Tpb,
        category: Category::All,
        limits: SpeedLimits { dl_bps: 0, ul_bps: 0 },
        show_help: false,
    }
}

/// The state after one report of the background work.
pub open spec fn received(s: AppView, msg: BgView) -> AppView {
    match msg {
        BgView::Downloads(d) => AppView { downloads: d, ..s },
        BgView::Trackers(t) => AppView { trackers: t, ..s },
        BgView::Status(text) => AppView { status: text, ..s },
        BgView::Stats { dl, ul, active } => AppView {
            global_dl: dl,
            global_ul: ul,
            active_cnt: active,
            ..s
        },
    }
}

/// The state after some reports, one after the other.
pub open spec fn received_all(s: AppView, msgs: Seq<BgView>) -> AppView
    decreases msgs.len(),
{
    if msgs.len() == 0 {
        s
    } else {
        received(received_all(s, msgs.drop_last()), msgs.last())
    }
}

/// The options with which a download is added: where it goes, and the known trackers,
/// if any, separated by commas.
pub open spec fn add_options(s: AppView) -> JsonView {
    let dir = ("dir"@, JsonView::Str(s.dl_dir));
    if s.trackers.len() == 0 {
        JsonView::Object(seq![dir])
    } else {
        JsonView::Object(
            seq![dir, ("bt-tracker"@, JsonView::Str(joined(s.trackers, ","@)))],
        )
    }
}

/// The options that set the speed limits.
pub open spec fn limit_options(l: SpeedLimits) -> JsonView {
    JsonView::Object(
        seq![
            ("max-overall-download-limit"@, JsonView::Str(decimal(l.dl_bps as nat))),
            ("max-overall-upload-limit"@, JsonView::Str(decimal(l.ul_bps as nat))),
        ],
    )
}

/// How a download is added: by its address, or by a torrent file that has to be got
/// first, from the disk or from the net.
#[derive(Debug, PartialEq, Eq)]
pub enum AddPlan {
    Uri(String),
    LocalTorrent(String),
    RemoteTorrent(String),
}

/// What a plan says.
pub enum PlanView {
    Uri(Seq<char>),
    LocalTorrent(Seq<char>),
    RemoteTorrent(Seq<char>),
}

impl View for AddPlan {
    type V = PlanView;

    open spec fn view(&self) -> PlanView {
        match self {
            AddPlan::Uri(t) => PlanView::Uri(t@),
            AddPlan::LocalTorrent(t) => PlanView::LocalTorrent(t@),
            AddPlan::RemoteTorrent(t) => PlanView::RemoteTorrent(t@),
        }
    }
}

/// Whether a text names a torrent file.
pub open spec fn names_torrent(t: Seq<char>) -> bool {
    ||| ".torrent"@.is_suffix_of(t)
    ||| occurs_in(".torrent?"@, t)
    ||| occurs_in("/torrent/"@, t)
}

/// How the download that the user names is added. A magnet link is an address, whatever
/// it holds; of the rest, what names a torrent file is got from the net, unless it ends as
/// such a file does and has no scheme: that is looked for on the disk.
pub open spec fn add_plan(uri: Seq<char>) -> PlanView {
    let t = trimmed(uri);
    if "magnet:"@.is_prefix_of(t) || !names_torrent(t) {
        PlanView::Uri(t)
    } else if ".torrent"@.is_suffix_of(t) && !occurs_in("://"@, t) {
        PlanView::LocalTorrent(t)
    } else {
        PlanView::RemoteTorrent(t)
    }
}

/// What came of asking the net for a torrent file: its contents, no answer at all, or an
/// answer that broke off, with the message of the error.
#[derive(Debug, PartialEq, Eq)]
pub enum Fetched {
    Body(Vec<u8>),
    NoAnswer,
    Broken(String),
}

/// What came of asking the net, as plain values.
pub enum FetchedView {
    Body(Seq<u8>),
    NoAnswer,
    Broken(Seq<char>),
}

impl View for Fetched {
    type V = FetchedView;

    open spec fn view(&self) -> FetchedView {
        match self {
            Fetched::Body(data) => FetchedView::Body(data@),
            Fetched::NoAnswer => FetchedView::NoAnswer,
            Fetched::Broken(message) => FetchedView::Broken(message@),
        }
    }
}

/// How far the adding of a download is: a torrent file is to be read from the disk, or got
/// from the net; or the call is to be sent, with the contents of the torrent file where
/// there is one; or it failed.
#[derive(Debug, PartialEq, Eq)]
pub enum AddState {
    Read(String),
    Get(String),
    Send(String, Option<Vec<u8>>),
    Fail(String),
}

/// What the state of an adding says.
pub enum AddStateView {
    Read(Seq<char>),
    Get(Seq<char>),
    Send(Seq<char>, Option<Seq<u8>>),
    Fail(Seq<char>),
}

impl View for AddState {
    type V = AddStateView;

    open spec fn view(&self) -> AddStateView {
        match self {
            AddState::Read(t) => AddStateView::Read(t@),
            AddState::Get(t) => AddStateView::Get(t@),
            AddState::Send(t, torrent) => AddStateView::Send(
                t@,
                match torrent {
                    Some(data) => Some(data@),
                    None => None,
                },
            ),
            AddState::Fail(message) => AddStateView::Fail(message@),
        }
    }
}

/// How the adding begins, by its plan.
pub open spec fn begun(plan: PlanView) -> AddStateView {
    match plan {
        PlanView::Uri(t) => AddStateView::Send(t, None),
        PlanView::LocalTorrent(t) => AddStateView::Read(t),
        PlanView::RemoteTorrent(t) => AddStateView::Get(t),
    }
}

/// What reading the file leads to: where there is no such file, the net is asked.
pub open spec fn after_reading(t: Seq<char>, file: Option<Seq<u8>>) -> AddStateView {
    match file {
        Some(data) => AddStateView::Send(t, Some(data)),
        None => AddStateView::Get(t),
    }
}

/// What asking the net leads to: without an answer the download is added by its address.
pub open spec fn after_getting(t: Seq<char>, outcome: FetchedView) -> AddStateView {
    match outcome {
        FetchedView::Body(data) => AddStateView::Send(t, Some(data)),
        FetchedView::NoAnswer => AddStateView::Send(t, None),
        FetchedView::Broken(message) => AddStateView::Fail(message),
    }
}

/// Where the adding ends, given what reading the file and asking the net come to, should
/// they be tried.
pub open spec fn settled(
    plan: PlanView,
    file: Option<Seq<u8>>,
    outcome: FetchedView,
) -> AddStateView {
    let first = begun(plan);
    let second = match first {
        AddStateView::Read(t) => after_reading(t, file),
        _ => first,
    };
    match second {
        AddStateView::Get(t) => after_getting(t, outcome),
        _ => second,
    }
}

impl AddPlan {
    /// How the adding begins.
    pub fn begin(self) -> (state: AddState)
        ensures
            state@ == begun(self@),
    {
        match self {
            AddPlan::Uri(t) => AddState::Send(t, None),
            AddPlan::LocalTorrent(t) => AddState::Read(t),
            AddPlan::RemoteTorrent(t) => AddState::Get(t),
        }
    }
}

/// What reading the file leads to.
pub fn after_read(t: String, file: Option<Vec<u8>>) -> (state: AddState)
    ensures
        state@ == after_reading(
            t@,
            match file {
                Some(data) => Some(data@),
                None => None,
            },
        ),
{
    match file {
        Some(data) => AddState::Send(t, Some(data)),
        None => AddState::Get(t),
    }
}

/// What asking the net leads to.
pub fn after_get(t: String, outcome: Fetched) -> (state: AddState)
    ensures
        state@ == after_getting(t@, outcome@),
{
    match outcome {
        Fetched::Body(data) => AddState::Send(t, Some(data)),
        Fetched::NoAnswer => AddState::Send(t, None),
        Fetched::Broken(message) => AddState::Fail(message),
    }
}

/// The call that adds a download, given the contents of its torrent file where there is
/// one that could be got.
pub open spec fn add_call(
    s: AppView,
    token: Option<Seq<char>>,
    t: Seq<char>,
    torrent: Option<Seq<u8>>,
) -> JsonView {
    match torrent {
        Some(data) => request(
            token,
            "aria2.addTorrent"@,
            seq![
                JsonView::Str(base64_text(data)),
                JsonView::Array(Seq::<JsonView>::empty()),
                add_options(s),
            ],
        ),
        None => request(
            token,
            "aria2.addUri"@,
            seq![JsonView::Array(seq![JsonView::Str(t)]), add_options(s)],
        ),
    }
}

/// The state after a search that found these results.
pub open spec fn found(s: AppView, results: Seq<ResultView>) -> AppView {
    AppView {
        results: ordered(results),
        status: decimal(results.len())
            + " results │ ↑↓ nav  Enter=DL  e=engine  Tab=category"@,
        ..s
    }
}

/// A prefix and a text.
pub fn labelled(prefix: &str, s: &str) -> (r: String)
    ensures
        r@ == prefix@ + s@,
{
    let mut r = prefix.to_owned();
    r.append(s);
    r
}

impl App {
    /// The state at the start, with this download directory.
    pub fn new(dl_dir: String) -> (app: App)
        ensures
            app@ == initial(dl_dir@),
            app@.wf(),
    {
        let app = App {
            downloads: Vec::new(),
            dl_sel: None,
            results: Vec::new(),
            res_sel: None,
            mode: Mode::Normal,
            buf: String::new(),
            tab: Tab::Downloads,
            trackers: Vec::new(),
            status: "Connecting to aria2… │ [?] Help".to_owned(),
            dl_dir,
            global_dl: 0,
            global_ul: 0,
            active_cnt: 0,
            engine: Engine::Tpb,
            category: Category::All,
            limits: SpeedLimits::default(),
            show_help: false,
        };
        proof {
            assert(app@ =~= initial(dl_dir@));
        }
        app
    }

    /// Takes in one report of the background work.
    fn receive(&mut self, msg: BgMsg)
        ensures
            final(self)@ == received(old(self)@, msg@),
    {
        match msg {
            BgMsg::Downloads(d) => {
                self.downloads = d;
            },
            BgMsg::Trackers(t) => {
                self.trackers = t;
            },
            BgMsg::Status(s) => {
                self.status = s;
            },
            BgMsg::Stats { dl, ul, active } => {
                self.global_dl = dl;
                self.global_ul = ul;
                self.active_cnt = active;
            },
        }
        proof {
            assert(self@ =~= received(old(self)@, msg@));
        }
    }

    /// Takes in the reports of the background work that have come, in order.
    pub fn drain(&mut self, msgs: Vec<BgMsg>)
        ensures
            final(self)@ == received_all(old(self)@, bg_views(msgs@)),
            old(self)@.wf() ==> final(self)@.wf(),
    {
        let ghost all = bg_views(msgs@);
        for msg in it: msgs
            invariant
                it.seq() == msgs@,
                all == bg_views(msgs@),
                self@ == received_all(old(self)@, all.take(it.index() as int)),
                old(self)@.wf() ==> self@.wf(),
        {
            proof {
                let i = it.index() as int;
                assert(all.take(i + 1).drop_last() =~= all.take(i));
                assert(all.take(i + 1).last() == msg@);
            }
            self.receive(msg);
        }
        proof {
            assert(all.take(msgs@.len() as int) =~= all);
        }
    }

    /// The options with which a download is added.
    pub fn opts(&self) -> (o: Json)
        ensures
            o@ == add_options(self@),
    {
        let mut fields: Vec<(String, Json)> = Vec::new();
        fields.push(("dir".to_owned(), Json::string(self.dl_dir.clone())));
        if self.trackers.len() > 0 {
            fields.push(("bt-tracker".to_owned(), Json::string(join(&self.trackers, ","))));
        }
        let o = Json::Object(fields);
        proof {
            assert(o@->Object_0 =~= add_options(self@)->Object_0);
        }
        o
    }

    /// How the download that the user names is added.
    pub fn add(&self, uri: &str) -> (plan: AddPlan)
        ensures
            plan@ == add_plan(uri@),
    {
        let t = trim(uri);
        if starts_with(t.as_str(), "magnet:") {
            AddPlan::Uri(t)
        } else if ends_with(t.as_str(), ".torrent") || contains(t.as_str(), ".torrent?") || contains(
            t.as_str(),
            "/torrent/",
        ) {
            if ends_with(t.as_str(), ".torrent") && !contains(t.as_str(), "://") {
                AddPlan::LocalTorrent(t)
            } else {
                AddPlan::RemoteTorrent(t)
            }
        } else {
            AddPlan::Uri(t)
        }
    }

    /// The call that adds a download, given the contents of its torrent file where there
    /// is one that could be got.
    pub fn add_request(&self, aria2: &Aria2, t: &str, torrent: Option<Vec<u8>>) -> (body: Json)
        requires
            torrent is Some ==> 4 * ((torrent->0@.len() + 2) / 3) <= isize::MAX,
        ensures
            body@ == add_call(
                self@,
                aria2.secret(),
                t@,
                match torrent {
                    Some(data) => Some(data@),
                    None => None,
                },
            ),
    {
        let opts = self.opts();
        match torrent {
            Some(data) => aria2.add_torrent(data.as_slice(), opts),
            None => {
                let mut uris: Vec<String> = Vec::new();
                uris.push(t.to_owned());
                proof {
                    assert(texts(uris@).map_values(|u: Seq<char>| JsonView::Str(u)) =~= seq![
                        JsonView::Str(t@),
                    ]);
                }
                aria2.add_uri(&uris, opts)
            },
        }
    }

    /// Takes in the results of a search.
    fn take_results(&mut self, results: Vec<SearchResult>)
        ensures
            final(self)@ == found(old(self)@, result_views(results@)),
    {
        let n: usize = results.len();
        self.results = order_by_seeds(results);
        let mut s = decimal_text(n as u64);
        s.append(" results │ ↑↓ nav  Enter=DL  e=engine  Tab=category");
        self.status = s;
        proof {
            assert(self@ =~= found(old(self)@, result_views(results@)));
        }
    }

    /// Takes in the answer of The Pirate Bay to a search.
    pub fn found_tpb(&mut self, data: &Vec<Json>)
        ensures
            final(self)@ == found(
                old(self)@,
                tpb_results(values(data@), old(self)@.trackers),
            ),
            old(self)@.wf() ==> final(self)@.wf(),
    {
        let results = search_tpb(data, &self.trackers);
        self.take_results(results);
    }

    /// Takes in the answer of Knaben to a search.
    pub fn found_knaben(&mut self, answer: &Json)
        ensures
            final(self)@ == found(old(self)@, knaben_results(answer@, old(self)@.trackers)),
            old(self)@.wf() ==> final(self)@.wf(),
    {
        let results = search_knaben(answer, &self.trackers);
        self.take_results(results);
    }

    /// The call that sets the speed limits.
    pub fn apply_limits(&self, aria2: &Aria2) -> (body: Json)
        ensures
            body@ == request(
                aria2.secret(),
                "aria2.changeGlobalOption"@,
                seq![limit_options(self@.limits)],
            ),
    {
        let mut fields: Vec<(String, Json)> = Vec::new();
        fields.push(
            ("max-overall-download-limit".to_owned(), Json::string(decimal_text(self.limits.dl_bps))),
        );
        fields.push(
            ("max-overall-upload-limit".to_owned(), Json::string(decimal_text(self.limits.ul_bps))),
        );
        let o = Json::Object(fields);
        proof {
            assert(o@->Object_0 =~= limit_options(self@.limits)->Object_0);
        }
        aria2.set_global_opts(o)
    }
}

}
