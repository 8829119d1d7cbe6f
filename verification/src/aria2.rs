//! The JSON-RPC interface of aria2: what is sent, and what the answers mean.

use crate::json::{lookup, place_of, values, Json, JsonView};
use crate::outside::{base64_encode, base64_text};
use crate::text::{decimal, push_decimal, texts};
use vstd::prelude::*;
use vstd::string::*;

verus! {

/// The aria2 daemon that is spoken to.
#[derive(Debug, PartialEq, Eq)]
pub struct Aria2 {
    pub url: String,
    pub token: Option<String>,
}

/// The parameters of a call, preceded by the secret token where there is one.
pub open spec fn with_token(token: Option<Seq<char>>, params: Seq<JsonView>) -> Seq<JsonView> {
    match token {
        Some(t) => seq![JsonView::Str("token:"@ + t)] + params,
        None => params,
    }
}

/// The body of a call.
pub open spec fn request(
    token: Option<Seq<char>>,
    method: Seq<char>,
    params: Seq<JsonView>,
) -> JsonView {
    JsonView::Object(
        seq![
            ("jsonrpc"@, JsonView::Str("2.0"@)),
            ("id"@, JsonView::Str("1"@)),
            ("method"@, JsonView::Str(method)),
            ("params"@, JsonView::Array(with_token(token, params))),
        ],
    )
}

/// The names of the fields that a report on a download is to hold.
pub open spec fn report_keys() -> JsonView {
    JsonView::Array(
        seq![
            JsonView::Str("gid"@),
            JsonView::Str("status"@),
            JsonView::Str("totalLength"@),
            JsonView::Str("completedLength"@),
            JsonView::Str("downloadSpeed"@),
            JsonView::Str("uploadSpeed"@),
            JsonView::Str("bittorrent"@),
            JsonView::Str("files"@),
            JsonView::Str("numSeeders"@),
            JsonView::Str("connections"@),
            JsonView::Str("errorMessage"@),
            JsonView::Str("dir"@),
        ],
    )
}

/// An integer as a JSON number.
pub open spec fn integer(n: int) -> JsonView {
    if n >= 0 {
        JsonView::UInt(n as u64)
    } else {
        JsonView::Number("-"@ + decimal((-n) as nat))
    }
}

/// What an answer means: an error where it has a field of that name, whatever that
/// holds, and its result otherwise.
pub open spec fn outcome(answer: JsonView) -> Result<JsonView, JsonView> {
    if answer is Object && lookup(answer->Object_0, "error"@) is Some {
        Err(answer.field("error"@))
    } else {
        Ok(answer.field("result"@))
    }
}

/// A JSON string.
fn text(s: &str) -> (j: Json)
    ensures
        j@ == JsonView::Str(s@),
{
    Json::string(s.to_owned())
}

/// A JSON number.
fn number(n: i64) -> (j: Json)
    ensures
        j@ == integer(n as int),
{
    if n >= 0 {
        Json::UInt(n as u64)
    } else {
        let mut s = "-".to_owned();
        let m: u64 = if n == i64::MIN {
            0x8000_0000_0000_0000
        } else {
            (-n) as u64
        };
        push_decimal(&mut s, m);
        Json::Number(s)
    }
}

/// A JSON array.
fn array(items: Vec<Json>) -> (j: Json)
    ensures
        j@ == JsonView::Array(values(items@)),
{
    let j = Json::Array(items);
    proof {
        assert(j@->Array_0 =~= values(items@));
    }
    j
}

impl Aria2 {
    /// The token that calls carry.
    pub open spec fn secret(self) -> Option<Seq<char>> {
        match self.token {
            Some(t) => Some(t@),
            None => None,
        }
    }

    /// A daemon at this address.
    pub fn new(url: &str, token: Option<String>) -> (a: Aria2)
        ensures
            a.url@ == url@,
            a.token == token,
    {
        Aria2 { url: url.to_owned(), token }
    }

    /// The body of a call of `method`.
    pub fn rpc(&self, method: &str, params: Vec<Json>) -> (body: Json)
        ensures
            body@ == request(self.secret(), method@, values(params@)),
    {
        let mut params = params;
        let ghost given = params@;
        match &self.token {
            Some(tok) => {
                let mut s = "token:".to_owned();
                s.append(tok.as_str());
                params.insert(0, Json::string(s));
                proof {
                    assert(values(params@) =~= with_token(self.secret(), values(given)));
                }
            },
            None => {},
        }
        let params = array(params);
        let mut fields: Vec<(String, Json)> = Vec::new();
        fields.push(("jsonrpc".to_owned(), text("2.0")));
        fields.push(("id".to_owned(), text("1")));
        fields.push(("method".to_owned(), text(method)));
        fields.push(("params".to_owned(), params));
        let body = Json::Object(fields);
        proof {
            assert(body@->Object_0 =~= request(self.secret(), method@, values(given))->Object_0);
        }
        body
    }

    /// The names of the fields that a report on a download is to hold.
    pub fn dl_keys() -> (j: Json)
        ensures
            j@ == report_keys(),
    {
        let mut v: Vec<Json> = Vec::new();
        v.push(text("gid"));
        v.push(text("status"));
        v.push(text("totalLength"));
        v.push(text("completedLength"));
        v.push(text("downloadSpeed"));
        v.push(text("uploadSpeed"));
        v.push(text("bittorrent"));
        v.push(text("files"));
        v.push(text("numSeeders"));
        v.push(text("connections"));
        v.push(text("errorMessage"));
        v.push(text("dir"));
        let j = array(v);
        proof {
            assert(j@->Array_0 =~= report_keys()->Array_0);
        }
        j
    }

    /// The call with one parameter.
    fn call_with(&self, method: &str, param: Json) -> (body: Json)
        ensures
            body@ == request(self.secret(), method@, seq![param@]),
    {
        let mut params: Vec<Json> = Vec::new();
        params.push(param);
        proof {
            assert(values(params@) =~= seq![param@]);
        }
        self.rpc(method, params)
    }

    /// The call without parameters.
    fn call(&self, method: &str) -> (body: Json)
        ensures
            body@ == request(self.secret(), method@, Seq::<JsonView>::empty()),
    {
        let params: Vec<Json> = Vec::new();
        proof {
            assert(values(params@) =~= Seq::<JsonView>::empty());
        }
        self.rpc(method, params)
    }

    /// The call with a range of places and the report keys.
    fn call_range(&self, method: &str, off: i64, n: i64) -> (body: Json)
        ensures
            body@ == request(
                self.secret(),
                method@,
                seq![integer(off as int), integer(n as int), report_keys()],
            ),
    {
        let mut params: Vec<Json> = Vec::new();
        params.push(number(off));
        params.push(number(n));
        params.push(Self::dl_keys());
        proof {
            assert(values(params@) =~= seq![integer(off as int), integer(n as int), report_keys()]);
        }
        self.rpc(method, params)
    }

    /// Asks for the active downloads.
    pub fn active(&self) -> (body: Json)
        ensures
            body@ == request(self.secret(), "aria2.tellActive"@, seq![report_keys()]),
    {
        self.call_with("aria2.tellActive", Self::dl_keys())
    }

    /// Asks for `n` of the waiting downloads from place `off` on.
    pub fn waiting(&self, off: i64, n: i64) -> (body: Json)
        ensures
            body@ == request(
                self.secret(),
                "aria2.tellWaiting"@,
                seq![integer(off as int), integer(n as int), report_keys()],
            ),
    {
        self.call_range("aria2.tellWaiting", off, n)
    }

    /// Asks for `n` of the stopped downloads from place `off` on.
    pub fn stopped(&self, off: i64, n: i64) -> (body: Json)
        ensures
            body@ == request(
                self.secret(),
                "aria2.tellStopped"@,
                seq![integer(off as int), integer(n as int), report_keys()],
            ),
    {
        self.call_range("aria2.tellStopped", off, n)
    }

    /// Asks for the overall speeds and counts.
    pub fn global_stat(&self) -> (body: Json)
        ensures
            body@ == request(self.secret(), "aria2.getGlobalStat"@, Seq::<JsonView>::empty()),
    {
        self.call("aria2.getGlobalStat")
    }

    /// Adds a download by its addresses.
    pub fn add_uri(&self, uris: &Vec<String>, opts: Json) -> (body: Json)
        ensures
            body@ == request(
                self.secret(),
                "aria2.addUri"@,
                seq![
                    JsonView::Array(texts(uris@).map_values(|u: Seq<char>| JsonView::Str(u))),
                    opts@,
                ],
            ),
    {
        let ghost all = texts(uris@).map_values(|u: Seq<char>| JsonView::Str(u));
        let mut list: Vec<Json> = Vec::new();
        let mut i: usize = 0;
        while i < uris.len()
            invariant
                i <= uris@.len(),
                all.len() == uris@.len(),
                forall|j: int|
                    #![trigger all[j]]
                    0 <= j < all.len() ==> all[j] == JsonView::Str(uris@[j]@),
                values(list@) == all.take(i as int),
            decreases uris@.len() - i,
        {
            let ghost before = list@;
            list.push(text(uris[i].as_str()));
            proof {
                assert(values(list@) =~= values(before).push(all[i as int]));
                assert(all.take(i + 1) =~= all.take(i as int).push(all[i as int]));
            }
            i = i + 1;
        }
        proof {
            assert(all.take(i as int) =~= all);
        }
        let mut params: Vec<Json> = Vec::new();
        params.push(array(list));
        params.push(opts);
        proof {
            assert(values(params@) =~= seq![JsonView::Array(all), opts@]);
        }
        self.rpc("aria2.addUri", params)
    }

    /// Adds a download by the contents of a torrent file.
    pub fn add_torrent(&self, data: &[u8], opts: Json) -> (body: Json)
        requires
            4 * ((data@.len() + 2) / 3) <= isize::MAX,
        ensures
            body@ == request(
                self.secret(),
                "aria2.addTorrent"@,
                seq![
                    JsonView::Str(base64_text(data@)),
                    JsonView::Array(Seq::<JsonView>::empty()),
                    opts@,
                ],
            ),
    {
        let none: Vec<Json> = Vec::new();
        let mut params: Vec<Json> = Vec::new();
        params.push(Json::string(base64_encode(data)));
        params.push(array(none));
        params.push(opts);
        proof {
            assert(values(none@) =~= Seq::<JsonView>::empty());
            assert(values(params@) =~= seq![
                JsonView::Str(base64_text(data@)),
                JsonView::Array(Seq::<JsonView>::empty()),
                opts@,
            ]);
        }
        self.rpc("aria2.addTorrent", params)
    }

    /// Whether the contents of a torrent file are short enough to be sent.
    pub fn torrent_fits(data: &[u8]) -> (r: bool)
        ensures
            r == (4 * ((data@.len() + 2) / 3) <= isize::MAX),
    {
        let n: u128 = data.len() as u128;
        4 * ((n + 2) / 3) <= isize::MAX as u128
    }

    /// Pauses a download.
    pub fn pause(&self, gid: &str) -> (body: Json)
        ensures
            body@ == request(self.secret(), "aria2.pause"@, seq![JsonView::Str(gid@)]),
    {
        self.call_with("aria2.pause", text(gid))
    }

    /// Resumes a download.
    pub fn unpause(&self, gid: &str) -> (body: Json)
        ensures
            body@ == request(self.secret(), "aria2.unpause"@, seq![JsonView::Str(gid@)]),
    {
        self.call_with("aria2.unpause", text(gid))
    }

    /// Removes a download without waiting.
    pub fn remove(&self, gid: &str) -> (body: Json)
        ensures
            body@ == request(self.secret(), "aria2.forceRemove"@, seq![JsonView::Str(gid@)]),
    {
        self.call_with("aria2.forceRemove", text(gid))
    }

    /// Forgets a stopped download.
    pub fn remove_result(&self, gid: &str) -> (body: Json)
        ensures
            body@ == request(
                self.secret(),
                "aria2.removeDownloadResult"@,
                seq![JsonView::Str(gid@)],
            ),
    {
        self.call_with("aria2.removeDownloadResult", text(gid))
    }

    /// Forgets all stopped downloads.
    pub fn purge(&self) -> (body: Json)
        ensures
            body@ == request(self.secret(), "aria2.purgeDownloadResult"@, Seq::<JsonView>::empty()),
    {
        self.call("aria2.purgeDownloadResult")
    }

    /// Changes options of the daemon.
    pub fn set_global_opts(&self, opts: Json) -> (body: Json)
        ensures
            body@ == request(self.secret(), "aria2.changeGlobalOption"@, seq![opts@]),
    {
        self.call_with("aria2.changeGlobalOption", opts)
    }
}

/// What an answer of the daemon means.
pub fn rpc_outcome(answer: Json) -> (r: Result<Json, Json>)
    ensures
        r is Ok <==> outcome(answer@) is Ok,
        r is Ok ==> r->Ok_0@ == outcome(answer@)->Ok_0,
        r is Err ==> r->Err_0@ == outcome(answer@)->Err_0,
{
    match answer {
        Json::Object(fields) => {
            let mut fields = fields;
            match place_of(&fields, "error") {
                Some(i) => {
                    let (_name, value) = fields.swap_remove(i);
                    Err(value)
                },
                None => match place_of(&fields, "result") {
                    Some(i) => {
                        let (_name, value) = fields.swap_remove(i);
                        Ok(value)
                    },
                    None => Ok(Json::Null),
                },
            }
        },
        _ => Ok(Json::Null),
    }
}

/// The message for an error that the daemon answered, given its JSON text.
pub fn rpc_error_text(error: &str) -> (s: String)
    ensures
        s@ == "aria2: "@ + error@,
{
    let mut s = "aria2: ".to_owned();
    s.append(error);
    s
}

/// The identifier of an added download, as the daemon answered it; empty where the
/// answer is no string.
pub fn added_gid(result: &Json) -> (s: String)
    ensures
        s@ == result@.text_or(""@),
{
    match result.as_str() {
        Some(s) => s.to_owned(),
        None => "".to_owned(),
    }
}

/// The result of a call that failed counts as no value at all.
pub fn result_or_null(reply: Result<Json, String>) -> (j: Json)
    ensures
        j@ == match reply {
            Ok(j) => j@,
            Err(_) => JsonView::Null,
        },
{
    match reply {
        Ok(j) => j,
        Err(_) => Json::Null,
    }
}

}
