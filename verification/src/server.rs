//! The preview server: where a request goes, and what it is answered.
use vstd::prelude::*;
#[allow(unused_imports)]
use vstd::utf8::{decode_utf8, encode_utf8, is_ascii_chars, valid_utf8};
#[allow(unused_imports)]
use crate::encode::{
    extension_of, extension_stands_behind_the_last_dot, extension_type, guessed, is_html_path,
    is_settled,
};
use crate::encode::guess_media_type;
#[allow(unused_imports)]
use crate::page::{
    ascii_with_script, script_is_all_that_is_added, takes_script, with_script, SSE_RELOAD_SCRIPT,
};
use crate::page::try_inject_sse;
#[allow(unused_imports)]
use crate::text::{decimal, occurs};
use crate::text::{chars_of, push_decimal, starts_with, string_of, text_eq};
#[allow(unused_imports)]
use crate::text::occurs_at;

verus! {

/// The path under which the song is told.
pub const NOW_PATH: &'static str = "/api/now";

/// The path under which pages are told to reload.
pub const RELOAD_PATH: &'static str = "/__dev_reload";

/// The file that stands for the root of the theme.
pub const INDEX_FILE: &'static str = "index.html";

/// The media type of plain answers.
pub const PLAIN_TEXT: &'static str = "text/plain; charset=utf-8";

/// Where a request goes.
#[derive(Debug, PartialEq)]
pub enum Route {
    /// The song is told.
    NowPlaying,
    /// The client is told when to reload.
    ReloadEvents,
    /// The request is passed on to the dev server.
    Proxy,
    /// The file of the theme with this path is served.
    File { path: String },
}

/// The values that a [`Route`] holds.
#[verifier::ext_equal]
pub enum RouteView {
    NowPlaying,
    ReloadEvents,
    Proxy,
    File { path: Seq<char> },
}

impl View for Route {
    type V = RouteView;

    open spec fn view(&self) -> RouteView {
        match self {
            Route::NowPlaying => RouteView::NowPlaying,
            Route::ReloadEvents => RouteView::ReloadEvents,
            Route::Proxy => RouteView::Proxy,
            Route::File { path } => RouteView::File { path: path@ },
        }
    }
}

/// A text without the slashes that it begins with.
pub open spec fn without_slashes(s: Seq<char>) -> Seq<char>
    decreases s.len(),
{
    if s.len() > 0 && s[0] == '/' {
        without_slashes(s.drop_first())
    } else {
        s
    }
}

/// The file of the theme that a path stands for: the path itself, or the index.
pub open spec fn theme_file(path: Seq<char>) -> Seq<char> {
    if path.len() == 0 {
        INDEX_FILE@
    } else {
        path
    }
}

/// Where a request goes. With a dev server, all go there but the one for the song.
pub open spec fn route_of(path: Seq<char>, proxying: bool) -> RouteView {
    if path == NOW_PATH@ {
        RouteView::NowPlaying
    } else if proxying {
        RouteView::Proxy
    } else if path == RELOAD_PATH@ {
        RouteView::ReloadEvents
    } else {
        RouteView::File { path: without_slashes(path) }
    }
}

fn trim_slashes(path: &str) -> (rest: String)
    ensures
        rest@ == without_slashes(path@),
{
    let chars = chars_of(path);
    let mut start: usize = 0;
    assert(chars@.skip(0) =~= chars@);
    while start < chars.len() && chars[start] == '/'
        invariant
            start <= chars.len(),
            without_slashes(chars@) == without_slashes(chars@.skip(start as int)),
        decreases chars.len() - start,
    {
        assert(chars@.skip(start as int).drop_first() =~= chars@.skip(start + 1));
        start += 1;
    }
    assert(chars@.skip(start as int) =~= chars@.subrange(start as int, chars.len() as int));
    string_of(&chars, start, chars.len())
}

/// The file of the theme that a path stands for.
pub fn theme_file_of(path: &str) -> (file: String)
    ensures
        file@ == theme_file(path@),
{
    if path.is_empty() {
        INDEX_FILE.to_owned()
    } else {
        path.to_owned()
    }
}

/// Where a request for a path goes.
pub fn route(path: &str, proxying: bool) -> (route: Route)
    ensures
        route@ == route_of(path@, proxying),
{
    if text_eq(path, NOW_PATH) {
        return Route::NowPlaying;
    }
    if text_eq(path, RELOAD_PATH) && !proxying {
        return Route::ReloadEvents;
    }
    if proxying {
        return Route::Proxy;
    }
    Route::File { path: trim_slashes(path) }
}

/// An answer.
#[derive(Debug, PartialEq)]
pub struct Reply {
    pub status: u16,
    pub content_type: String,
    pub body: Vec<u8>,
}

/// The values that a [`Reply`] holds.
#[verifier::ext_equal]
pub struct ReplyView {
    pub status: u16,
    pub content_type: Seq<char>,
    pub body: Seq<u8>,
}

impl View for Reply {
    type V = ReplyView;

    open spec fn view(&self) -> ReplyView {
        ReplyView { status: self.status, content_type: self.content_type@, body: self.body@ }
    }
}

/// An answer in plain text.
pub open spec fn plain(status: u16, text: Seq<char>) -> ReplyView {
    ReplyView { status, content_type: PLAIN_TEXT@, body: encode_utf8(text) }
}

/// The answer to a request for a file that is not served.
pub fn not_found() -> (reply: Reply)
    ensures
        reply@ == plain(404, "Not Found"@),
{
    Reply {
        status: 404,
        content_type: PLAIN_TEXT.to_owned(),
        body: "Not Found".as_bytes_vec(),
    }
}

/// The answer to a request that the dev server did not take.
pub fn bad_gateway(port: u16, error: &str) -> (reply: Reply)
    ensures
        reply@ == plain(
            502,
            "上游 dev server 不可用 (localhost:"@ + decimal(port as nat) + "): "@
                + error@,
        ),
{
    let mut text = "上游 dev server 不可用 (localhost:".to_owned();
    push_decimal(&mut text, port as u64);
    text.append("): ");
    text.append(error);
    Reply {
        status: 502,
        content_type: PLAIN_TEXT.to_owned(),
        body: text.as_str().as_bytes_vec(),
    }
}

/// The answer to a request for the song, whose JSON form is given; without one the song is told as
/// an empty object.
pub fn now_playing(json: Option<Vec<u8>>) -> (reply: Reply)
    ensures
        reply@ == (ReplyView {
            status: 200,
            content_type: "application/json"@,
            body: match json {
                Some(bytes) => bytes@,
                None => encode_utf8("{}"@),
            },
        }),
{
    Reply {
        status: 200,
        content_type: "application/json".to_owned(),
        body: match json {
            Some(bytes) => bytes,
            None => "{}".as_bytes_vec(),
        },
    }
}

/// The answer to a client that waits for changes: its head, the event, without a name, that it is
/// sent at each change, and the seconds after which it is sent one though nothing has changed.
#[derive(Debug)]
pub struct EventStream {
    pub status: u16,
    pub content_type: String,
    pub cache_control: String,
    pub event: Vec<u8>,
    pub interval_secs: u64,
}

/// The answer to a client that waits for changes.
pub fn event_stream() -> (stream: EventStream)
    ensures
        stream.status == 200,
        stream.content_type@ == "text/event-stream"@,
        stream.cache_control@ == "no-cache"@,
        stream.event@ == encode_utf8("data: reload\n\n"@),
        stream.interval_secs == 15,
{
    EventStream {
        status: 200,
        content_type: "text/event-stream".to_owned(),
        cache_control: "no-cache".to_owned(),
        event: "data: reload\n\n".as_bytes_vec(),
        interval_secs: 15,
    }
}

/// The components of a path, as bytes.
pub open spec fn components(path: Seq<Vec<u8>>) -> Seq<Seq<u8>> {
    path.map_values(|c: Vec<u8>| c@)
}

/// The components of a path that may be missing.
pub open spec fn opt_components(path: Option<Vec<Vec<u8>>>) -> Option<Seq<Seq<u8>>> {
    match path {
        Some(p) => Some(components(p@)),
        None => None,
    }
}

/// A file may be read if both it and the theme's directory could be resolved, and it lies in that
/// directory.
pub open spec fn readable(base: Option<Seq<Seq<u8>>>, file: Option<Seq<Seq<u8>>>) -> bool {
    match (base, file) {
        (Some(b), Some(f)) => b.is_prefix_of(f),
        _ => false,
    }
}

fn same_bytes(a: &Vec<u8>, b: &Vec<u8>) -> (same: bool)
    ensures
        same == (a@ == b@),
{
    if a.len() != b.len() {
        return false;
    }
    let mut i: usize = 0;
    while i < a.len()
        invariant
            i <= a.len(),
            a.len() == b.len(),
            forall|j: int| 0 <= j < i ==> a@[j] == b@[j],
        decreases a.len() - i,
    {
        if a[i] != b[i] {
            return false;
        }
        i += 1;
    }
    assert(a@ =~= b@);
    true
}

/// Whether the file with these components, with all links resolved, may be read as a file of the
/// theme whose directory has these components.
pub fn may_read(base: &Option<Vec<Vec<u8>>>, file: &Option<Vec<Vec<u8>>>) -> (allowed: bool)
    ensures
        allowed == readable(opt_components(*base), opt_components(*file)),
{
    match (base, file) {
        (Some(b), Some(f)) => {
            if b.len() > f.len() {
                return false;
            }
            let mut i: usize = 0;
            while i < b.len()
                invariant
                    i <= b.len() <= f.len(),
                    opt_components(*base) == Some(components(b@)),
                    opt_components(*file) == Some(components(f@)),
                    forall|j: int| 0 <= j < i ==> b@[j]@ == f@[j]@,
                decreases b.len() - i,
            {
                if !same_bytes(&b[i], &f[i]) {
                    assert(components(b@)[i as int] != components(f@)[i as int]);
                    assert(components(f@).subrange(0, b.len() as int)[i as int] == components(
                        f@,
                    )[i as int]);
                    return false;
                }
                i += 1;
            }
            assert(components(b@) =~= components(f@).subrange(0, b.len() as int));
            true
        },
        _ => false,
    }
}

/// What `String::from_utf8_lossy` of std makes of a sequence of bytes: the text that they encode,
/// with a replacement character for what is not valid.
pub uninterp spec fn lossy_text(data: Seq<u8>) -> Seq<char>;

/// `String::from_utf8_lossy` of std: the text depends on the bytes alone, and if they are valid
/// UTF-8 it is the text that they encode.
#[verifier::external_body]
fn text_lossy(data: &Vec<u8>) -> (text: String)
    ensures
        text@ == lossy_text(data@),
        valid_utf8(data@) ==> text@ == decode_utf8(data@),
{
    String::from_utf8_lossy(data).into_owned()
}

/// A media type of pages.
pub open spec fn is_page(kind: Seq<char>) -> bool {
    "text/html"@.is_prefix_of(kind)
}

/// The answer with a page: its text gets the script. A page that does not take the
/// script has no answer.
pub open spec fn page_reply(kind: Seq<char>, text: Seq<char>) -> Option<ReplyView> {
    if takes_script(text) {
        Some(ReplyView { status: 200, content_type: kind, body: with_script(text) })
    } else {
        None
    }
}

/// The answer with a file of a given media type: a page gets the script, any other file goes out
/// as it is.
pub open spec fn file_reply_view(kind: Seq<char>, data: Seq<u8>) -> Option<ReplyView> {
    if is_page(kind) {
        page_reply(kind, lossy_text(data))
    } else {
        Some(ReplyView { status: 200, content_type: kind, body: data })
    }
}

/// An answer that may be absent, as values.
pub open spec fn opt_reply(reply: Option<Reply>) -> Option<ReplyView> {
    match reply {
        Some(r) => Some(r@),
        None => None,
    }
}

/// The bytes of a file that may be missing.
pub open spec fn opt_bytes(data: Option<Vec<u8>>) -> Option<Seq<u8>> {
    match data {
        Some(d) => Some(d@),
        None => None,
    }
}

/// Data that encode a text in ASCII.
pub open spec fn is_ascii_text(data: Seq<u8>) -> bool {
    valid_utf8(data) && is_ascii_chars(decode_utf8(data))
}

/// The answer with a page in ASCII.
pub open spec fn ascii_page_reply(kind: Seq<char>, data: Seq<u8>) -> ReplyView {
    ReplyView {
        status: 200,
        content_type: kind,
        body: encode_utf8(ascii_with_script(decode_utf8(data))),
    }
}

/// The answer with a file of a given media type.
pub fn file_reply(kind: &str, data: Vec<u8>) -> (reply: Option<Reply>)
    ensures
        opt_reply(reply) == file_reply_view(kind@, data@),
        is_page(kind@) && valid_utf8(data@) ==> opt_reply(reply) == page_reply(
            kind@,
            decode_utf8(data@),
        ),
        is_page(kind@) && is_ascii_text(data@) ==> opt_reply(reply) == Some(
            ascii_page_reply(kind@, data@),
        ),
{
    let body = if starts_with(&chars_of(kind), &chars_of("text/html")) {
        match try_inject_sse(text_lossy(&data).as_str()) {
            Some(page) => page.as_str().as_bytes_vec(),
            None => {
                return None;
            },
        }
    } else {
        data
    };
    Some(Reply { status: 200, content_type: kind.to_owned(), body })
}

/// `reply` answers a request for a file of the theme. `base` and `file` are what the theme's
/// directory and the path of the file resolve to, and `data` is what was read of the file.
pub open spec fn answers(
    path: Seq<char>,
    base: Option<Seq<Seq<u8>>>,
    file: Option<Seq<Seq<u8>>>,
    data: Option<Seq<u8>>,
    reply: Option<ReplyView>,
) -> bool {
    if readable(base, file) && data is Some {
        exists|kind: Seq<char>| #[trigger]
            guessed(theme_file(path), kind) && reply == file_reply_view(kind, data->0)
    } else {
        reply == Some(plain(404, "Not Found"@))
    }
}

/// The answer to a request for a file of the theme. There is none only for a page that does not
/// take the script.
pub fn serve_static(
    path: &str,
    base: &Option<Vec<Vec<u8>>>,
    file: &Option<Vec<Vec<u8>>>,
    data: Option<Vec<u8>>,
) -> (reply: Option<Reply>)
    ensures
        answers(
            path@,
            opt_components(*base),
            opt_components(*file),
            opt_bytes(data),
            opt_reply(reply),
        ),
        (path@.len() == 0 || is_html_path(path@)) && readable(
            opt_components(*base),
            opt_components(*file),
        ) ==> match data {
            Some(d) => {
                &&& valid_utf8(d@) ==> opt_reply(reply) == page_reply(
                    "text/html"@,
                    decode_utf8(d@),
                )
                &&& is_ascii_text(d@) ==> opt_reply(reply) == Some(
                    ascii_page_reply("text/html"@, d@),
                )
            },
            None => true,
        },
{
    if !may_read(base, file) {
        return Some(not_found());
    }
    match data {
        Some(bytes) => {
            proof {
                index_is_html();
            }
            let target = theme_file_of(path);
            let kind = guess_media_type(target.as_str());
            assert(guessed(theme_file(path@), kind@));
            file_reply(kind.as_str(), bytes)
        },
        None => Some(not_found()),
    }
}

/// The song is told whether or not there is a dev server, and under its own path only.
pub proof fn song_is_told_in_both_modes(path: Seq<char>, proxying: bool)
    ensures
        route_of(path, proxying) == RouteView::NowPlaying <==> path == NOW_PATH@,
{
}

/// With a dev server, each request but the one for the song goes to it.
pub proof fn dev_server_gets_all_but_the_song(path: Seq<char>)
    requires
        path != NOW_PATH@,
    ensures
        route_of(path, true) == RouteView::Proxy,
{
}

/// Without a dev server nothing is passed on.
pub proof fn nothing_is_passed_on_without_a_dev_server(path: Seq<char>)
    ensures
        route_of(path, false) != RouteView::Proxy,
{
}

/// A path of slashes alone stands for the index, which is a page.
pub proof fn root_is_the_index(path: Seq<char>)
    requires
        forall|i: int| 0 <= i < path.len() ==> path[i] == '/',
    ensures
        theme_file(without_slashes(path)) == INDEX_FILE@,
        is_html_path(theme_file(without_slashes(path))),
        route_of(path, false) == (RouteView::File { path: Seq::empty() }),
    decreases path.len(),
{
    index_is_html();
    reveal_strlit("/api/now");
    reveal_strlit("/__dev_reload");
    assert(path != NOW_PATH@) by {
        assert(NOW_PATH@[1] == 'a');
    }
    assert(path != RELOAD_PATH@) by {
        assert(RELOAD_PATH@[1] == '_');
    }
    if path.len() > 0 {
        root_is_the_index(path.drop_first());
    } else {
        assert(path =~= Seq::empty());
    }
}

proof fn index_is_html()
    ensures
        is_html_path(INDEX_FILE@),
{
    reveal_strlit("index.html");
    reveal_strlit("index");
    reveal_strlit("html");
    assert(INDEX_FILE@ =~= "index"@.push('.') + "html"@);
    extension_stands_behind_the_last_dot("index"@, "html"@);
}

/// What does not resolve to a file in the theme's directory is not found, whatever was read.
pub proof fn files_outside_the_theme_are_not_served(
    path: Seq<char>,
    base: Seq<Seq<u8>>,
    file: Seq<Seq<u8>>,
    data: Option<Seq<u8>>,
    reply: Option<ReplyView>,
)
    requires
        !base.is_prefix_of(file),
        answers(path, Some(base), Some(file), data, reply),
    ensures
        reply == Some(plain(404, "Not Found"@)),
{
}

/// A file that is no page goes out as it is.
pub proof fn other_files_go_out_unchanged(kind: Seq<char>, data: Seq<u8>)
    requires
        !is_page(kind),
    ensures
        file_reply_view(kind, data) == Some(
            ReplyView { status: 200, content_type: kind, body: data },
        ),
{
}

/// A page goes out with the script, and with its own bytes before and after it.
pub proof fn pages_go_out_with_the_script(kind: Seq<char>, data: Seq<u8>)
    requires
        valid_utf8(data),
        takes_script(decode_utf8(data)),
    ensures
        page_reply(kind, decode_utf8(data)) is Some,
        page_reply(kind, decode_utf8(data))->0.status == 200,
        exists|before: Seq<u8>, after: Seq<u8>|
            before + after == data && #[trigger] (before + encode_utf8(SSE_RELOAD_SCRIPT@) + after)
                == page_reply(kind, decode_utf8(data))->0.body,
{
    vstd::utf8::decode_utf8_encode_utf8(data);
    script_is_all_that_is_added(decode_utf8(data));
}

/// The script asks for changes under the path under which they are told.
pub proof fn script_asks_the_server()
    ensures
        occurs(SSE_RELOAD_SCRIPT@, "'"@ + RELOAD_PATH@ + "'"@),
{
    reveal_strlit("<script>\n(function(){var e=new EventSource('/__dev_reload');e.addEventListener('reload',function(){e.close();location.reload()});e.onerror=function(){e.close()}})();\n</script>");
    reveal_strlit("'");
    reveal_strlit("/__dev_reload");
    assert(SSE_RELOAD_SCRIPT@.subrange(43, 58) =~= "'"@ + RELOAD_PATH@ + "'"@);
    assert(occurs_at(SSE_RELOAD_SCRIPT@, "'"@ + RELOAD_PATH@ + "'"@, 43));
}

/// A request goes to the song, to the stream of events, to the dev server or to a file of the theme,
/// by its path: the first under `/api/now`, the second under `/__dev_reload` unless there is a dev
/// server, the third if there is one, and the last otherwise, with the path without the slashes that
/// it begins with.
pub proof fn requests_go_by_path(
    path: &str,
    proxying: bool,
    taken: Route,
    slashes: Seq<char>,
    rest: Seq<char>,
)
    requires
        call_ensures(route, (path, proxying), taken),
        path@ == slashes + rest,
        forall|i: int| 0 <= i < slashes.len() ==> slashes[i] == '/',
        rest.len() > 0 ==> rest[0] != '/',
    ensures
        path@ == "/api/now"@ ==> taken is NowPlaying,
        path@ != "/api/now"@ && proxying ==> taken is Proxy,
        path@ == "/__dev_reload"@ && !proxying ==> taken is ReloadEvents,
        path@ != "/api/now"@ && path@ != "/__dev_reload"@ && !proxying ==> (taken matches
            Route::File { path: file } && file@ == rest),
{
    reveal_strlit("/api/now");
    reveal_strlit("/__dev_reload");
    assert("/api/now"@.len() == 8 && "/__dev_reload"@.len() == 13);
    slashes_are_dropped(slashes, rest);
}

proof fn slashes_are_dropped(slashes: Seq<char>, rest: Seq<char>)
    requires
        forall|i: int| 0 <= i < slashes.len() ==> slashes[i] == '/',
        rest.len() > 0 ==> rest[0] != '/',
    ensures
        without_slashes(slashes + rest) == rest,
    decreases slashes.len(),
{
    let path = slashes + rest;
    if slashes.len() == 0 {
        assert(path =~= rest);
    } else {
        assert(path[0] == slashes[0]);
        assert(path.drop_first() =~= slashes.drop_first() + rest);
        slashes_are_dropped(slashes.drop_first(), rest);
    }
}

/// An empty path stands for `index.html`, and any other for itself.
pub proof fn empty_paths_stand_for_the_index(path: &str, file: String)
    requires
        call_ensures(theme_file_of, (path,), file),
    ensures
        path@.len() == 0 ==> file@ == "index.html"@,
        path@.len() > 0 ==> file@ == path@,
{
}

/// A file may be read if and only if it and the theme's directory were resolved and its components
/// begin with all those of the directory.
pub proof fn only_files_below_the_directory_are_read(
    base: &Option<Vec<Vec<u8>>>,
    file: &Option<Vec<Vec<u8>>>,
    allowed: bool,
)
    requires
        call_ensures(may_read, (base, file), allowed),
    ensures
        allowed <==> {
            &&& base is Some
            &&& file is Some
            &&& base->0@.len() <= file->0@.len()
            &&& forall|i: int|
                0 <= i < base->0@.len() ==> (#[trigger] base->0@[i])@ == file->0@[i]@
        },
{
    if base is Some && file is Some {
        let (b, f) = (components(base->0@), components(file->0@));
        assert(forall|i: int| 0 <= i < b.len() ==> #[trigger] b[i] == base->0@[i]@);
        assert(forall|i: int| 0 <= i < f.len() ==> #[trigger] f[i] == file->0@[i]@);
        if allowed {
            assert forall|i: int| 0 <= i < base->0@.len() implies (#[trigger] base->0@[i])@
                == file->0@[i]@ by {
                assert(b[i] == f.subrange(0, b.len() as int)[i]);
                assert(f[i] == file->0@[i]@);
                assert(b[i] == base->0@[i]@);
            }
        }
        if base->0@.len() <= file->0@.len() && forall|i: int|
            0 <= i < base->0@.len() ==> (#[trigger] base->0@[i])@ == file->0@[i]@ {
            assert forall|i: int| 0 <= i < b.len() implies b[i] == f.subrange(
                0,
                b.len() as int,
            )[i] by {
                assert(b[i] == base->0@[i]@);
                assert(f[i] == file->0@[i]@);
            }
            assert(b =~= f.subrange(0, b.len() as int));
        }
    }
}

/// A request for what is not in the theme's directory, could not be resolved or could not be read is
/// answered with 404 and `Not Found`, whatever was asked for.
pub proof fn what_is_not_in_the_theme_is_not_found(
    path: &str,
    base: &Option<Vec<Vec<u8>>>,
    file: &Option<Vec<Vec<u8>>>,
    data: Option<Vec<u8>>,
    reply: Option<Reply>,
    allowed: bool,
)
    requires
        call_ensures(serve_static, (path, base, file, data), reply),
        call_ensures(may_read, (base, file), allowed),
        !allowed || data is None,
    ensures
        reply is Some,
        reply->0.status == 404,
        reply->0.content_type@ == "text/plain; charset=utf-8"@,
        reply->0.body@ == encode_utf8("Not Found"@),
{
}

/// A file of the theme is answered with 200 and the media type of its extension, where all
/// platforms agree on it. If that is not that of a page, it goes out byte for byte.
pub proof fn files_of_the_theme_go_out_by_extension(
    path: &str,
    base: &Option<Vec<Vec<u8>>>,
    file: &Option<Vec<Vec<u8>>>,
    data: Vec<u8>,
    reply: Option<Reply>,
    allowed: bool,
)
    requires
        call_ensures(serve_static, (path, base, file, Some(data)), reply),
        call_ensures(may_read, (base, file), allowed),
        allowed,
        path@.len() > 0,
        is_settled(path@),
    ensures
        reply matches Some(r) ==> {
            &&& r.status == 200
            &&& extension_of(path@) matches Some(e) ==> r.content_type@ == extension_type(e)
            &&& extension_of(path@) is None ==> r.content_type@ == "application/octet-stream"@
        },
        extension_of(path@) matches Some(e) && !("text/html"@.is_prefix_of(extension_type(e)))
            ==> (reply matches Some(r) && r.body@ == data@),
        extension_of(path@) is None ==> (reply matches Some(r) && r.body@ == data@),
{
    let kind = choose|kind: Seq<char>| #[trigger]
        guessed(theme_file(path@), kind) && opt_reply(reply) == file_reply_view(kind, data@);
    assert(guessed(path@, kind));
    reveal_strlit("text/html");
    reveal_strlit("application/octet-stream");
    if "text/html"@.is_prefix_of("application/octet-stream"@) {
        assert("application/octet-stream"@.subrange(0, 9)[0] == "text/html"@[0]);
    }
}

/// The index, and every other file with the extension `html`, goes out with the script: right before
/// the last closing tag of the body where the page is in ASCII, whatever letters the tag is in.
pub proof fn pages_of_the_theme_get_the_script(
    path: &str,
    base: &Option<Vec<Vec<u8>>>,
    file: &Option<Vec<Vec<u8>>>,
    data: Vec<u8>,
    reply: Option<Reply>,
    allowed: bool,
    text: &str,
    page: Option<String>,
)
    requires
        call_ensures(serve_static, (path, base, file, Some(data)), reply),
        call_ensures(may_read, (base, file), allowed),
        call_ensures(try_inject_sse, (text,), page),
        allowed,
        path@.len() == 0 || is_html_path(path@),
        data@ == encode_utf8(text@),
    ensures
        reply is Some <==> page is Some,
        reply matches Some(r) ==> {
            &&& r.status == 200
            &&& r.content_type@ == "text/html"@
            &&& r.body@ == encode_utf8(page->0@)
        },
{
    vstd::utf8::encode_utf8_valid_utf8(text@);
    vstd::utf8::encode_utf8_decode_utf8(text@);
}

/// The song is told with 200 as JSON, in the form that was given, or as an empty object.
pub proof fn songs_are_told_as_given(json: Option<Vec<u8>>, reply: Reply)
    requires
        call_ensures(now_playing, (json,), reply),
    ensures
        reply.status == 200,
        reply.content_type@ == "application/json"@,
        json matches Some(bytes) ==> reply.body@ == bytes@,
        json is None ==> reply.body@ == encode_utf8("{}"@),
{
}

/// A dev server that does not answer is told of with 502, its port and the error.
pub proof fn unanswered_requests_are_told_of(port: u16, error: &str, reply: Reply, missing: Reply)
    requires
        call_ensures(bad_gateway, (port, error), reply),
        call_ensures(not_found, (), missing),
    ensures
        reply.status == 502,
        reply.content_type@ == "text/plain; charset=utf-8"@,
        reply.body@ == encode_utf8(
            "上游 dev server 不可用 (localhost:"@ + decimal(port as nat) + "): "@ + error@,
        ),
        missing.status == 404,
        missing.content_type@ == "text/plain; charset=utf-8"@,
        missing.body@ == encode_utf8("Not Found"@),
{
}

/// A client that waits for changes gets a stream of events that is not cached, one at each change
/// and one at least each quarter of a minute.
pub proof fn changes_are_told_as_a_stream(stream: EventStream)
    requires
        call_ensures(event_stream, (), stream),
    ensures
        stream.status == 200,
        stream.content_type@ == "text/event-stream"@,
        stream.cache_control@ == "no-cache"@,
        stream.event@ == encode_utf8("data: reload\n\n"@),
        stream.interval_secs == 15,
{
}

/// A file goes out with its media type and 200: as it is, unless the type is that of a page, and
/// else as the page with the script, where what is not valid text has been mended.
pub proof fn files_go_out_by_type(
    kind: &str,
    data: Vec<u8>,
    reply: Option<Reply>,
    text: &str,
    page: Option<String>,
)
    requires
        call_ensures(file_reply, (kind, data), reply),
        call_ensures(try_inject_sse, (text,), page),
        text@ == lossy_text(data@),
    ensures
        reply matches Some(r) ==> r.status == 200 && r.content_type@ == kind@,
        !"text/html"@.is_prefix_of(kind@) ==> (reply matches Some(r) && r.body@ == data@),
        "text/html"@.is_prefix_of(kind@) ==> (reply is Some <==> page is Some),
        "text/html"@.is_prefix_of(kind@) && page is Some ==> (reply matches Some(r) && r.body@
            == encode_utf8(page->0@)),
{
}

} // verus!
