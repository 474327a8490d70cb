//! Passing requests on to a dev server: which headers go along.
use hyper::header::{HeaderMap, HeaderName, HeaderValue};
use vstd::prelude::*;
#[allow(unused_imports)]
use vstd::utf8::encode_utf8;
use crate::text::{decimal_of, text_eq};
#[allow(unused_imports)]
use crate::text::{decimal, decimal_reads_back, is_digit};

verus! {

/// `http::HeaderMap`, which holds the headers of a message by name.
#[verifier::external_type_specification]
#[verifier::external_body]
#[verifier::reject_recursive_types(T)]
pub struct ExHeaderMap<T>(HeaderMap<T>);

/// `http::HeaderName`, a header's name.
#[verifier::external_type_specification]
#[verifier::external_body]
pub struct ExHeaderName(HeaderName);

/// `http::HeaderValue`, a header's value.
#[verifier::external_type_specification]
#[verifier::external_body]
pub struct ExHeaderValue(HeaderValue);

/// The values that a header map holds, by name, each name's values in order.
pub uninterp spec fn headers_of(map: HeaderMap<HeaderValue>) -> Map<Seq<char>, Seq<Seq<u8>>>;

/// The characters of a header's name.
pub uninterp spec fn name_text(name: HeaderName) -> Seq<char>;

/// The bytes of a header's value.
pub uninterp spec fn value_bytes(value: HeaderValue) -> Seq<u8>;

/// Headers with one more value under a name.
pub open spec fn appended(
    headers: Map<Seq<char>, Seq<Seq<u8>>>,
    name: Seq<char>,
    value: Seq<u8>,
) -> Map<Seq<char>, Seq<Seq<u8>>> {
    if headers.contains_key(name) {
        headers.insert(name, headers[name].push(value))
    } else {
        headers.insert(name, seq![value])
    }
}

/// The headers that a list of fields stands for.
pub open spec fn grouped(fields: Seq<(HeaderName, HeaderValue)>) -> Map<Seq<char>, Seq<Seq<u8>>>
    decreases fields.len(),
{
    if fields.len() == 0 {
        Map::empty()
    } else {
        appended(
            grouped(fields.drop_last()),
            name_text(fields.last().0),
            value_bytes(fields.last().1),
        )
    }
}

/// The number of names up to which a header map takes another name for certain. Beyond it the map
/// may refuse, as its size is bounded and its buckets may be overfull.
pub const SAFE_NAMES: usize = 6553;

/// `HeaderMap::new` of the crate `http`: a map without headers.
#[verifier::external_body]
fn no_headers() -> (map: HeaderMap<HeaderValue>)
    ensures
        headers_of(map).dom() == Set::<Seq<char>>::empty(),
{
    HeaderMap::new()
}

/// `HeaderMap::iter` of the crate `http`: every value of every name, the values of a name in
/// their order. In which order the names come is left open.
#[verifier::external_body]
fn fields_of(map: &HeaderMap<HeaderValue>) -> (fields: Vec<(HeaderName, HeaderValue)>)
    ensures
        grouped(fields@) == headers_of(*map),
{
    map.iter().map(|(name, value)| (name.clone(), value.clone())).collect()
}

/// `HeaderName::as_str` of the crate `http`: the characters of the name.
#[verifier::external_body]
fn name_str(name: &HeaderName) -> (text: &str)
    ensures
        text@ == name_text(*name),
{
    name.as_str()
}

/// `HeaderMap::try_append` of the crate `http`: adds a value under a name, after those that the
/// name has, unless the map's bound on its size stops it.
#[verifier::external_body]
fn try_append(map: &mut HeaderMap<HeaderValue>, name: HeaderName, value: HeaderValue) -> (ok: bool)
    ensures
        ok ==> headers_of(*final(map)) == appended(
            headers_of(*old(map)),
            name_text(name),
            value_bytes(value),
        ),
        headers_of(*old(map)).dom().len() <= SAFE_NAMES ==> ok,
{
    map.try_append(name, value).is_ok()
}

/// `HeaderMap::try_insert` of the crate `http`: sets the one value of a name, in place of those
/// that it has, unless the map's bound on its size stops it.
#[verifier::external_body]
fn try_insert(map: &mut HeaderMap<HeaderValue>, name: HeaderName, value: HeaderValue) -> (ok: bool)
    ensures
        ok ==> headers_of(*final(map)) == headers_of(*old(map)).insert(
            name_text(name),
            seq![value_bytes(value)],
        ),
        headers_of(*old(map)).dom().len() <= SAFE_NAMES ==> ok,
{
    map.try_insert(name, value).is_ok()
}

/// `HeaderMap::contains_key` of the crate `http`: whether the map has a value under the name.
#[verifier::external_body]
fn has_header(map: &HeaderMap<HeaderValue>, name: &HeaderName) -> (found: bool)
    ensures
        found == headers_of(*map).contains_key(name_text(*name)),
{
    map.contains_key(name)
}

/// The constant `HOST` of the crate `http`.
#[verifier::external_body]
fn host_name() -> (name: HeaderName)
    ensures
        name_text(name) == "host"@,
{
    hyper::header::HOST
}

/// The constant `ORIGIN` of the crate `http`.
#[verifier::external_body]
fn origin_name() -> (name: HeaderName)
    ensures
        name_text(name) == "origin"@,
{
    hyper::header::ORIGIN
}

/// A byte that a header's value may hold: any but the control characters, of which the tab is
/// admitted.
pub open spec fn admitted_byte(b: u8) -> bool {
    32 <= b && b != 127 || b == 9
}

/// `HeaderValue::from_str` of the crate `http`: the bytes of the string, if a value may hold each
/// of them.
#[verifier::external_body]
fn header_value(text: &str) -> (value: Option<HeaderValue>)
    ensures
        value is Some <==> forall|i: int|
            0 <= i < encode_utf8(text@).len() ==> admitted_byte(#[trigger] encode_utf8(text@)[i]),
        value matches Some(v) ==> value_bytes(v) == encode_utf8(text@),
{
    HeaderValue::from_str(text).ok()
}

/// The headers of a request that are not passed on: the host, which is set anew, and those that
/// speak of the connection between client and server.
pub open spec fn request_only(name: Seq<char>) -> bool {
    ||| name == "host"@
    ||| name == "transfer-encoding"@
    ||| name == "proxy-connection"@
    ||| name == "proxy-authorization"@
    ||| name == "proxy-authenticate"@
    ||| name == "te"@
    ||| name == "trailer"@
    ||| name == "keep-alive"@
}

/// The headers that speak of one connection only.
pub open spec fn hop_by_hop(name: Seq<char>) -> bool {
    ||| name == "connection"@
    ||| name == "keep-alive"@
    ||| name == "proxy-authenticate"@
    ||| name == "proxy-authorization"@
    ||| name == "te"@
    ||| name == "trailer"@
    ||| name == "transfer-encoding"@
    ||| name == "upgrade"@
}

/// Whether a header of a request is not passed on.
pub fn skip_request_header(name: &str) -> (skipped: bool)
    ensures
        skipped == request_only(name@),
{
    text_eq(name, "host") || text_eq(name, "transfer-encoding") || text_eq(name, "proxy-connection")
        || text_eq(name, "proxy-authorization") || text_eq(name, "proxy-authenticate") || text_eq(
        name,
        "te",
    ) || text_eq(name, "trailer") || text_eq(name, "keep-alive")
}

/// Whether a header speaks of one connection only.
pub fn is_hop_by_hop(name: &str) -> (hop: bool)
    ensures
        hop == hop_by_hop(name@),
{
    text_eq(name, "connection") || text_eq(name, "keep-alive") || text_eq(
        name,
        "proxy-authenticate",
    ) || text_eq(name, "proxy-authorization") || text_eq(name, "te") || text_eq(name, "trailer")
        || text_eq(name, "transfer-encoding") || text_eq(name, "upgrade")
}

/// Where headers are passed on to.
#[derive(Clone, Copy, Debug, PartialEq, Eq, Structural)]
pub enum Direction {
    /// From the client to the dev server.
    ToServer,
    /// From the dev server to the client.
    ToClient,
    /// From the dev server to the client, with an answer that changes the protocol.
    ToUpgradedClient,
}

/// Whether a header is passed on. Of the answers only one that changes the protocol takes along
/// what speaks of the connection, and none takes along how its body is transferred.
pub open spec fn passes(direction: Direction, name: Seq<char>) -> bool {
    match direction {
        Direction::ToServer => !request_only(name),
        Direction::ToClient => name != "transfer-encoding"@ && !hop_by_hop(name),
        Direction::ToUpgradedClient => name != "transfer-encoding"@,
    }
}

/// The headers that are passed on.
pub open spec fn passed(
    headers: Map<Seq<char>, Seq<Seq<u8>>>,
    direction: Direction,
) -> Map<Seq<char>, Seq<Seq<u8>>> {
    headers.restrict(Set::new(|name: Seq<char>| passes(direction, name)))
}

fn is_passed(direction: Direction, name: &str) -> (pass: bool)
    ensures
        pass == passes(direction, name@),
{
    match direction {
        Direction::ToServer => !skip_request_header(name),
        Direction::ToClient => !text_eq(name, "transfer-encoding") && !is_hop_by_hop(name),
        Direction::ToUpgradedClient => !text_eq(name, "transfer-encoding"),
    }
}

proof fn passed_extends(fields: Seq<(HeaderName, HeaderValue)>, direction: Direction)
    requires
        fields.len() > 0,
    ensures
        ({
            let before = passed(grouped(fields.drop_last()), direction);
            let (name, value) = (name_text(fields.last().0), value_bytes(fields.last().1));
            passed(grouped(fields), direction) == if passes(direction, name) {
                appended(before, name, value)
            } else {
                before
            }
        }),
{
    let before = passed(grouped(fields.drop_last()), direction);
    let (name, value) = (name_text(fields.last().0), value_bytes(fields.last().1));
    if passes(direction, name) {
        assert(passed(grouped(fields), direction) =~= appended(before, name, value));
    } else {
        assert(passed(grouped(fields), direction) =~= before);
    }
}

proof fn grouped_grows(fields: Seq<(HeaderName, HeaderValue)>, k: int)
    requires
        0 <= k <= fields.len(),
    ensures
        grouped(fields).dom().finite(),
        grouped(fields.take(k)).dom().subset_of(grouped(fields).dom()),
    decreases fields.len(),
{
    if fields.len() == 0 {
        assert(fields.take(k) =~= fields);
    } else {
        let shorter = fields.drop_last();
        if k < fields.len() {
            grouped_grows(shorter, k);
            assert(shorter.take(k) =~= fields.take(k));
        } else {
            grouped_grows(shorter, shorter.len() as int);
            assert(fields.take(k) =~= fields);
        }
    }
}

proof fn names_bound(fields: Seq<(HeaderName, HeaderValue)>, k: int, direction: Direction)
    requires
        0 <= k <= fields.len(),
    ensures
        passed(grouped(fields.take(k)), direction).dom().finite(),
        passed(grouped(fields.take(k)), direction).dom().len() <= grouped(fields).dom().len(),
{
    grouped_grows(fields, k);
    vstd::set_lib::lemma_len_subset(
        passed(grouped(fields.take(k)), direction).dom(),
        grouped(fields).dom(),
    );
}

/// The headers that are passed on. There is no result only if there are so many headers that a
/// header map may refuse them.
pub fn pass_headers(headers: &HeaderMap<HeaderValue>, direction: Direction) -> (kept: Option<
    HeaderMap<HeaderValue>,
>)
    ensures
        kept matches Some(map) ==> headers_of(map) == passed(headers_of(*headers), direction),
        kept matches Some(map) ==> headers_of(map).dom().finite() && headers_of(map).dom().len()
            <= headers_of(*headers).dom().len(),
        headers_of(*headers).dom().len() <= SAFE_NAMES ==> kept is Some,
{
    let fields = fields_of(headers);
    let ghost all = fields@;
    let mut kept = no_headers();
    proof {
        assert(all.take(0) =~= seq![]);
        assert(headers_of(kept) =~= passed(grouped(all.take(0)), direction));
    }
    for field in it: fields
        invariant
            it.seq() == all,
            grouped(all) == headers_of(*headers),
            headers_of(kept) == passed(grouped(all.take(it.index())), direction),
    {
        let ghost i = it.index();
        proof {
            assert(all.take(i + 1).drop_last() =~= all.take(i));
            passed_extends(all.take(i + 1), direction);
            names_bound(all, i, direction);
        }
        let (name, value) = field;
        if is_passed(direction, name_str(&name)) {
            if !try_append(&mut kept, name, value) {
                return None;
            }
        }
    }
    proof {
        assert(all.take(all.len() as int) =~= all);
        names_bound(all, all.len() as int, direction);
    }
    Some(kept)
}

/// The dev server on a given port of this machine, as a host.
pub open spec fn local_host(port: u16) -> Seq<char> {
    "localhost:"@ + decimal(port as nat)
}

/// The headers of a request as the dev server gets them. It is the host; and as some servers take
/// only requests whose origin is their own, an origin is replaced too.
pub open spec fn upstream(headers: Map<Seq<char>, Seq<Seq<u8>>>, port: u16) -> Map<
    Seq<char>,
    Seq<Seq<u8>>,
> {
    let hosted = passed(headers, Direction::ToServer).insert(
        "host"@,
        seq![encode_utf8(local_host(port))],
    );
    if hosted.contains_key("origin"@) {
        hosted.insert("origin"@, seq![encode_utf8("http://"@ + local_host(port))])
    } else {
        hosted
    }
}

proof fn local_text_is_admitted(prefix: Seq<char>, port: u16)
    requires
        forall|i: int| 0 <= i < prefix.len() ==> ' ' <= #[trigger] prefix[i] <= '~',
    ensures
        forall|i: int|
            0 <= i < encode_utf8(prefix + decimal(port as nat)).len()
                ==> admitted_byte(
                #[trigger] encode_utf8(prefix + decimal(port as nat))[i],
            ),
{
    let text = prefix + decimal(port as nat);
    decimal_reads_back(port as nat);
    assert forall|i: int| 0 <= i < text.len() implies ' ' <= #[trigger] text[i] <= '~' by {
        if i >= prefix.len() {
            assert(is_digit(decimal(port as nat)[i - prefix.len()]));
        }
    }
    assert(vstd::utf8::is_ascii_chars(text));
    vstd::utf8::is_ascii_chars_encode_utf8(text);
    assert forall|i: int| 0 <= i < encode_utf8(text).len() implies admitted_byte(
        #[trigger] encode_utf8(text)[i],
    ) by {
        assert(text[i] as u8 == encode_utf8(text)[i]);
    }
}

/// The headers of a request as the dev server on the given port gets them. There is no result only
/// if there are so many headers that a header map may refuse them.
pub fn upstream_headers(headers: &HeaderMap<HeaderValue>, port: u16) -> (rewritten: Option<
    HeaderMap<HeaderValue>,
>)
    ensures
        rewritten matches Some(map) ==> headers_of(map) == upstream(headers_of(*headers), port),
        headers_of(*headers).dom().len() < SAFE_NAMES ==> rewritten is Some,
{
    let mut map = match pass_headers(headers, Direction::ToServer) {
        Some(map) => map,
        None => {
            return None;
        },
    };
    proof {
        let kept = headers_of(map);
        assert(kept.insert("host"@, seq![encode_utf8(local_host(port))]).dom() =~= kept.dom().insert(
            "host"@,
        ));
    }
    let mut host = "localhost:".to_owned();
    host.append(decimal_of(port as u64).as_str());
    proof {
        reveal_strlit("localhost:");
        local_text_is_admitted("localhost:"@, port);
    }
    match header_value(host.as_str()) {
        Some(value) => {
            if !try_insert(&mut map, host_name(), value) {
                return None;
            }
        },
        None => {
            return None;
        },
    }
    let origin = origin_name();
    if has_header(&map, &origin) {
        let mut address = "http://".to_owned();
        address.append(host.as_str());
        proof {
            reveal_strlit("http://");
            local_text_is_admitted("http://"@ + "localhost:"@, port);
            assert(address@ =~= "http://"@ + "localhost:"@ + decimal(port as nat));
        }
        match header_value(address.as_str()) {
            Some(value) => {
                if !try_insert(&mut map, origin, value) {
                    return None;
                }
            },
            None => {
                return None;
            },
        }
    }
    Some(map)
}

/// An answer with this status changes the protocol.
pub const SWITCHING_PROTOCOLS: u16 = 101;

/// Where the headers of an answer with a given status go.
pub open spec fn answer_direction(status: u16) -> Direction {
    if status == SWITCHING_PROTOCOLS {
        Direction::ToUpgradedClient
    } else {
        Direction::ToClient
    }
}

/// The headers of an answer of the dev server as the client gets them. There is no result only if
/// there are so many headers that a header map may refuse them.
pub fn downstream_headers(headers: &HeaderMap<HeaderValue>, status: u16) -> (kept: Option<
    HeaderMap<HeaderValue>,
>)
    ensures
        kept matches Some(map) ==> headers_of(map) == passed(
            headers_of(*headers),
            answer_direction(status),
        ),
        headers_of(*headers).dom().len() <= SAFE_NAMES ==> kept is Some,
{
    if status == SWITCHING_PROTOCOLS {
        pass_headers(headers, Direction::ToUpgradedClient)
    } else {
        pass_headers(headers, Direction::ToClient)
    }
}

/// The target of a request as it is passed on: path and query as they came, or the root.
pub fn upstream_target(path_and_query: Option<&str>) -> (target: String)
    ensures
        target@ == match path_and_query {
            Some(p) => p@,
            None => "/"@,
        },
{
    match path_and_query {
        Some(p) => p.to_owned(),
        None => "/".to_owned(),
    }
}

/// The dev server gets every header of a request but those that are left out, with the values that
/// it came with; of the others it gets the host alone, and an origin only if there was one.
pub proof fn requests_keep_their_headers(
    headers: Map<Seq<char>, Seq<Seq<u8>>>,
    port: u16,
    name: Seq<char>,
)
    ensures
        !request_only(name) && name != "origin"@ ==> {
            &&& upstream(headers, port).contains_key(name) == headers.contains_key(name)
            &&& headers.contains_key(name) ==> upstream(headers, port)[name] == headers[name]
        },
        request_only(name) && name != "host"@ ==> !upstream(headers, port).contains_key(name),
        upstream(headers, port).contains_key("host"@),
        upstream(headers, port)["host"@] == seq![encode_utf8(local_host(port))],
        upstream(headers, port).contains_key("origin"@) == headers.contains_key("origin"@),
        headers.contains_key("origin"@) ==> upstream(headers, port)["origin"@] == seq![
            encode_utf8("http://"@ + local_host(port)),
        ],
{
    names_differ();
}

/// Passing the headers of a request on once more changes nothing more.
pub proof fn passing_on_is_idempotent(headers: Map<Seq<char>, Seq<Seq<u8>>>, port: u16)
    ensures
        upstream(upstream(headers, port), port) == upstream(headers, port),
{
    names_differ();
    assert(upstream(upstream(headers, port), port) =~= upstream(headers, port));
}

/// A change of protocol gets through: the headers that ask for it reach the dev server, and those
/// that grant it reach the client. With any other answer they do not.
pub proof fn protocol_changes_get_through(
    headers: Map<Seq<char>, Seq<Seq<u8>>>,
    port: u16,
    status: u16,
)
    ensures
        headers.contains_key("upgrade"@) ==> upstream(headers, port).contains_key("upgrade"@)
            && upstream(headers, port)["upgrade"@] == headers["upgrade"@],
        headers.contains_key("connection"@) ==> upstream(headers, port).contains_key(
            "connection"@,
        ) && upstream(headers, port)["connection"@] == headers["connection"@],
        passed(headers, answer_direction(status)).contains_key("upgrade"@) == (status
            == SWITCHING_PROTOCOLS && headers.contains_key("upgrade"@)),
        passed(headers, answer_direction(status)).contains_key("connection"@) == (status
            == SWITCHING_PROTOCOLS && headers.contains_key("connection"@)),
        !passed(headers, answer_direction(status)).contains_key("transfer-encoding"@),
{
    names_differ();
}

/// A request is passed on with all its headers but eight, which speak of the connection to the
/// client, and the origin. Each name of any other header gets through if and only if the request
/// has it, with the values that it came with.
pub proof fn dev_server_gets_all_other_headers(
    headers: Map<Seq<char>, Seq<Seq<u8>>>,
    port: u16,
    name: Seq<char>,
)
    requires
        name != "host"@,
        name != "transfer-encoding"@,
        name != "proxy-connection"@,
        name != "proxy-authorization"@,
        name != "proxy-authenticate"@,
        name != "te"@,
        name != "trailer"@,
        name != "keep-alive"@,
        name != "origin"@,
    ensures
        upstream(headers, port).contains_key(name) <==> headers.contains_key(name),
        headers.contains_key(name) ==> upstream(headers, port)[name] == headers[name],
{
    names_differ();
}

/// What a session lives by reaches the dev server: cookies, authorization and the type and length
/// of the body, with the values that they came with.
pub proof fn sessions_get_through(headers: Map<Seq<char>, Seq<Seq<u8>>>, port: u16)
    ensures
        headers.contains_key("cookie"@) ==> {
            &&& upstream(headers, port).contains_key("cookie"@)
            &&& upstream(headers, port)["cookie"@] == headers["cookie"@]
        },
        headers.contains_key("content-type"@) ==> {
            &&& upstream(headers, port).contains_key("content-type"@)
            &&& upstream(headers, port)["content-type"@] == headers["content-type"@]
        },
        headers.contains_key("content-length"@) ==> {
            &&& upstream(headers, port).contains_key("content-length"@)
            &&& upstream(headers, port)["content-length"@] == headers["content-length"@]
        },
        headers.contains_key("authorization"@) ==> {
            &&& upstream(headers, port).contains_key("authorization"@)
            &&& upstream(headers, port)["authorization"@] == headers["authorization"@]
        },
{
    names_differ();
    reveal_strlit("cookie");
    reveal_strlit("content-type");
    reveal_strlit("content-length");
    reveal_strlit("authorization");
    reveal_strlit("host");
    reveal_strlit("origin");
    reveal_strlit("te");
    reveal_strlit("trailer");
    reveal_strlit("keep-alive");
    reveal_strlit("transfer-encoding");
    reveal_strlit("proxy-connection");
    reveal_strlit("proxy-authorization");
    reveal_strlit("proxy-authenticate");
    assert("cookie"@.len() == 6 && "cookie"@[0] == 'c' && "origin"@[0] == 'o');
    assert("content-type"@.len() == 12 && "content-length"@.len() == 14);
    assert("authorization"@.len() == 13);
    dev_server_gets_all_other_headers(headers, port, "cookie"@);
    dev_server_gets_all_other_headers(headers, port, "content-type"@);
    dev_server_gets_all_other_headers(headers, port, "content-length"@);
    dev_server_gets_all_other_headers(headers, port, "authorization"@);
}

/// The dev server sees itself as the host and, where the request has an origin, as the origin: each
/// has one value. Of the headers that speak of the connection to the client it gets none.
pub proof fn dev_server_is_its_own_host(headers: Map<Seq<char>, Seq<Seq<u8>>>, port: u16)
    ensures
        upstream(headers, port).contains_key("host"@),
        upstream(headers, port)["host"@] == seq![
            encode_utf8("localhost:"@ + decimal(port as nat)),
        ],
        upstream(headers, port).contains_key("origin"@) <==> headers.contains_key("origin"@),
        headers.contains_key("origin"@) ==> upstream(headers, port)["origin"@] == seq![
            encode_utf8("http://localhost:"@ + decimal(port as nat)),
        ],
        !upstream(headers, port).contains_key("transfer-encoding"@),
        !upstream(headers, port).contains_key("proxy-connection"@),
        !upstream(headers, port).contains_key("proxy-authorization"@),
        !upstream(headers, port).contains_key("proxy-authenticate"@),
        !upstream(headers, port).contains_key("te"@),
        !upstream(headers, port).contains_key("trailer"@),
        !upstream(headers, port).contains_key("keep-alive"@),
{
    names_differ();
    reveal_strlit("http://localhost:");
    reveal_strlit("http://");
    reveal_strlit("localhost:");
    reveal_strlit("host");
    reveal_strlit("origin");
    reveal_strlit("te");
    reveal_strlit("trailer");
    reveal_strlit("keep-alive");
    reveal_strlit("transfer-encoding");
    reveal_strlit("proxy-connection");
    reveal_strlit("proxy-authorization");
    reveal_strlit("proxy-authenticate");
    assert("http://localhost:"@ =~= "http://"@ + "localhost:"@);
    assert("http://"@ + local_host(port) =~= "http://localhost:"@ + decimal(port as nat));
    assert("keep-alive"@.len() == 10 && "te"@.len() == 2 && "trailer"@.len() == 7);
    assert("transfer-encoding"@.len() == 17 && "proxy-connection"@.len() == 16);
    assert("proxy-authorization"@.len() == 19 && "proxy-authenticate"@.len() == 18);
}

/// An answer that does not change the protocol reaches the client with all its headers but eight,
/// each with its values, and without those eight.
pub proof fn client_gets_all_other_headers(
    headers: Map<Seq<char>, Seq<Seq<u8>>>,
    status: u16,
    name: Seq<char>,
)
    requires
        status != 101,
    ensures
        passed(headers, answer_direction(status)).contains_key(name) <==> {
            &&& headers.contains_key(name)
            &&& name != "connection"@
            &&& name != "keep-alive"@
            &&& name != "proxy-authenticate"@
            &&& name != "proxy-authorization"@
            &&& name != "te"@
            &&& name != "trailer"@
            &&& name != "transfer-encoding"@
            &&& name != "upgrade"@
        },
        passed(headers, answer_direction(status)).contains_key(name) ==> passed(
            headers,
            answer_direction(status),
        )[name] == headers[name],
{
}

/// An answer that changes the protocol reaches the client with all its headers but one, each with
/// its values.
pub proof fn upgraded_client_gets_all_headers_but_one(
    headers: Map<Seq<char>, Seq<Seq<u8>>>,
    name: Seq<char>,
)
    ensures
        passed(headers, answer_direction(101)).contains_key(name) <==> headers.contains_key(name)
            && name != "transfer-encoding"@,
        passed(headers, answer_direction(101)).contains_key(name) ==> passed(
            headers,
            answer_direction(101),
        )[name] == headers[name],
{
}

/// Exactly eight names of headers are kept from the dev server.
pub proof fn eight_request_headers_are_skipped(name: &str, skipped: bool)
    requires
        call_ensures(skip_request_header, (name,), skipped),
    ensures
        skipped <==> {
            ||| name@ == "host"@
            ||| name@ == "transfer-encoding"@
            ||| name@ == "proxy-connection"@
            ||| name@ == "proxy-authorization"@
            ||| name@ == "proxy-authenticate"@
            ||| name@ == "te"@
            ||| name@ == "trailer"@
            ||| name@ == "keep-alive"@
        },
{
}

/// Exactly eight names of headers speak of one connection only.
pub proof fn eight_headers_are_hop_by_hop(name: &str, hop: bool)
    requires
        call_ensures(is_hop_by_hop, (name,), hop),
    ensures
        hop <==> {
            ||| name@ == "connection"@
            ||| name@ == "keep-alive"@
            ||| name@ == "proxy-authenticate"@
            ||| name@ == "proxy-authorization"@
            ||| name@ == "te"@
            ||| name@ == "trailer"@
            ||| name@ == "transfer-encoding"@
            ||| name@ == "upgrade"@
        },
{
}

/// Path and query of a request reach the dev server as they came; a request without either asks for
/// the root.
pub proof fn targets_reach_the_dev_server(path_and_query: &str, target: String, root: String)
    requires
        call_ensures(upstream_target, (Some(path_and_query),), target),
        call_ensures(upstream_target, (None,), root),
    ensures
        target@ == path_and_query@,
        root@ == "/"@,
{
}

/// What the dev server is sent of a request's headers: what holds of the rewritten map itself.
pub proof fn rewritten_headers_are_the_requests(
    headers: &HeaderMap<HeaderValue>,
    port: u16,
    rewritten: Option<HeaderMap<HeaderValue>>,
    name: Seq<char>,
)
    requires
        call_ensures(upstream_headers, (headers, port), rewritten),
        name != "host"@,
        name != "transfer-encoding"@,
        name != "proxy-connection"@,
        name != "proxy-authorization"@,
        name != "proxy-authenticate"@,
        name != "te"@,
        name != "trailer"@,
        name != "keep-alive"@,
        name != "origin"@,
    ensures
        headers_of(*headers).dom().len() < 6553 ==> rewritten is Some,
        rewritten matches Some(map) ==> {
            &&& headers_of(map).contains_key(name) <==> headers_of(*headers).contains_key(name)
            &&& headers_of(*headers).contains_key(name) ==> headers_of(map)[name] == headers_of(
                *headers,
            )[name]
            &&& headers_of(map).contains_key("host"@)
            &&& headers_of(map)["host"@] == seq![
                encode_utf8("localhost:"@ + decimal(port as nat)),
            ]
        },
{
    dev_server_gets_all_other_headers(headers_of(*headers), port, name);
    dev_server_is_its_own_host(headers_of(*headers), port);
}

/// What the client is sent of an answer's headers: what holds of the map itself.
pub proof fn returned_headers_are_the_answers(
    headers: &HeaderMap<HeaderValue>,
    status: u16,
    kept: Option<HeaderMap<HeaderValue>>,
    name: Seq<char>,
)
    requires
        call_ensures(downstream_headers, (headers, status), kept),
    ensures
        headers_of(*headers).dom().len() <= 6553 ==> kept is Some,
        kept matches Some(map) ==> {
            &&& headers_of(map).contains_key(name) <==> headers_of(*headers).contains_key(name)
                && name != "transfer-encoding"@ && (status == 101 || (name != "connection"@ && name
                != "keep-alive"@ && name != "proxy-authenticate"@ && name
                != "proxy-authorization"@ && name != "te"@ && name != "trailer"@ && name
                != "upgrade"@))
            &&& headers_of(map).contains_key(name) ==> headers_of(map)[name] == headers_of(
                *headers,
            )[name]
        },
{
}

proof fn names_differ()
    ensures
        "origin"@ != "host"@,
        !request_only("origin"@),
        !request_only("upgrade"@),
        !request_only("connection"@),
        "upgrade"@ != "origin"@,
        "connection"@ != "origin"@,
        "upgrade"@ != "transfer-encoding"@,
        "connection"@ != "transfer-encoding"@,
{
    reveal_strlit("origin");
    reveal_strlit("host");
    reveal_strlit("upgrade");
    reveal_strlit("connection");
    reveal_strlit("transfer-encoding");
    reveal_strlit("proxy-connection");
    reveal_strlit("proxy-authorization");
    reveal_strlit("proxy-authenticate");
    reveal_strlit("te");
    reveal_strlit("trailer");
    reveal_strlit("keep-alive");
    assert("origin"@.len() == 6 && "host"@.len() == 4 && "upgrade"@.len() == 7);
    assert("connection"@.len() == 10 && "keep-alive"@.len() == 10 && "te"@.len() == 2);
    assert("transfer-encoding"@.len() == 17 && "proxy-connection"@.len() == 16);
    assert("proxy-authorization"@.len() == 19 && "proxy-authenticate"@.len() == 18);
    assert("trailer"@.len() == 7 && "trailer"@[0] == 't' && "upgrade"@[0] == 'u');
    assert("connection"@[0] == 'c' && "keep-alive"@[0] == 'k');
}

} // verus!
