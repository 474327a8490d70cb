//! Pages: the script that is added to the pages of a theme.
use vstd::prelude::*;
#[allow(unused_imports)]
use vstd::utf8::{encode_utf8, is_ascii_chars, is_char_boundary, valid_utf8};
#[allow(unused_imports)]
use crate::text::{ascii_lowercase, last_at, lowercase, occurs, occurs_at};

verus! {

/// The script that is added to a page. It opens a stream of events, and reloads the page at an
/// event named `reload`.
pub const SSE_RELOAD_SCRIPT: &'static str = "<script>\n(function(){var e=new EventSource('/__dev_reload');e.addEventListener('reload',function(){e.close();location.reload()});e.onerror=function(){e.close()}})();\n</script>";

/// The tag that ends the body of a page.
pub const BODY_CLOSE_TAG: &'static str = "</body>";

/// The rightmost position at which `needle` stands in `hay`.
pub open spec fn last_index<T>(hay: Seq<T>, needle: Seq<T>) -> Option<int> {
    if occurs(hay, needle) {
        Some(choose|i: int| last_at(hay, needle, i))
    } else {
        None
    }
}

/// Where the script goes: the byte at which the last closing tag of the body begins in the
/// lowercase form of the page.
pub open spec fn script_position(html: Seq<char>) -> Option<int> {
    last_index(encode_utf8(lowercase(html)), encode_utf8(BODY_CLOSE_TAG@))
}

/// A page that takes the script: if it has a position for it, a character of the page begins or
/// the page ends there. Only a page whose characters change their length in lowercase may fail.
pub open spec fn takes_script(html: Seq<char>) -> bool {
    match script_position(html) {
        Some(pos) => is_char_boundary(encode_utf8(html), pos),
        None => true,
    }
}

/// The bytes of a page with the script: before the end of the body, or else at the end.
pub open spec fn with_script(html: Seq<char>) -> Seq<u8> {
    let bytes = encode_utf8(html);
    let script = encode_utf8(SSE_RELOAD_SCRIPT@);
    match script_position(html) {
        Some(pos) => bytes.take(pos) + script + bytes.skip(pos),
        None => bytes + script,
    }
}

/// A page in ASCII with the script: before the last closing tag of the body, in small or capital
/// letters, or else at the end.
pub open spec fn ascii_with_script(html: Seq<char>) -> Seq<char> {
    match last_index(ascii_lowercase(html), BODY_CLOSE_TAG@) {
        Some(pos) => html.take(pos) + SSE_RELOAD_SCRIPT@ + html.skip(pos),
        None => html + SSE_RELOAD_SCRIPT@,
    }
}

fn bytes_stand_at(hay: &[u8], needle: &[u8], i: usize) -> (found: bool)
    ensures
        found == occurs_at(hay@, needle@, i as int),
{
    if needle.len() > hay.len() || i > hay.len() - needle.len() {
        return false;
    }
    let mut k: usize = 0;
    while k < needle.len()
        invariant
            k <= needle.len(),
            i + needle.len() <= hay.len(),
            forall|m: int| 0 <= m < k ==> hay@[i + m] == needle@[m],
        decreases needle.len() - k,
    {
        if hay[i + k] != needle[k] {
            assert(hay@.subrange(i as int, i + needle.len())[k as int] != needle@[k as int]);
            return false;
        }
        k += 1;
    }
    assert(hay@.subrange(i as int, i + needle.len()) =~= needle@);
    true
}

/// The rightmost position at which `needle` stands in `hay`.
fn find_last(hay: &[u8], needle: &[u8]) -> (position: Option<usize>)
    ensures
        position is Some <==> last_index(hay@, needle@) is Some,
        position matches Some(i) ==> last_index(hay@, needle@) == Some(i as int),
{
    let mut i: usize = hay.len();
    loop
        invariant
            i <= hay.len(),
            forall|j: int| i < j ==> !occurs_at(hay@, needle@, j),
        decreases i,
    {
        if bytes_stand_at(hay, needle, i) {
            proof {
                assert(last_at(hay@, needle@, i as int));
                let k = choose|k: int| last_at(hay@, needle@, k);
                assert(last_at(hay@, needle@, k));
                assert(k == i);
            }
            return Some(i);
        }
        if i == 0 {
            return None;
        }
        i -= 1;
    }
}

/// The bytes of two texts, one after the other, are the bytes of the two.
proof fn encode_concat(a: Seq<char>, b: Seq<char>)
    ensures
        encode_utf8(a + b) == encode_utf8(a) + encode_utf8(b),
    decreases a.len(),
{
    if a.len() == 0 {
        assert(a + b =~= b);
        assert(encode_utf8(a) =~= Seq::<u8>::empty());
        assert(encode_utf8(a) + encode_utf8(b) =~= encode_utf8(b));
    } else {
        encode_concat(a.drop_first(), b);
        assert((a + b).drop_first() =~= a.drop_first() + b);
        assert(encode_utf8(a + b) =~= encode_utf8(a) + encode_utf8(b));
    }
}

/// A page with the script.
pub fn inject_sse(html: &str) -> (page: String)
    requires
        takes_script(html@),
    ensures
        encode_utf8(page@) == with_script(html@),
{
    let lower = html.to_lowercase();
    match find_last(lower.as_str().as_bytes(), BODY_CLOSE_TAG.as_bytes()) {
        Some(pos) => {
            let (before, after) = html.split_at(pos);
            let mut page = before.to_owned();
            page.append(SSE_RELOAD_SCRIPT);
            page.append(after);
            proof {
                encode_concat(before@ + SSE_RELOAD_SCRIPT@, after@);
                encode_concat(before@, SSE_RELOAD_SCRIPT@);
                let bytes = encode_utf8(html@);
                assert(bytes.take(pos as int) =~= bytes.subrange(0, pos as int));
                assert(bytes.skip(pos as int) =~= bytes.subrange(pos as int, bytes.len() as int));
            }
            page
        },
        None => {
            let mut page = html.to_owned();
            page.append(SSE_RELOAD_SCRIPT);
            proof {
                encode_concat(html@, SSE_RELOAD_SCRIPT@);
            }
            page
        },
    }
}

/// A page with the script, unless the page does not take it. A page in ASCII does.
pub fn try_inject_sse(html: &str) -> (page: Option<String>)
    ensures
        page is Some <==> takes_script(html@),
        page matches Some(p) ==> encode_utf8(p@) == with_script(html@),
        is_ascii_chars(html@) ==> (page matches Some(p) && p@ == ascii_with_script(html@)),
{
    let lower = html.to_lowercase();
    let found = find_last(lower.as_str().as_bytes(), BODY_CLOSE_TAG.as_bytes());
    proof {
        if is_ascii_chars(html@) {
            ascii_position(html@);
        }
    }
    match found {
        Some(pos) => if html.is_char_boundary(pos) {
            Some(inject_sse(html))
        } else {
            None
        },
        None => Some(inject_sse(html)),
    }
}

/// In ASCII a text stands where its bytes stand.
proof fn ascii_occurs(hay: Seq<char>, needle: Seq<char>, i: int)
    requires
        is_ascii_chars(hay),
        is_ascii_chars(needle),
    ensures
        occurs_at(encode_utf8(hay), encode_utf8(needle), i) == occurs_at(hay, needle, i),
{
    vstd::utf8::is_ascii_chars_encode_utf8(hay);
    vstd::utf8::is_ascii_chars_encode_utf8(needle);
    let bytes = encode_utf8(hay);
    let pattern = encode_utf8(needle);
    if occurs_at(hay, needle, i) {
        assert forall|k: int| 0 <= k < pattern.len() implies #[trigger] bytes[i + k] == pattern[k] by {
            assert(hay.subrange(i, i + needle.len())[k] == needle[k]);
            assert(hay[i + k] as u8 == bytes[i + k]);
        }
        assert(bytes.subrange(i, i + pattern.len()) =~= pattern);
    }
    if occurs_at(bytes, pattern, i) {
        assert forall|k: int| 0 <= k < needle.len() implies #[trigger] hay[i + k] == needle[k] by {
            assert(bytes.subrange(i, i + pattern.len())[k] == pattern[k]);
            assert(hay[i + k] as u8 == bytes[i + k]);
            assert(needle[k] as u8 == pattern[k]);
        }
        assert(hay.subrange(i, i + needle.len()) =~= needle);
    }
}

/// In ASCII the script goes to the same place, counted in characters or in bytes.
proof fn ascii_position(html: Seq<char>)
    requires
        is_ascii_chars(html),
        lowercase(html) == ascii_lowercase(html),
    ensures
        takes_script(html),
        forall|p: Seq<char>| #[trigger]
            encode_utf8(p) == with_script(html) ==> p == ascii_with_script(html),
{
    let lower = ascii_lowercase(html);
    let bytes = encode_utf8(html);
    reveal_strlit("</body>");
    assert(is_ascii_chars(BODY_CLOSE_TAG@));
    assert(is_ascii_chars(lower));
    vstd::utf8::encode_utf8_valid_utf8(html);
    vstd::utf8::is_ascii_chars_encode_utf8(html);
    vstd::utf8::is_ascii_chars_encode_utf8(lower);
    let hay = encode_utf8(lower);
    let tag = encode_utf8(BODY_CLOSE_TAG@);
    assert forall|i: int|
        #![trigger occurs_at(hay, tag, i)]
        #![trigger occurs_at(lower, BODY_CLOSE_TAG@, i)]
        occurs_at(hay, tag, i) == occurs_at(lower, BODY_CLOSE_TAG@, i) by {
        ascii_occurs(lower, BODY_CLOSE_TAG@, i);
    }
    if occurs(lower, BODY_CLOSE_TAG@) {
        let at = choose|i: int| occurs_at(lower, BODY_CLOSE_TAG@, i);
        assert(occurs_at(hay, tag, at));
        rightmost_exists(hay, tag, at);
        let pos = choose|i: int| last_at(hay, tag, i);
        assert(last_at(lower, BODY_CLOSE_TAG@, pos));
        let other = choose|i: int| last_at(lower, BODY_CLOSE_TAG@, i);
        assert(last_at(lower, BODY_CLOSE_TAG@, other));
        assert(other == pos);
        vstd::utf8::is_ascii_chars_encode_utf8(BODY_CLOSE_TAG@);
        assert(0 <= pos < html.len());
        assert(bytes[pos] == html[pos] as u8);
        vstd::utf8::is_char_boundary_iff_not_is_continuation_byte(bytes, pos);
        let page = html.take(pos) + SSE_RELOAD_SCRIPT@ + html.skip(pos);
        encode_concat(html.take(pos) + SSE_RELOAD_SCRIPT@, html.skip(pos));
        encode_concat(html.take(pos), SSE_RELOAD_SCRIPT@);
        ascii_cut(html, pos);
        assert(encode_utf8(page) == with_script(html));
        encoding_is_injective(page);
    } else {
        assert(!occurs(hay, tag)) by {
            if occurs(hay, tag) {
                let i = choose|i: int| occurs_at(hay, tag, i);
                assert(occurs_at(lower, BODY_CLOSE_TAG@, i));
            }
        }
        encode_concat(html, SSE_RELOAD_SCRIPT@);
        encoding_is_injective(html + SSE_RELOAD_SCRIPT@);
    }
}

/// Texts with the same bytes are the same.
proof fn encoding_is_injective(text: Seq<char>)
    ensures
        forall|p: Seq<char>| #[trigger] encode_utf8(p) == encode_utf8(text) ==> p == text,
{
    assert forall|p: Seq<char>| #[trigger] encode_utf8(p) == encode_utf8(text) implies p == text by {
        vstd::utf8::encode_utf8_decode_utf8(p);
        vstd::utf8::encode_utf8_decode_utf8(text);
    }
}

/// A cut between two characters of a text in ASCII is a cut at the same place in its bytes.
proof fn ascii_cut(text: Seq<char>, pos: int)
    requires
        is_ascii_chars(text),
        0 <= pos <= text.len(),
    ensures
        encode_utf8(text.take(pos)) == encode_utf8(text).take(pos),
        encode_utf8(text.skip(pos)) == encode_utf8(text).skip(pos),
{
    vstd::utf8::is_ascii_chars_encode_utf8(text);
    assert(is_ascii_chars(text.take(pos)));
    assert(is_ascii_chars(text.skip(pos)));
    vstd::utf8::is_ascii_chars_encode_utf8(text.take(pos));
    vstd::utf8::is_ascii_chars_encode_utf8(text.skip(pos));
    assert forall|i: int| 0 <= i < pos implies #[trigger] encode_utf8(text.take(pos))[i]
        == encode_utf8(text)[i] by {
        assert(text.take(pos)[i] == text[i]);
    }
    assert forall|i: int| 0 <= i < text.len() - pos implies #[trigger] encode_utf8(
        text.skip(pos),
    )[i] == encode_utf8(text)[pos + i] by {
        assert(text.skip(pos)[i] == text[pos + i]);
    }
    assert(encode_utf8(text.take(pos)) =~= encode_utf8(text).take(pos));
    assert(encode_utf8(text.skip(pos)) =~= encode_utf8(text).skip(pos));
}

/// The script is all that is added to a page, and it is added in one piece.
pub proof fn script_is_all_that_is_added(html: Seq<char>)
    requires
        takes_script(html),
    ensures
        exists|before: Seq<u8>, after: Seq<u8>|
            before + after == encode_utf8(html) && #[trigger] (before + encode_utf8(
                SSE_RELOAD_SCRIPT@,
            ) + after) == with_script(html),
{
    let bytes = encode_utf8(html);
    let script = encode_utf8(SSE_RELOAD_SCRIPT@);
    match script_position(html) {
        Some(pos) => {
            vstd::utf8::encode_utf8_valid_utf8(html);
            assert(0 <= pos <= bytes.len());
            assert(bytes.take(pos) + bytes.skip(pos) =~= bytes);
            assert(bytes.take(pos) + script + bytes.skip(pos) == with_script(html));
        },
        None => {
            let empty = Seq::<u8>::empty();
            assert(bytes + empty =~= bytes);
            assert(bytes + script + empty =~= with_script(html));
        },
    }
}

/// A page that is its own lowercase form takes the script. If it has a closing tag of the body,
/// the script stands right before the last one.
pub proof fn script_stands_before_the_end_of_the_body(html: Seq<char>)
    requires
        lowercase(html) == html,
    ensures
        takes_script(html),
        occurs(encode_utf8(html), encode_utf8(BODY_CLOSE_TAG@)) ==> exists|
            before: Seq<u8>,
            after: Seq<u8>,
        |
            {
                &&& #[trigger] (before + encode_utf8(SSE_RELOAD_SCRIPT@) + after) == with_script(
                    html,
                )
                &&& last_at(encode_utf8(html), encode_utf8(BODY_CLOSE_TAG@), before.len() as int)
                &&& before + after == encode_utf8(html)
            },
        !occurs(encode_utf8(html), encode_utf8(BODY_CLOSE_TAG@)) ==> with_script(html)
            == encode_utf8(html) + encode_utf8(SSE_RELOAD_SCRIPT@),
{
    let bytes = encode_utf8(html);
    let tag = encode_utf8(BODY_CLOSE_TAG@);
    reveal_strlit("</body>");
    assert(vstd::utf8::is_ascii_chars(BODY_CLOSE_TAG@));
    vstd::utf8::is_ascii_chars_encode_utf8(BODY_CLOSE_TAG@);
    vstd::utf8::encode_utf8_valid_utf8(html);
    if occurs(bytes, tag) {
        let at = choose|i: int| occurs_at(bytes, tag, i);
        rightmost_exists(bytes, tag, at);
        let pos = choose|i: int| last_at(bytes, tag, i);
        assert(last_at(bytes, tag, pos));
        assert(bytes[pos] == bytes.subrange(pos, pos + tag.len())[0]);
        assert(BODY_CLOSE_TAG@[0] as u8 == tag[0]);
        vstd::utf8::is_char_boundary_iff_not_is_continuation_byte(bytes, pos);
        assert(bytes.take(pos) + bytes.skip(pos) =~= bytes);
        assert(bytes.take(pos) + encode_utf8(SSE_RELOAD_SCRIPT@) + bytes.skip(pos) == with_script(
            html,
        ));
    }
}

proof fn rightmost_exists(hay: Seq<u8>, needle: Seq<u8>, at: int)
    requires
        occurs_at(hay, needle, at),
    ensures
        exists|i: int| last_at(hay, needle, i),
    decreases hay.len() - at,
{
    if exists|j: int| at < j && occurs_at(hay, needle, j) {
        let j = choose|j: int| at < j && occurs_at(hay, needle, j);
        rightmost_exists(hay, needle, j);
    } else {
        assert(last_at(hay, needle, at));
    }
}

/// The script opens the stream of events, reloads the page at an event named `reload`, and closes
/// the stream then and at an error.
pub proof fn script_reloads_at_the_event()
    ensures
        SSE_RELOAD_SCRIPT@
            == "<script>\n(function(){var e=new EventSource('/__dev_reload');e.addEventListener('reload',function(){e.close();location.reload()});e.onerror=function(){e.close()}})();\n</script>"@,
        BODY_CLOSE_TAG@ == "</body>"@,
{
}

/// The script goes where the last closing tag of the body begins in the lowercase form of the page,
/// counted in bytes, and the bytes before and behind that place stay in order. A page without such a
/// tag ends with the script.
pub proof fn script_goes_to_the_last_closing_tag(html: &str, page: Option<String>, p: int)
    requires
        call_ensures(try_inject_sse, (html,), page),
        last_at(encode_utf8(lowercase(html@)), encode_utf8("</body>"@), p),
        is_char_boundary(encode_utf8(html@), p),
    ensures
        page is Some,
        encode_utf8(page->0@) == encode_utf8(html@).take(p) + encode_utf8(SSE_RELOAD_SCRIPT@)
            + encode_utf8(html@).skip(p),
{
    let hay = encode_utf8(lowercase(html@));
    let tag = encode_utf8(BODY_CLOSE_TAG@);
    assert(occurs_at(hay, tag, p));
    let k = choose|i: int| last_at(hay, tag, i);
    assert(last_at(hay, tag, k));
    assert(k == p);
}

/// A page without a closing tag of the body ends with the script.
pub proof fn script_ends_pages_without_a_closing_tag(html: &str, page: Option<String>)
    requires
        call_ensures(try_inject_sse, (html,), page),
        forall|i: int|
            !#[trigger] occurs_at(
                encode_utf8(lowercase(html@)),
                encode_utf8("</body>"@),
                i,
            ),
    ensures
        page is Some,
        page->0@ == html@ + SSE_RELOAD_SCRIPT@,
{
    encode_concat(html@, SSE_RELOAD_SCRIPT@);
    encoding_is_injective(html@ + SSE_RELOAD_SCRIPT@);
}

/// The closing tag of the body stands in a text from a place on, in small or capital letters.
pub open spec fn closes_body(html: Seq<char>, at: int) -> bool {
    &&& 0 <= at
    &&& at + 7 <= html.len()
    &&& html[at] == '<'
    &&& html[at + 1] == '/'
    &&& html[at + 2] == 'b' || html[at + 2] == 'B'
    &&& html[at + 3] == 'o' || html[at + 3] == 'O'
    &&& html[at + 4] == 'd' || html[at + 4] == 'D'
    &&& html[at + 5] == 'y' || html[at + 5] == 'Y'
    &&& html[at + 6] == '>'
}

/// In a page of ASCII characters the script stands right before the last closing tag of the body,
/// in whatever letters the tag is written, and nothing else changes. Without a closing tag it stands
/// at the end.
pub proof fn script_stands_before_the_tag_in_ascii(html: &str, page: Option<String>, at: int)
    requires
        call_ensures(try_inject_sse, (html,), page),
        is_ascii_chars(html@),
    ensures
        page is Some,
        closes_body(html@, at) && (forall|j: int| at < j ==> !#[trigger] closes_body(html@, j))
            ==> page->0@ == html@.take(at) + SSE_RELOAD_SCRIPT@ + html@.skip(at),
        (forall|j: int| !#[trigger] closes_body(html@, j)) ==> page->0@ == html@
            + SSE_RELOAD_SCRIPT@,
{
    let lower = ascii_lowercase(html@);
    let tag = BODY_CLOSE_TAG@;
    assert forall|j: int| #[trigger] occurs_at(lower, tag, j) == closes_body(html@, j) by {
        tag_in_ascii(html@, j);
    }
    if closes_body(html@, at) && (forall|j: int| at < j ==> !#[trigger] closes_body(html@, j)) {
        assert(occurs_at(lower, tag, at));
        assert(last_at(lower, tag, at));
        let k = choose|i: int| last_at(lower, tag, i);
        assert(last_at(lower, tag, k));
        assert(k == at);
    }
}

proof fn tag_in_ascii(html: Seq<char>, at: int)
    ensures
        occurs_at(ascii_lowercase(html), BODY_CLOSE_TAG@, at) == closes_body(html, at),
{
    let lower = ascii_lowercase(html);
    reveal_strlit("</body>");
    let tag = BODY_CLOSE_TAG@;
    assert(tag.len() == 7);
    if 0 <= at && at + 7 <= html.len() {
        let piece = lower.subrange(at, at + 7);
        assert forall|k: int| 0 <= k < 7 implies #[trigger] piece[k] == crate::text::ascii_lower(
            html[at + k],
        ) by {}
        assert(piece[0] == crate::text::ascii_lower(html[at]));
        assert(piece[1] == crate::text::ascii_lower(html[at + 1]));
        assert(piece[2] == crate::text::ascii_lower(html[at + 2]));
        assert(piece[3] == crate::text::ascii_lower(html[at + 3]));
        assert(piece[4] == crate::text::ascii_lower(html[at + 4]));
        assert(piece[5] == crate::text::ascii_lower(html[at + 5]));
        assert(piece[6] == crate::text::ascii_lower(html[at + 6]));
        if closes_body(html, at) {
            assert(piece =~= tag);
        }
        if piece == tag {
            assert(tag[0] == '<' && tag[1] == '/' && tag[2] == 'b' && tag[3] == 'o');
            assert(tag[4] == 'd' && tag[5] == 'y' && tag[6] == '>');
        }
    }
}

} // verus!
