//! The port of a dev server, as far as its output tells it.
use vstd::prelude::*;
use crate::text::{chars_of, find};
#[allow(unused_imports)]
use crate::text::{
    decimal, decimal_reads_back, digits_value, first_at, is_digit, occurs, occurs_at,
};

verus! {

/// The leftmost position at which `needle` stands in `hay`.
pub open spec fn first_index(hay: Seq<char>, needle: Seq<char>) -> Option<int> {
    if occurs(hay, needle) {
        Some(choose|i: int| first_at(hay, needle, i))
    } else {
        None
    }
}

/// The position behind the scheme of the first web address in a line.
pub open spec fn authority_start(line: Seq<char>) -> Option<int> {
    match (first_index(line, "http://"@), first_index(line, "https://"@)) {
        (Some(i), Some(j)) => Some(
            if i < j {
                i + 7
            } else {
                j + 8
            },
        ),
        (Some(i), None) => Some(i + 7),
        (None, Some(j)) => Some(j + 8),
        (None, None) => None,
    }
}

/// A character at which the host and port of an address end.
pub open spec fn ends_authority(c: char) -> bool {
    c == '/' || c == ' ' || c == '\r' || c == '\n'
}

/// The beginning of a text, up to the first character that ends a host and port.
pub open spec fn authority(s: Seq<char>) -> Seq<char>
    decreases s.len(),
{
    if s.len() == 0 || ends_authority(s[0]) {
        seq![]
    } else {
        seq![s[0]] + authority(s.drop_first())
    }
}

/// What stands behind the last colon of a text.
pub open spec fn after_colon(s: Seq<char>) -> Option<Seq<char>>
    decreases s.len(),
{
    if s.len() == 0 {
        None
    } else if s.last() == ':' {
        Some(seq![])
    } else {
        match after_colon(s.drop_last()) {
            Some(t) => Some(t.push(s.last())),
            None => None,
        }
    }
}

/// The port that some digits stand for, if there are any and their number is small enough.
pub open spec fn digits_port(digits: Seq<char>) -> Option<u16> {
    let all_digits = forall|i: int|
        0 <= i < digits.len() ==> is_digit(#[trigger] digits[i]);
    if digits.len() > 0 && all_digits && digits_value(digits) <= u16::MAX {
        Some(digits_value(digits) as u16)
    } else {
        None
    }
}

/// The port that a text is the decimal form of. A plus sign may stand before the digits.
pub open spec fn port_number(s: Seq<char>) -> Option<u16> {
    if s.len() > 0 && s[0] == '+' {
        digits_port(s.drop_first())
    } else {
        digits_port(s)
    }
}

/// The port of the first web address in a line, if the line has an address and the address a port.
pub open spec fn advertised_port(line: Seq<char>) -> Option<u16> {
    match authority_start(line) {
        Some(start) => match after_colon(authority(line.skip(start))) {
            Some(port) => port_number(port),
            None => None,
        },
        None => None,
    }
}

/// The port after the lines of some output, in turn: the one that was advertised last, or else the
/// one that was assumed.
pub open spec fn port_after(assumed: u16, lines: Seq<Seq<char>>) -> u16
    decreases lines.len(),
{
    if lines.len() == 0 {
        assumed
    } else {
        match advertised_port(lines.last()) {
            Some(port) => port,
            None => port_after(assumed, lines.drop_last()),
        }
    }
}

fn is_ending(c: char) -> (ends: bool)
    ensures
        ends == ends_authority(c),
{
    c == '/' || c == ' ' || c == '\r' || c == '\n'
}

fn index_of(hay: &Vec<char>, needle: &Vec<char>) -> (position: Option<usize>)
    ensures
        position is Some <==> first_index(hay@, needle@) is Some,
        position matches Some(i) ==> first_index(hay@, needle@) == Some(i as int) && i
            + needle.len() <= hay.len(),
{
    let position = find(hay, needle);
    if let Some(i) = position {
        proof {
            let k = choose|k: int| first_at(hay@, needle@, k);
            assert(first_at(hay@, needle@, i as int));
            assert(first_at(hay@, needle@, k));
            assert(k == i);
        }
    }
    position
}

proof fn more_digits_more_value(s: Seq<char>, k: int)
    requires
        0 <= k <= s.len(),
        forall|i: int| 0 <= i < s.len() ==> is_digit(#[trigger] s[i]),
    ensures
        digits_value(s.take(k)) <= digits_value(s),
    decreases s.len(),
{
    if k < s.len() {
        let shorter = s.drop_last();
        more_digits_more_value(shorter, k);
        assert(shorter.take(k) =~= s.take(k));
        assert(is_digit(s[s.len() - 1]));
    } else {
        assert(s.take(k) =~= s);
    }
}

/// The port that the characters `from..to` are the decimal form of.
fn parse_number(chars: &Vec<char>, from: usize, to: usize) -> (port: Option<u16>)
    requires
        from <= to <= chars.len(),
    ensures
        port == port_number(chars@.subrange(from as int, to as int)),
{
    let ghost s = chars@.subrange(from as int, to as int);
    let start: usize = if from < to && chars[from] == '+' {
        from + 1
    } else {
        from
    };
    let ghost digits = chars@.subrange(start as int, to as int);
    assert(digits =~= if s.len() > 0 && s[0] == '+' {
        s.drop_first()
    } else {
        s
    });
    if start == to {
        return None;
    }
    let mut value: u32 = 0;
    let mut i: usize = start;
    assert(digits.take(0) =~= Seq::<char>::empty());
    while i < to
        invariant
            from <= start <= i <= to <= chars.len(),
            digits == chars@.subrange(start as int, to as int),
            start < to,
            port_number(s) == digits_port(digits),
            s == chars@.subrange(from as int, to as int),
            value <= u16::MAX,
            value == digits_value(digits.take(i - start)),
            forall|k: int| 0 <= k < i - start ==> is_digit(#[trigger] digits[k]),
        decreases to - i,
    {
        let c = chars[i];
        assert(digits[i - start] == c);
        if c < '0' || c > '9' {
            assert(!is_digit(digits[i - start]));
            return None;
        }
        let d: u32 = c as u32 - '0' as u32;
        proof {
            let next = digits.take(i - start + 1);
            assert(next.drop_last() =~= digits.take(i - start));
            assert(next.last() == c);
        }
        value = value * 10 + d;
        if value > 65535 {
            proof {
                if forall|k: int|
                    0 <= k < digits.len() ==> is_digit(#[trigger] digits[k]) {
                    more_digits_more_value(digits, i - start + 1);
                }
            }
            return None;
        }
        i += 1;
    }
    assert(digits.take(to - start) =~= digits);
    Some(value as u16)
}

proof fn authority_of_plain(s: Seq<char>, n: int)
    requires
        0 <= n <= s.len(),
        forall|i: int| 0 <= i < n ==> !ends_authority(#[trigger] s[i]),
        n == s.len() || ends_authority(s[n]),
    ensures
        authority(s) == s.take(n),
    decreases s.len(),
{
    if n > 0 {
        let rest = s.drop_first();
        assert forall|i: int| 0 <= i < n - 1 implies !ends_authority(#[trigger] rest[i]) by {
            assert(!ends_authority(s[i + 1]));
        }
        authority_of_plain(rest, n - 1);
        assert(!ends_authority(s[0]));
        assert(s.take(n) =~= seq![s[0]] + rest.take(n - 1));
    } else {
        assert(s.take(0) =~= seq![]);
    }
}

proof fn after_colon_at(s: Seq<char>, k: int)
    requires
        -1 <= k < s.len(),
        k >= 0 ==> s[k] == ':',
        forall|i: int| k < i < s.len() ==> s[i] != ':',
    ensures
        k < 0 ==> after_colon(s) is None,
        k >= 0 ==> after_colon(s) == Some(s.skip(k + 1)),
    decreases s.len(),
{
    if s.len() > 0 {
        if k == s.len() - 1 {
            assert(s.skip(k + 1) =~= seq![]);
        } else {
            after_colon_at(s.drop_last(), k);
            if k >= 0 {
                assert(s.drop_last().skip(k + 1).push(s.last()) =~= s.skip(k + 1));
            }
        }
    }
}

/// The position behind the scheme of the first web address in a line.
fn find_authority(chars: &Vec<char>) -> (start: Option<usize>)
    ensures
        start is None <==> authority_start(chars@) is None,
        start matches Some(s) ==> authority_start(chars@) == Some(s as int) && s <= chars.len(),
{
    let http = chars_of("http://");
    let https = chars_of("https://");
    proof {
        reveal_strlit("http://");
        reveal_strlit("https://");
    }
    match (index_of(chars, &http), index_of(chars, &https)) {
        (Some(i), Some(j)) => if i < j {
            Some(i + 7)
        } else {
            Some(j + 8)
        },
        (Some(i), None) => Some(i + 7),
        (None, Some(j)) => Some(j + 8),
        (None, None) => None,
    }
}

/// The port of the first web address in a line of output.
pub fn parse_port(line: &str) -> (port: Option<u16>)
    ensures
        port == advertised_port(line@),
{
    let chars = chars_of(line);
    let start: usize = match find_authority(&chars) {
        Some(start) => start,
        None => {
            return None;
        },
    };
    let mut end: usize = start;
    while end < chars.len() && !is_ending(chars[end])
        invariant
            start <= end <= chars.len(),
            forall|k: int| start <= k < end ==> !ends_authority(#[trigger] chars@[k]),
        decreases chars.len() - end,
    {
        end += 1;
    }
    let ghost rest = chars@.skip(start as int);
    let ghost host = chars@.subrange(start as int, end as int);
    proof {
        assert forall|i: int| 0 <= i < end - start implies !ends_authority(#[trigger] rest[i]) by {
            assert(!ends_authority(chars@[start + i]));
        }
        authority_of_plain(rest, end - start);
        assert(rest.take(end - start) =~= host);
    }
    let mut colon: usize = end;
    while colon > start && chars[colon - 1] != ':'
        invariant
            start <= colon <= end <= chars.len(),
            forall|k: int| colon <= k < end ==> chars@[k] != ':',
        decreases colon - start,
    {
        colon -= 1;
    }
    proof {
        after_colon_at(host, colon - start - 1);
    }
    if colon == start {
        return None;
    }
    assert(host.skip(colon - start) =~= chars@.subrange(colon as int, end as int));
    parse_number(&chars, colon, end)
}

/// The port to assume after one more line of output.
pub fn observe_line(assumed: u16, line: &str) -> (port: u16)
    ensures
        port == match advertised_port(line@) {
            Some(p) => p,
            None => assumed,
        },
{
    match parse_port(line) {
        Some(port) => port,
        None => assumed,
    }
}

/// Observing the lines of some output one by one leaves the port that was advertised last.
pub proof fn last_advertised_port_counts(assumed: u16, lines: Seq<Seq<char>>, line: Seq<char>)
    ensures
        port_after(assumed, lines.push(line)) == match advertised_port(line) {
            Some(p) => p,
            None => port_after(assumed, lines),
        },
{
    assert(lines.push(line).drop_last() =~= lines);
}

proof fn leftmost_exists(hay: Seq<char>, needle: Seq<char>, at: int)
    requires
        occurs_at(hay, needle, at),
    ensures
        exists|i: int| first_at(hay, needle, i),
    decreases at,
{
    if exists|j: int| j < at && occurs_at(hay, needle, j) {
        let j = choose|j: int| j < at && occurs_at(hay, needle, j);
        leftmost_exists(hay, needle, j);
    } else {
        assert(first_at(hay, needle, at));
    }
}

/// The address of a server on this machine, followed by nothing or by a path, advertises its port,
/// whatever the port.
pub proof fn local_address_advertises_its_port(port: u16, path: Seq<char>)
    requires
        path.len() == 0 || path[0] == '/',
    ensures
        advertised_port("http://localhost:"@ + decimal(port as nat) + path) == Some(
            port,
        ),
{
    let digits = decimal(port as nat);
    let line = "http://localhost:"@ + digits + path;
    decimal_reads_back(port as nat);
    reveal_strlit("http://localhost:");
    reveal_strlit("http://");
    assert(line.subrange(0, 7) =~= "http://"@);
    assert(occurs_at(line, "http://"@, 0));
    assert(first_at(line, "http://"@, 0));
    let k = choose|i: int| first_at(line, "http://"@, i);
    assert(first_at(line, "http://"@, k));
    assert(k == 0);
    reveal_strlit("https://");
    if occurs(line, "https://"@) {
        let at = choose|i: int| occurs_at(line, "https://"@, i);
        leftmost_exists(line, "https://"@, at);
        let j = choose|i: int| first_at(line, "https://"@, i);
        assert(first_at(line, "https://"@, j));
        if j == 0 {
            assert(line.subrange(0, 8)[4] == 's');
        }
    }
    let rest = line.skip(7);
    let n = 10 + digits.len() as int;
    assert forall|i: int| 0 <= i < n implies !ends_authority(#[trigger] rest[i]) by {
        if i >= 10 {
            assert(rest[i] == digits[i - 10]);
        }
    }
    authority_of_plain(rest, n);
    let host = rest.take(n);
    assert forall|i: int| 9 < i < host.len() implies host[i] != ':' by {
        assert(host[i] == digits[i - 10]);
    }
    after_colon_at(host, 9);
    assert(host.skip(10) =~= digits);
}

/// A line holds an address, and no other before it: behind `head` stands the scheme, a host that
/// may hold colons, a colon, a text without colons in the place of the port, and the rest of the
/// line.
pub open spec fn holds_address(
    line: Seq<char>,
    head: Seq<char>,
    secure: bool,
    host: Seq<char>,
    port: Seq<char>,
    rest: Seq<char>,
) -> bool {
    let scheme = if secure {
        "https://"@
    } else {
        "http://"@
    };
    &&& line == head + scheme + host + seq![':'] + port + rest
    &&& forall|i: int|
        i < head.len() ==> !#[trigger] occurs_at(line, "http://"@, i) && !occurs_at(
            line,
            "https://"@,
            i,
        )
    &&& forall|i: int|
        0 <= i < host.len() ==> host[i] != '/' && host[i] != ' ' && host[i] != '\r' && host[i]
            != '\n'
    &&& forall|i: int|
        0 <= i < port.len() ==> port[i] != '/' && port[i] != ' ' && port[i] != '\r' && port[i]
            != '\n' && port[i] != ':'
    &&& rest.len() > 0 ==> rest[0] == '/' || rest[0] == ' ' || rest[0] == '\r' || rest[0] == '\n'
}

proof fn address_port(
    line: Seq<char>,
    head: Seq<char>,
    secure: bool,
    host: Seq<char>,
    port: Seq<char>,
    rest: Seq<char>,
)
    requires
        holds_address(line, head, secure, host, port, rest),
    ensures
        advertised_port(line) == port_number(port),
{
    let scheme = if secure {
        "https://"@
    } else {
        "http://"@
    };
    let n = head.len() as int;
    reveal_strlit("http://");
    reveal_strlit("https://");
    let m = scheme.len() as int;
    assert(line.subrange(n, n + m) =~= scheme);
    assert(occurs_at(line, scheme, n));
    assert(first_at(line, scheme, n)) by {
        assert forall|j: int| j < n implies !occurs_at(line, scheme, j) by {
            assert(!occurs_at(line, "http://"@, j) && !occurs_at(line, "https://"@, j));
        }
    }
    let k = choose|i: int| first_at(line, scheme, i);
    assert(first_at(line, scheme, k));
    assert(k == n);
    let other = if secure {
        "http://"@
    } else {
        "https://"@
    };
    if occurs(line, other) {
        let at = choose|i: int| occurs_at(line, other, i);
        leftmost_exists(line, other, at);
        let j = choose|i: int| first_at(line, other, i);
        assert(first_at(line, other, j));
        assert(n <= j) by {
            assert(occurs_at(line, other, j));
            assert(j < n ==> !occurs_at(line, "http://"@, j));
            assert(j < n ==> !occurs_at(line, "https://"@, j));
        }
        if j == n {
            assert(line.subrange(n, n + other.len())[4] == line[n + 4]);
            assert(line[n + 4] == scheme[4]);
        }
    }
    let s = line.skip(n + m);
    let tail = host + seq![':'] + port;
    assert(s =~= tail + rest);
    let len = tail.len() as int;
    assert forall|i: int| 0 <= i < len implies !ends_authority(#[trigger] s[i]) by {
        if i < host.len() {
            assert(s[i] == host[i]);
        } else if i > host.len() {
            assert(s[i] == port[i - host.len() - 1]);
        }
    }
    authority_of_plain(s, len);
    assert(s.take(len) =~= tail);
    let c = host.len() as int;
    assert forall|i: int| c < i < tail.len() implies tail[i] != ':' by {
        assert(tail[i] == port[i - c - 1]);
    }
    after_colon_at(tail, c);
    assert(tail.skip(c + 1) =~= port);
}

/// The first address in a line of output tells the port, whatever stands before and behind it,
/// whatever its host, and whether or not it is a secure one.
pub proof fn first_address_tells_the_port(
    line: &str,
    head: Seq<char>,
    secure: bool,
    host: Seq<char>,
    port: u16,
    rest: Seq<char>,
    found: Option<u16>,
)
    requires
        call_ensures(parse_port, (line,), found),
        holds_address(line@, head, secure, host, decimal(port as nat), rest),
    ensures
        found == Some(port),
{
    address_port(line@, head, secure, host, decimal(port as nat), rest);
    decimal_reads_back(port as nat);
    assert(is_digit(decimal(port as nat)[0]));
}

/// Digits in the place of the port are read as a number of sixteen bits, however many zeros they
/// begin with. What is not made of digits is no port, nor is what is too large, nor nothing.
pub proof fn only_numbers_are_ports(
    line: &str,
    head: Seq<char>,
    secure: bool,
    host: Seq<char>,
    port: Seq<char>,
    rest: Seq<char>,
    found: Option<u16>,
)
    requires
        call_ensures(parse_port, (line,), found),
        holds_address(line@, head, secure, host, port, rest),
        port.len() > 0 ==> port[0] != '+',
    ensures
        found is Some <==> {
            &&& port.len() > 0
            &&& forall|i: int| 0 <= i < port.len() ==> '0' <= #[trigger] port[i] <= '9'
            &&& digits_value(port) <= 65535
        },
        found matches Some(p) ==> p == digits_value(port),
{
    address_port(line@, head, secure, host, port, rest);
    if forall|i: int| 0 <= i < port.len() ==> '0' <= #[trigger] port[i] <= '9' {
        assert forall|i: int| 0 <= i < port.len() implies is_digit(#[trigger] port[i]) by {}
    }
    if forall|i: int| 0 <= i < port.len() ==> is_digit(#[trigger] port[i]) {
        assert forall|i: int| 0 <= i < port.len() implies '0' <= #[trigger] port[i] <= '9' by {
            assert(is_digit(port[i]));
        }
    }
}

/// A line without an address tells no port, and leaves the one that was assumed.
pub proof fn lines_without_an_address_tell_no_port(
    assumed: u16,
    line: &str,
    found: Option<u16>,
    port: u16,
)
    requires
        call_ensures(parse_port, (line,), found),
        call_ensures(observe_line, (assumed, line), port),
        forall|i: int|
            !#[trigger] occurs_at(line@, "http://"@, i) && !occurs_at(line@, "https://"@, i),
    ensures
        found is None,
        port == assumed,
{
    if occurs(line@, "https://"@) {
        let i = choose|i: int| occurs_at(line@, "https://"@, i);
        assert(!occurs_at(line@, "http://"@, i) && !occurs_at(line@, "https://"@, i));
    }
}

/// A line that tells a port sets it; any other leaves the one that was assumed.
pub proof fn told_ports_are_assumed(assumed: u16, line: &str, found: Option<u16>, port: u16)
    requires
        call_ensures(parse_port, (line,), found),
        call_ensures(observe_line, (assumed, line), port),
    ensures
        found matches Some(p) ==> port == p,
        found is None ==> port == assumed,
{
}

} // verus!
