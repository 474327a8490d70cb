//! Media types and data URIs.
use base64::engine::general_purpose::STANDARD;
use base64::Engine;
use vstd::prelude::*;

verus! {

/// The standard base64 text, with padding, of a sequence of bytes.
pub uninterp spec fn base64_text(data: Seq<u8>) -> Seq<char>;

/// The media type that the crate `mime_guess` gives to files with an extension; where its table has
/// none, `application/octet-stream`.
pub uninterp spec fn extension_type(extension: Seq<char>) -> Seq<char>;

/// The media type of a file of which nothing is known.
pub const UNKNOWN_TYPE: &'static str = "application/octet-stream";

/// A character that separates the components of a path on some platform.
pub open spec fn is_separator(c: char) -> bool {
    c == '/' || c == '\\'
}

/// What stands before and behind the last occurrence of a character in a text.
pub open spec fn split_at_last(s: Seq<char>, c: char) -> Option<(Seq<char>, Seq<char>)>
    decreases s.len(),
{
    if s.len() == 0 {
        None
    } else if s.last() == c {
        Some((s.drop_last(), seq![]))
    } else {
        match split_at_last(s.drop_last(), c) {
            Some((before, behind)) => Some((before, behind.push(s.last()))),
            None => None,
        }
    }
}

/// The last component of a path whose components are separated by slashes. Slashes at the end and
/// components `.` do not count, and `..` is no name.
pub open spec fn file_name(path: Seq<char>) -> Option<Seq<char>>
    decreases path.len(),
{
    let name = match split_at_last(path, '/') {
        Some((_, name)) => name,
        None => path,
    };
    if path.len() == 0 || name == seq!['.', '.'] {
        None
    } else if name.len() == 0 || name == seq!['.'] {
        file_name(path.drop_last())
    } else {
        Some(name)
    }
}

/// What stands behind the last dot of a file's name. A dot that the name begins with does not
/// count.
pub open spec fn name_extension(name: Seq<char>) -> Option<Seq<char>> {
    match split_at_last(name, '.') {
        Some((stem, extension)) => if stem.len() > 0 {
            Some(extension)
        } else {
            None
        },
        None => None,
    }
}

/// A path that may begin with the name of a server and a share.
pub open spec fn may_name_share(path: Seq<char>) -> bool {
    path.len() >= 2 && is_separator(path[0]) && is_separator(path[1])
}

/// A path that every platform takes apart in the same way: it holds no backslash, does not begin
/// with two slashes, and has no dot right behind what may be the name of a drive.
pub open spec fn portable(path: Seq<char>) -> bool {
    &&& !path.contains('\\')
    &&& !may_name_share(path)
    &&& !(path.len() >= 3 && path[1] == ':' && path[2] == '.')
}

/// A text that holds no separator.
pub open spec fn is_unseparated(s: Seq<char>) -> bool {
    forall|i: int| 0 <= i < s.len() ==> !is_separator(#[trigger] s[i])
}

/// A path without the separators and dots that it ends with.
pub open spec fn without_ending(path: Seq<char>) -> Seq<char>
    decreases path.len(),
{
    if path.len() > 0 && (is_separator(path.last()) || path.last() == '.') {
        without_ending(path.drop_last())
    } else {
        path
    }
}

/// The one text that may be the extension of a path: what stands behind its last dot, but for
/// separators and dots at its end. What holds a separator is no extension.
pub open spec fn possible_extension(path: Seq<char>) -> Option<Seq<char>> {
    match split_at_last(without_ending(path), '.') {
        Some((_, extension)) => if is_unseparated(extension) {
            Some(extension)
        } else {
            None
        },
        None => None,
    }
}

/// A path with a name that holds more than the last dot and what stands behind it, on every
/// platform: a character stands before the dot that neither separates components nor ends the
/// name of a drive.
pub open spec fn ends_in_extension(path: Seq<char>) -> bool {
    &&& !may_name_share(path)
    &&& split_at_last(path, '.') matches Some((stem, extension)) && {
        &&& stem.len() > 0
        &&& !is_separator(stem.last())
        &&& stem.last() != ':'
        &&& extension.len() > 0
        &&& is_unseparated(extension)
    }
}

/// A path on whose extension every platform agrees.
pub open spec fn is_settled(path: Seq<char>) -> bool {
    portable(path) || ends_in_extension(path)
}

/// The extension of a path on which every platform agrees.
pub open spec fn extension_of(path: Seq<char>) -> Option<Seq<char>> {
    if ends_in_extension(path) {
        possible_extension(path)
    } else {
        match file_name(path) {
            Some(name) => name_extension(name),
            None => None,
        }
    }
}

/// The media type for an extension that may be missing.
pub open spec fn type_of(extension: Option<Seq<char>>) -> Seq<char> {
    match extension {
        Some(e) => extension_type(e),
        None => UNKNOWN_TYPE@,
    }
}

/// `guess` is a media type that may be guessed for a path. Where every platform agrees on the
/// extension there is one; on any other path the extension may be missed.
pub open spec fn guessed(path: Seq<char>, guess: Seq<char>) -> bool {
    &&& is_settled(path) ==> guess == type_of(extension_of(path))
    &&& guess == UNKNOWN_TYPE@ || guess == type_of(possible_extension(path))
}

/// A path whose extension is `html` on every platform.
pub open spec fn is_html_path(path: Seq<char>) -> bool {
    is_settled(path) && extension_of(path) == Some("html"@)
}

/// `Engine::encode` of the crate `base64`, with the engine `STANDARD`: the text depends on the
/// bytes alone.
#[verifier::external_body]
fn encode_base64(data: &Vec<u8>) -> (text: String)
    ensures
        text@ == base64_text(data@),
{
    STANDARD.encode(data)
}

/// `from_path` of the crate `mime_guess`, with `application/octet-stream` where it guesses
/// nothing. The guess depends on the extension alone, as `Path::extension` of std finds it: what
/// stands behind the last dot of the file's name, unless the name has no dot but one at its
/// beginning. What is a file's name depends on the platform, so it is said for the paths on which
/// all agree; on any other the extension may be the one text that some platform takes for it, or be
/// missed. No extension that holds a separator has a type in the crate's table; `html` has
/// `text/html`.
#[verifier::external_body]
pub(crate) fn guess_media_type(path: &str) -> (guess: String)
    ensures
        is_settled(path@) ==> guess@ == match extension_of(path@) {
            Some(extension) => extension_type(extension),
            None => UNKNOWN_TYPE@,
        },
        guess@ == UNKNOWN_TYPE@ || guess@ == match possible_extension(path@) {
            Some(extension) => extension_type(extension),
            None => UNKNOWN_TYPE@,
        },
        is_html_path(path@) ==> guess@ == "text/html"@,
{
    mime_guess::from_path(path).first_or_octet_stream().to_string()
}

/// The extension of a path that ends in a dot and a text without dots and separators is that text,
/// as long as what stands before the dot can be part of a name.
pub proof fn extension_stands_behind_the_last_dot(stem: Seq<char>, extension: Seq<char>)
    requires
        !may_name_share(stem),
        stem.len() > 0,
        !is_separator(stem.last()),
        stem.last() != ':',
        extension.len() > 0,
        !extension.contains('.'),
        is_unseparated(extension),
    ensures
        is_settled(stem.push('.') + extension),
        extension_of(stem.push('.') + extension) == Some(extension),
{
    let path = stem.push('.') + extension;
    split_behind(stem, extension, '.');
    assert(path.last() == extension.last());
    assert(extension.contains(extension.last()));
    assert(without_ending(path) == path);
    if may_name_share(path) {
        assert(path[0] == stem[0]);
        if stem.len() == 1 {
            assert(path[1] == '.');
        } else {
            assert(path[1] == stem[1]);
        }
    }
}

proof fn split_behind(before: Seq<char>, behind: Seq<char>, c: char)
    requires
        !behind.contains(c),
    ensures
        split_at_last(before.push(c) + behind, c) == Some((before, behind)),
    decreases behind.len(),
{
    let s = before.push(c) + behind;
    if behind.len() == 0 {
        assert(s =~= before.push(c));
        assert(s.drop_last() =~= before);
        assert(behind =~= seq![]);
    } else {
        let rest = behind.drop_last();
        assert(behind.contains(behind.last()));
        assert forall|i: int| 0 <= i < rest.len() implies rest[i] != c by {
            assert(behind.contains(behind[i]));
        }
        split_behind(before, rest, c);
        assert(s.drop_last() =~= before.push(c) + rest);
        assert(rest.push(behind.last()) =~= behind);
    }
}

/// A data URI: a media type and the base64 text of the data.
pub open spec fn uri_text(kind: Seq<char>, encoded: Seq<char>) -> Seq<char> {
    "data:"@ + kind + ";base64,"@ + encoded
}

/// The data URI of some data of a given media type.
pub open spec fn data_uri(kind: Seq<char>, data: Seq<u8>) -> Seq<char> {
    uri_text(kind, base64_text(data))
}

/// A data URI, from the media type and the base64 text of the data.
pub fn compose_data_uri(kind: &str, encoded: &str) -> (uri: String)
    ensures
        uri@ == uri_text(kind@, encoded@),
{
    let mut uri = "data:".to_owned();
    uri.append(kind);
    uri.append(";base64,");
    uri.append(encoded);
    uri
}

/// The data URI of some data of a given media type.
pub fn data_uri_of(kind: &str, data: &Vec<u8>) -> (uri: String)
    ensures
        uri@ == data_uri(kind@, data@),
{
    compose_data_uri(kind, encode_base64(data).as_str())
}

/// A data URI begins with its scheme and the media type, and ends with the text of the data, which
/// can be cut out again.
pub proof fn data_uris_hold_type_and_text(kind: &str, encoded: &str, uri: String)
    requires
        call_ensures(compose_data_uri, (kind, encoded), uri),
    ensures
        uri@.len() == 5 + kind@.len() + 8 + encoded@.len(),
        uri@.subrange(0, 5) == "data:"@,
        uri@.subrange(5, 5 + kind@.len() as int) == kind@,
        uri@.subrange(5 + kind@.len() as int, 13 + kind@.len() as int) == ";base64,"@,
        uri@.skip(13 + kind@.len() as int) == encoded@,
{
    reveal_strlit("data:");
    reveal_strlit(";base64,");
    assert(uri@.subrange(0, 5) =~= "data:"@);
    assert(uri@.subrange(5, 5 + kind@.len() as int) =~= kind@);
    assert(uri@.subrange(5 + kind@.len() as int, 13 + kind@.len() as int) =~= ";base64,"@);
    assert(uri@.skip(13 + kind@.len() as int) =~= encoded@);
}

/// The data URI of some data is made of the media type and the base64 text of the data.
pub proof fn data_is_told_in_base64(kind: &str, data: &Vec<u8>, uri: String)
    requires
        call_ensures(data_uri_of, (kind, data), uri),
    ensures
        uri@ == "data:"@ + kind@ + ";base64,"@ + base64_text(data@),
{
}

} // verus!
