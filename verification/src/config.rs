//! Settings: the theme's own description, the process filter, and the framework that is asked
//! for.
use vstd::prelude::*;
use crate::document::{parse_toml, toml_member, toml_str};
#[allow(unused_imports)]
use crate::document::{DocView, as_text, member, nested, toml_content, toml_text};
#[allow(unused_imports)]
use crate::media::filter::admits;
#[allow(unused_imports)]
use crate::text::{opt_text, trim};

verus! {

/// The filter that admits every player.
pub const DEFAULT_FILTER: &'static str = "*";

/// The section of a theme's description that holds its name, version and author: the table
/// `smtc2web.theme` if there is one, else the whole document.
pub open spec fn theme_section(doc: DocView) -> DocView {
    match nested(doc, "smtc2web"@, "theme"@) {
        Some(section) => section,
        None => doc,
    }
}

/// The text under a key, or another text if there is none.
pub open spec fn entry_or(
    section: DocView,
    key: Seq<char>,
    default: Seq<char>,
) -> Seq<char> {
    match member(section, key) {
        Some(value) => match as_text(value) {
            Some(text) => text,
            None => default,
        },
        None => default,
    }
}

/// Name, version and author of a theme.
pub open spec fn theme_of(doc: DocView) -> (Seq<char>, Seq<char>, Seq<char>) {
    let section = theme_section(doc);
    (
        entry_or(section, "name"@, "Unknown"@),
        entry_or(section, "version"@, "0.0.0"@),
        entry_or(section, "author"@, "Unknown"@),
    )
}

/// The filter that a configuration sets.
pub open spec fn filter_of(doc: DocView) -> Option<Seq<char>> {
    match member(doc, "process_filter"@) {
        Some(value) => as_text(value),
        None => None,
    }
}

fn text_entry(section: &toml::Value, key: &str, default: &str) -> (text: String)
    ensures
        text@ == entry_or(toml_content(*section), key@, default@),
{
    match toml_member(section, key) {
        Some(value) => match toml_str(value) {
            Some(text) => text.to_owned(),
            None => default.to_owned(),
        },
        None => default.to_owned(),
    }
}

/// Name, version and author of the theme that a parsed description describes.
pub fn theme_info(doc: &toml::Value) -> (info: (String, String, String))
    ensures
        (info.0@, info.1@, info.2@) == theme_of(toml_content(*doc)),
{
    let section = match toml_member(doc, "smtc2web") {
        Some(outer) => match toml_member(outer, "theme") {
            Some(inner) => inner,
            None => doc,
        },
        None => doc,
    };
    (
        text_entry(section, "name", "Unknown"),
        text_entry(section, "version", "0.0.0"),
        text_entry(section, "author", "Unknown"),
    )
}

/// Name, version and author of the theme that the content of `theme.toml` describes, unless it is
/// not well-formed.
pub fn parse_theme_info(content: &str) -> (info: Option<(String, String, String)>)
    ensures
        info is Some <==> toml_text(content@) is Some,
        info matches Some(i) ==> (i.0@, i.1@, i.2@) == theme_of(
            toml_text(content@)->0,
        ),
{
    match parse_toml(content) {
        Some(doc) => Some(theme_info(&doc)),
        None => None,
    }
}

/// The filter that a parsed configuration sets.
pub fn filter_setting(doc: &toml::Value) -> (filter: Option<String>)
    ensures
        opt_text(filter) == filter_of(toml_content(*doc)),
{
    match toml_member(doc, "process_filter") {
        Some(value) => match toml_str(value) {
            Some(text) => Some(text.to_owned()),
            None => None,
        },
        None => None,
    }
}

/// The filter that the content of `config.toml` sets. One that is not well-formed sets none.
pub fn config_process_filter(content: &str) -> (filter: Option<String>)
    ensures
        opt_text(filter) == match toml_text(content@) {
            Some(doc) => filter_of(doc),
            None => None,
        },
{
    match parse_toml(content) {
        Some(doc) => filter_setting(&doc),
        None => None,
    }
}

/// The filter in force: the one of the command line, else the one of the configuration, else the
/// one that admits every player.
pub fn effective_filter(given: Option<String>, configured: Option<String>) -> (filter: String)
    ensures
        filter@ == match given {
            Some(f) => f@,
            None => match configured {
                Some(f) => f@,
                None => DEFAULT_FILTER@,
            },
        },
{
    match given {
        Some(f) => f,
        None => match configured {
            Some(f) => f,
            None => DEFAULT_FILTER.to_owned(),
        },
    }
}

/// The framework that is asked for: Vite if that is forced, else the one that is named.
pub open spec fn requested(vite: bool, framework: Seq<char>) -> Seq<char> {
    if vite {
        "vite"@
    } else {
        framework
    }
}

/// The framework that is asked for.
pub fn requested_framework(vite: bool, framework: &str) -> (request: String)
    ensures
        request@ == requested(vite, framework@),
{
    if vite {
        "vite".to_owned()
    } else {
        framework.to_owned()
    }
}

/// The line that introduces a theme.
pub fn theme_banner(name: &str, version: &str, author: &str) -> (line: String)
    ensures
        line@ == Seq::new(40, |i: int| '=').push(' ') + name@ + " v"@ + version@ + " by "@
            + author@,
{
    let mut line = String::new();
    let mut i: usize = 0;
    while i < 40
        invariant
            i <= 40,
            line@ == Seq::new(i as nat, |k: int| '='),
        decreases 40 - i,
    {
        line.push('=');
        assert(line@ =~= Seq::new((i + 1) as nat, |k: int| '='));
        i += 1;
    }
    line.push(' ');
    line.append(name);
    line.append(" v");
    line.append(version);
    line.append(" by ");
    line.append(author);
    line
}

/// Without a filter of its own, neither on the command line nor in a configuration, the program
/// follows every player.
pub proof fn every_player_is_followed_by_default(id: Seq<char>, name: Seq<char>)
    ensures
        admits(DEFAULT_FILTER@, id, name),
{
    reveal_strlit("*");
    assert("*"@.len() == 1 && "*"@[0] == '*');
    assert(trim("*"@) == "*"@);
}

/// The entry of a section that is a text, or else a default.
pub open spec fn is_entry(
    section: Map<Seq<char>, DocView>,
    key: Seq<char>,
    default: Seq<char>,
    text: Seq<char>,
) -> bool {
    &&& section.contains_key(key) && section[key] is Text ==> section[key] == DocView::Text(text)
    &&& !(section.contains_key(key) && section[key] is Text) ==> text == default
}

/// A theme that is described in the table `smtc2web.theme` has the name, version and author that
/// stand there, whatever stands beside it; each that is not a text there has a default.
pub proof fn themes_are_described_in_their_table(
    doc: Map<Seq<char>, DocView>,
    outer: Map<Seq<char>, DocView>,
    section: Map<Seq<char>, DocView>,
)
    requires
        doc.contains_key("smtc2web"@),
        doc["smtc2web"@] == DocView::Members(outer),
        outer.contains_key("theme"@),
        outer["theme"@] == DocView::Members(section),
    ensures
        is_entry(section, "name"@, "Unknown"@, theme_of(DocView::Members(doc)).0),
        is_entry(section, "version"@, "0.0.0"@, theme_of(DocView::Members(doc)).1),
        is_entry(section, "author"@, "Unknown"@, theme_of(DocView::Members(doc)).2),
{
}

/// A theme without that table is described at the top of the document.
pub proof fn themes_without_a_table_are_described_at_the_top(doc: Map<Seq<char>, DocView>)
    requires
        !doc.contains_key("smtc2web"@) || (doc["smtc2web"@] matches DocView::Members(outer)
            ==> !outer.contains_key("theme"@)),
    ensures
        is_entry(doc, "name"@, "Unknown"@, theme_of(DocView::Members(doc)).0),
        is_entry(doc, "version"@, "0.0.0"@, theme_of(DocView::Members(doc)).1),
        is_entry(doc, "author"@, "Unknown"@, theme_of(DocView::Members(doc)).2),
{
}

/// What is read of a document as a theme's name, version and author is what it says.
pub proof fn theme_descriptions_are_read(
    doc: &toml::Value,
    info: (String, String, String),
)
    requires
        call_ensures(theme_info, (doc,), info),
    ensures
        info.0@ == theme_of(toml_content(*doc)).0,
        info.1@ == theme_of(toml_content(*doc)).1,
        info.2@ == theme_of(toml_content(*doc)).2,
{
}

/// A configuration sets the filter that it has, as a text, at its top; any other sets none.
pub proof fn filters_are_set_at_the_top(doc: Map<Seq<char>, DocView>, text: Seq<char>)
    ensures
        doc.contains_key("process_filter"@) && doc["process_filter"@] == DocView::Text(text)
            ==> filter_of(DocView::Members(doc)) == Some(text),
        !doc.contains_key("process_filter"@) || !(doc["process_filter"@] is Text) ==> filter_of(
            DocView::Members(doc),
        ) is None,
{
}

/// A filter on the command line is in force whatever is configured; without one, the configured
/// filter is; without either, all players are followed.
pub proof fn the_command_line_comes_first(
    given: Option<String>,
    configured: Option<String>,
    filter: String,
)
    requires
        call_ensures(effective_filter, (given, configured), filter),
    ensures
        given matches Some(g) ==> filter@ == g@,
        given is None ==> (configured matches Some(c) ==> filter@ == c@),
        given is None && configured is None ==> filter@ == "*"@,
{
}

/// A framework that is named is the one that is asked for, unless Vite is forced.
pub proof fn named_frameworks_are_asked_for(vite: bool, framework: &str, request: String)
    requires
        call_ensures(requested_framework, (vite, framework), request),
    ensures
        !vite ==> request@ == framework@,
        vite ==> request@ == "vite"@,
{
}

/// The line that introduces a theme holds its name, version and author behind forty signs.
pub proof fn banners_hold_name_version_and_author(
    name: &str,
    version: &str,
    author: &str,
    line: String,
)
    requires
        call_ensures(theme_banner, (name, version, author), line),
    ensures
        line@.len() == 41 + name@.len() + 2 + version@.len() + 4 + author@.len(),
        forall|i: int| 0 <= i < 40 ==> line@[i] == '=',
        line@[40] == ' ',
        line@.skip(41) == name@ + " v"@ + version@ + " by "@ + author@,
{
    reveal_strlit(" v");
    reveal_strlit(" by ");
    let signs = Seq::new(40, |i: int| '=').push(' ');
    assert(line@.skip(41) =~= name@ + " v"@ + version@ + " by "@ + author@);
    assert forall|i: int| 0 <= i < 40 implies line@[i] == '=' by {
        assert(line@[i] == signs[i]);
    }
    assert(line@[40] == signs[40]);
}

/// What a well-formed `theme.toml` describes is told; of any other nothing is.
pub proof fn well_formed_themes_are_told(
    content: &str,
    info: Option<(String, String, String)>,
)
    requires
        call_ensures(parse_theme_info, (content,), info),
    ensures
        toml_text(content@) is None ==> info is None,
        toml_text(content@) matches Some(doc) ==> (info matches Some(i) && i.0@ == theme_of(doc).0
            && i.1@ == theme_of(doc).1 && i.2@ == theme_of(doc).2),
{
}

/// The filter that a well-formed `config.toml` sets is taken; any other sets none.
pub proof fn well_formed_configurations_set_the_filter(
    content: &str,
    filter: Option<String>,
)
    requires
        call_ensures(config_process_filter, (content,), filter),
    ensures
        toml_text(content@) is None ==> filter is None,
        toml_text(content@) matches Some(doc) ==> opt_text(filter) == filter_of(doc),
{
}

} // verus!
