//! Names under which applications are shown.
use vstd::hash_map::StringHashMap;
use vstd::prelude::*;
use crate::text::{chars_of, string_of};
#[allow(unused_imports)]
use crate::text::opt_text;

verus! {

/// The number of bytes of an application's identifier that are shown when it has no name.
pub const SHOWN_BYTES: usize = 20;

/// An installed package. Whatever could not be read of it is `None`.
#[derive(Debug)]
pub struct PackageEntry {
    pub family: Option<String>,
    pub display_name: Option<String>,
}

/// The identifier of an application from the store holds an exclamation mark and an underscore.
pub open spec fn from_store(aumid: Seq<char>) -> bool {
    aumid.contains('!') && aumid.contains('_')
}

/// What stands before the first exclamation mark of an identifier.
pub open spec fn family_name(aumid: Seq<char>) -> Seq<char>
    decreases aumid.len(),
{
    if aumid.len() == 0 || aumid[0] == '!' {
        seq![]
    } else {
        seq![aumid[0]] + family_name(aumid.drop_first())
    }
}

/// The package belongs to the family and has a name of its own.
pub open spec fn names_family(package: PackageEntry, family: Seq<char>) -> bool {
    &&& package.family matches Some(f) && f@ == family
    &&& package.display_name matches Some(n) && n@.len() > 0 && n@ != family
}

/// The name of the first package that names the family, if there is one.
pub open spec fn store_name(packages: Seq<PackageEntry>, family: Seq<char>) -> Option<Seq<char>>
    decreases packages.len(),
{
    if packages.len() == 0 {
        None
    } else if names_family(packages[0], family) {
        Some(packages[0].display_name->0@)
    } else {
        store_name(packages.drop_first(), family)
    }
}

/// An identifier that can be cut after the bytes that are shown: it is no longer, or a character
/// ends there.
pub open spec fn can_be_cut(aumid: Seq<char>) -> bool {
    vstd::utf8::encode_utf8(aumid).len() > SHOWN_BYTES ==> vstd::utf8::is_char_boundary(
        vstd::utf8::encode_utf8(aumid),
        SHOWN_BYTES as int,
    )
}

/// An identifier in place of a name: in full if it is short, else its beginning and three dots.
pub open spec fn fallback_name(aumid: Seq<char>) -> Seq<char> {
    let bytes = vstd::utf8::encode_utf8(aumid);
    if bytes.len() > SHOWN_BYTES {
        vstd::utf8::decode_utf8(bytes.subrange(0, SHOWN_BYTES as int)) + "..."@
    } else {
        aumid
    }
}

/// The name of an application that has none on record.
pub open spec fn fresh_name(aumid: Seq<char>, packages: Seq<PackageEntry>) -> Seq<char> {
    if from_store(aumid) && store_name(packages, family_name(aumid)) is Some {
        store_name(packages, family_name(aumid))->0
    } else {
        fallback_name(aumid)
    }
}

/// Whether a character stands in a text.
fn has_char(chars: &Vec<char>, c: char) -> (found: bool)
    ensures
        found == chars@.contains(c),
{
    let mut i: usize = 0;
    while i < chars.len()
        invariant
            i <= chars.len(),
            forall|j: int| 0 <= j < i ==> chars@[j] != c,
        decreases chars.len() - i,
    {
        if chars[i] == c {
            return true;
        }
        i += 1;
    }
    false
}

/// Whether an application comes from the store.
pub fn is_store_app(aumid: &str) -> (store: bool)
    ensures
        store == from_store(aumid@),
{
    let chars = chars_of(aumid);
    has_char(&chars, '!') && has_char(&chars, '_')
}

/// The part of an identifier that names the package family.
fn family_of(aumid: &str) -> (family: String)
    ensures
        family@ == family_name(aumid@),
{
    let chars = chars_of(aumid);
    let mut end: usize = 0;
    assert(chars@.skip(0) =~= chars@);
    assert(chars@.take(0) + family_name(chars@) =~= family_name(chars@));
    while end < chars.len() && chars[end] != '!'
        invariant
            end <= chars.len(),
            chars@ == aumid@,
            family_name(aumid@) == chars@.take(end as int) + family_name(chars@.skip(end as int)),
        decreases chars.len() - end,
    {
        let ghost rest = chars@.skip(end as int);
        assert(rest.drop_first() =~= chars@.skip(end + 1));
        assert(chars@.take(end + 1) =~= chars@.take(end as int) + seq![rest[0]]);
        assert(chars@.take(end as int) + (seq![rest[0]] + family_name(rest.drop_first()))
            =~= chars@.take(end + 1) + family_name(chars@.skip(end + 1)));
        end += 1;
    }
    assert(family_name(chars@.skip(end as int)) =~= seq![]);
    assert(chars@.take(end as int) =~= chars@.subrange(0, end as int));
    assert(family_name(aumid@) =~= chars@.take(end as int));
    string_of(&chars, 0, end)
}

/// The name that the installed packages give to an application from the store.
pub fn get_store_app_display_name(aumid: &str, packages: &Vec<PackageEntry>) -> (name: Option<
    String,
>)
    ensures
        opt_text(name) == store_name(packages@, family_name(aumid@)),
{
    let family = family_of(aumid);
    let mut i: usize = 0;
    assert(packages@.skip(0) =~= packages@);
    while i < packages.len()
        invariant
            i <= packages.len(),
            family@ == family_name(aumid@),
            store_name(packages@, family@) == store_name(packages@.skip(i as int), family@),
        decreases packages.len() - i,
    {
        let package = &packages[i];
        assert(packages@.skip(i as int)[0] == packages@[i as int]);
        assert(packages@.skip(i as int).drop_first() =~= packages@.skip(i + 1));
        match (&package.family, &package.display_name) {
            (Some(f), Some(n)) => {
                if *f == family && !n.as_str().is_empty() && *n != family {
                    return Some(n.clone());
                }
            },
            _ => {},
        }
        i += 1;
    }
    None
}

/// The identifier of an application in place of a name.
pub fn get_fallback_display_name(aumid: &str) -> (name: String)
    requires
        can_be_cut(aumid@),
    ensures
        name@ == fallback_name(aumid@),
{
    if aumid.as_bytes().len() > SHOWN_BYTES {
        let (shown, _) = aumid.split_at(SHOWN_BYTES);
        proof {
            vstd::utf8::encode_utf8_decode_utf8(shown@);
        }
        let mut name = shown.to_owned();
        name.append("...");
        name
    } else {
        aumid.to_owned()
    }
}

/// The names that applications were shown under, by identifier.
pub struct DisplayNames {
    names: StringHashMap<String>,
}

impl View for DisplayNames {
    type V = Map<Seq<char>, Seq<char>>;

    closed spec fn view(&self) -> Map<Seq<char>, Seq<char>> {
        self.names@.map_values(|name: String| name@)
    }
}

/// The name of an application, given the names on record. The empty identifier has the empty
/// name.
pub open spec fn display_name(
    names: Map<Seq<char>, Seq<char>>,
    aumid: Seq<char>,
    packages: Seq<PackageEntry>,
) -> Seq<char> {
    if aumid.len() == 0 {
        seq![]
    } else if names.contains_key(aumid) {
        names[aumid]
    } else {
        fresh_name(aumid, packages)
    }
}

/// The names on record after an application was shown under a name. The empty identifier is not put
/// on record.
pub open spec fn on_record(
    names: Map<Seq<char>, Seq<char>>,
    aumid: Seq<char>,
    name: Seq<char>,
) -> Map<Seq<char>, Seq<char>> {
    if aumid.len() == 0 {
        names
    } else {
        names.insert(aumid, name)
    }
}

/// Whether the name of an application has to be made up from its identifier.
pub open spec fn needs_fallback(
    names: Map<Seq<char>, Seq<char>>,
    aumid: Seq<char>,
    packages: Seq<PackageEntry>,
) -> bool {
    &&& aumid.len() > 0
    &&& !names.contains_key(aumid)
    &&& !(from_store(aumid) && store_name(packages, family_name(aumid)) is Some)
}

impl DisplayNames {
    /// No names on record.
    pub fn new() -> (names: Self)
        ensures
            names@.dom() == Set::<Seq<char>>::empty(),
    {
        let names = DisplayNames { names: StringHashMap::new() };
        assert(names@.dom() =~= Set::<Seq<char>>::empty());
        names
    }

    /// Whether the installed packages have to be read for the name of an application.
    pub fn needs_packages(&self, aumid: &str) -> (needed: bool)
        ensures
            needed == (aumid@.len() > 0 && !self@.contains_key(aumid@) && from_store(aumid@)),
    {
        !aumid.is_empty() && !self.names.contains_key(aumid) && is_store_app(aumid)
    }

    /// Whether an application can be named: its identifier can be cut, or need not be.
    pub fn can_name(&self, aumid: &str, packages: &Vec<PackageEntry>) -> (able: bool)
        ensures
            able == (needs_fallback(self@, aumid@, packages@) ==> can_be_cut(aumid@)),
    {
        if aumid.as_bytes().len() <= SHOWN_BYTES || aumid.is_char_boundary(SHOWN_BYTES) {
            return true;
        }
        self.names.contains_key(aumid) || (is_store_app(aumid) && get_store_app_display_name(
            aumid,
            packages,
        ).is_some())
    }

    /// The name of an application, which is then on record. The packages count only where
    /// [`DisplayNames::needs_packages`] says so.
    pub fn get_app_display_name(&mut self, aumid: &str, packages: &Vec<PackageEntry>) -> (name:
        String)
        requires
            needs_fallback(old(self)@, aumid@, packages@) ==> can_be_cut(aumid@),
        ensures
            name@ == display_name(old(self)@, aumid@, packages@),
            final(self)@ == on_record(old(self)@, aumid@, name@),
    {
        if aumid.is_empty() {
            return String::new();
        }
        let known = match self.names.get(aumid) {
            Some(name) => Some(name.clone()),
            None => None,
        };
        if let Some(name) = known {
            assert(self@ =~= old(self)@.insert(aumid@, name@));
            return name;
        }
        let found = if is_store_app(aumid) {
            get_store_app_display_name(aumid, packages)
        } else {
            None
        };
        let name = match found {
            Some(name) => name,
            None => get_fallback_display_name(aumid),
        };
        self.names.insert(aumid.to_owned(), name.clone());
        assert(self@ =~= old(self)@.insert(aumid@, name@));
        name
    }
}

/// An application keeps its name: once it is on record, the name is given again, whatever
/// packages are installed by then.
pub proof fn names_are_kept(
    names: Map<Seq<char>, Seq<char>>,
    aumid: Seq<char>,
    packages: Seq<PackageEntry>,
    later_packages: Seq<PackageEntry>,
)
    ensures
        ({
            let name = display_name(names, aumid, packages);
            aumid.len() > 0 ==> display_name(names.insert(aumid, name), aumid, later_packages)
                == name
        }),
{
}

/// An application comes from the store if and only if its identifier holds both an exclamation mark
/// and an underscore.
pub proof fn store_apps_have_both_marks(aumid: &str, store: bool, i: int, j: int)
    requires
        call_ensures(is_store_app, (aumid,), store),
    ensures
        0 <= i < aumid@.len() && aumid@[i] == '!' && 0 <= j < aumid@.len() && aumid@[j] == '_'
            ==> store,
        store ==> aumid@.contains('!') && aumid@.contains('_'),
{
}

/// The family is all that stands before the first exclamation mark, or the whole identifier if it
/// has none.
pub proof fn family_ends_at_the_first_mark(aumid: Seq<char>)
    ensures
        !family_name(aumid).contains('!'),
        family_name(aumid).len() <= aumid.len(),
        aumid.take(family_name(aumid).len() as int) == family_name(aumid),
        family_name(aumid).len() < aumid.len() ==> aumid[family_name(aumid).len() as int] == '!',
    decreases aumid.len(),
{
    if aumid.len() == 0 || aumid[0] == '!' {
        assert(aumid.take(0) =~= seq![]);
    } else {
        let rest = aumid.drop_first();
        family_ends_at_the_first_mark(rest);
        let n = family_name(rest).len() as int;
        let family = family_name(aumid);
        assert(family =~= seq![aumid[0]] + rest.take(n));
        assert(aumid.take(n + 1) =~= seq![aumid[0]] + rest.take(n));
        assert forall|i: int| 0 <= i < family.len() implies family[i] != '!' by {
            if i > 0 {
                assert(family[i] == family_name(rest)[i - 1]);
                assert(family_name(rest).contains(family_name(rest)[i - 1]));
            }
        }
    }
}

/// The name of an application from the store is that of the first installed package of its family
/// that has a name, other than the family's; there is none only if there is no such package.
pub proof fn packages_name_their_family(
    aumid: &str,
    packages: &Vec<PackageEntry>,
    name: Option<String>,
)
    requires
        call_ensures(get_store_app_display_name, (aumid, packages), name),
    ensures
        name matches Some(n) ==> exists|i: int|
            0 <= i < packages@.len() && #[trigger] is_named_by(packages@[i], family_name(aumid@), n@)
                && forall|j: int|
                0 <= j < i ==> !has_own_name(#[trigger] packages@[j], family_name(aumid@)),
        name is None ==> forall|j: int|
            0 <= j < packages@.len() ==> !has_own_name(
                #[trigger] packages@[j],
                family_name(aumid@),
            ),
{
    store_name_is_first(packages@, family_name(aumid@));
}

/// The package belongs to the family and has this name, which is neither empty nor the family's.
pub open spec fn is_named_by(package: PackageEntry, family: Seq<char>, name: Seq<char>) -> bool {
    &&& package.family is Some
    &&& package.family->0@ == family
    &&& package.display_name is Some
    &&& package.display_name->0@ == name
    &&& name.len() > 0
    &&& name != family
}

/// The package belongs to the family and has a name that is neither empty nor the family's.
pub open spec fn has_own_name(package: PackageEntry, family: Seq<char>) -> bool {
    &&& package.family is Some
    &&& package.family->0@ == family
    &&& package.display_name is Some
    &&& package.display_name->0@.len() > 0
    &&& package.display_name->0@ != family
}

proof fn store_name_is_first(packages: Seq<PackageEntry>, family: Seq<char>)
    ensures
        store_name(packages, family) matches Some(n) ==> exists|i: int|
            0 <= i < packages.len() && #[trigger] is_named_by(packages[i], family, n) && forall|
                j: int,
            |
                0 <= j < i ==> !has_own_name(#[trigger] packages[j], family),
        store_name(packages, family) is None ==> forall|j: int|
            0 <= j < packages.len() ==> !has_own_name(#[trigger] packages[j], family),
    decreases packages.len(),
{
    if packages.len() > 0 {
        if names_family(packages[0], family) {
            assert(is_named_by(packages[0], family, store_name(packages, family)->0));
        } else {
            let rest = packages.drop_first();
            store_name_is_first(rest, family);
            assert(!has_own_name(packages[0], family));
            assert forall|j: int| 0 < j < packages.len() implies packages[j] == #[trigger] rest[j
                - 1] by {}
            if store_name(rest, family) is Some {
                let n = store_name(rest, family)->0;
                let i = choose|i: int|
                    0 <= i < rest.len() && #[trigger] is_named_by(rest[i], family, n) && forall|
                        j: int,
                    |
                        0 <= j < i ==> !has_own_name(#[trigger] rest[j], family);
                assert(is_named_by(packages[i + 1], family, n));
                assert forall|j: int| 0 <= j < i + 1 implies !has_own_name(
                    #[trigger] packages[j],
                    family,
                ) by {
                    if j > 0 {
                        assert(!has_own_name(rest[j - 1], family));
                    }
                }
            } else {
                assert forall|j: int| 0 <= j < packages.len() implies !has_own_name(
                    #[trigger] packages[j],
                    family,
                ) by {
                    if j > 0 {
                        assert(!has_own_name(rest[j - 1], family));
                    }
                }
            }
        }
    }
}

/// An identifier of at most twenty bytes is shown in full; of a longer one the first twenty bytes
/// are shown, and three dots.
pub proof fn long_identifiers_are_cut_after_twenty_bytes(aumid: &str, name: String)
    requires
        can_be_cut(aumid@),
        call_ensures(get_fallback_display_name, (aumid,), name),
    ensures
        vstd::utf8::encode_utf8(aumid@).len() <= 20 ==> name@ == aumid@,
        vstd::utf8::encode_utf8(aumid@).len() > 20 ==> exists|shown: Seq<char>| #[trigger]
            vstd::utf8::encode_utf8(shown) == vstd::utf8::encode_utf8(aumid@).take(20) && name@
                == shown + "..."@,
{
    let bytes = vstd::utf8::encode_utf8(aumid@);
    if bytes.len() > 20 {
        vstd::utf8::encode_utf8_valid_utf8(aumid@);
        vstd::utf8::valid_utf8_split(bytes, 20);
        let head = bytes.subrange(0, 20);
        assert(head =~= bytes.take(20));
        vstd::utf8::decode_utf8_encode_utf8(head);
        let shown = vstd::utf8::decode_utf8(head);
        assert(vstd::utf8::encode_utf8(shown) == bytes.take(20));
    }
}

/// An application is shown under the name on record; else, if it comes from the store and a package
/// names it, under that name; else under its identifier. Without an identifier it has no name.
pub proof fn names_are_taken_in_order(
    names: Map<Seq<char>, Seq<char>>,
    aumid: Seq<char>,
    packages: Seq<PackageEntry>,
)
    ensures
        aumid.len() == 0 ==> display_name(names, aumid, packages).len() == 0,
        aumid.len() > 0 && names.contains_key(aumid) ==> display_name(names, aumid, packages)
            == names[aumid],
        aumid.len() > 0 && !names.contains_key(aumid) && aumid.contains('!') && aumid.contains('_')
            && store_name(packages, family_name(aumid)) is Some ==> display_name(
            names,
            aumid,
            packages,
        ) == store_name(packages, family_name(aumid))->0,
        aumid.len() > 0 && !names.contains_key(aumid) && !(aumid.contains('!') && aumid.contains(
            '_',
        )) ==> display_name(names, aumid, packages) == fallback_name(aumid),
        aumid.len() > 0 && !names.contains_key(aumid) && store_name(packages, family_name(aumid))
            is None ==> display_name(names, aumid, packages) == fallback_name(aumid),
        vstd::utf8::encode_utf8(aumid).len() <= 20 ==> fallback_name(aumid) == aumid,
{
}

/// A name that an application was shown under is the one it is shown under from then on; no other
/// application's name changes.
pub proof fn shown_names_go_on_record(
    names: Map<Seq<char>, Seq<char>>,
    aumid: Seq<char>,
    packages: Seq<PackageEntry>,
    later_packages: Seq<PackageEntry>,
    other: Seq<char>,
)
    requires
        aumid.len() > 0,
        other != aumid,
    ensures
        ({
            let name = display_name(names, aumid, packages);
            let after = on_record(names, aumid, name);
            &&& after.contains_key(aumid)
            &&& after[aumid] == name
            &&& display_name(after, aumid, later_packages) == name
            &&& after.contains_key(other) <==> names.contains_key(other)
            &&& names.contains_key(other) ==> after[other] == names[other]
        }),
        on_record(names, seq![], aumid) == names,
{
}

/// Packages are asked for only for an application from the store that has no name on record.
pub proof fn packages_are_asked_for_store_apps(names: &DisplayNames, aumid: &str, needed: bool)
    requires
        call_ensures(DisplayNames::needs_packages, (names, aumid), needed),
    ensures
        needed <==> aumid@.contains('!') && aumid@.contains('_') && !names@.contains_key(aumid@),
{
}

/// An application can be named if its identifier is short, or a character ends behind its first
/// twenty bytes; or if it has a name on record; or if it comes from the store and a package names
/// it. No other can.
pub proof fn what_can_be_named(
    names: &DisplayNames,
    aumid: &str,
    packages: &Vec<PackageEntry>,
    able: bool,
)
    requires
        call_ensures(DisplayNames::can_name, (names, aumid, packages), able),
    ensures
        able <==> {
            ||| vstd::utf8::encode_utf8(aumid@).len() <= 20
            ||| vstd::utf8::is_char_boundary(vstd::utf8::encode_utf8(aumid@), 20)
            ||| names@.contains_key(aumid@)
            ||| aumid@.contains('!') && aumid@.contains('_') && store_name(
                packages@,
                family_name(aumid@),
            ) is Some
        },
{
    if aumid@.len() == 0 {
        assert(vstd::utf8::encode_utf8(aumid@).len() == 0);
    }
}

} // verus!
