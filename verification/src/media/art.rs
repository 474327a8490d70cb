//! Album art: how songs are told apart, and the cache of the art that was found for them.
use vstd::prelude::*;
use crate::text::text_eq;

verus! {

/// The number of songs whose art is kept.
pub const CACHE_CAPACITY: usize = 30;

/// The seconds that must have passed since art was last fetched before the art of another
/// song, though it is kept, is fetched anew.
pub const ART_REFRESH_SECS: u64 = 30;

/// The identifier of a song: title, artist and album with a bar between each two.
pub open spec fn song_id(title: Seq<char>, artist: Seq<char>, album: Seq<char>) -> Seq<char> {
    title.push('|') + artist.push('|') + album
}

/// The identifier under which the art of a song is kept.
pub fn generate_song_id(title: &str, artist: &str, album: &str) -> (id: String)
    ensures
        id@ == song_id(title@, artist@, album@),
{
    let mut id = title.to_owned();
    id.push('|');
    id.append(artist);
    id.push('|');
    id.append(album);
    assert(id@ =~= song_id(title@, artist@, album@));
    id
}

/// Songs with the same identifier are the same song, as long as neither the titles nor the
/// artists hold the bar that separates them.
pub proof fn song_ids_tell_songs_apart(
    title1: Seq<char>,
    artist1: Seq<char>,
    album1: Seq<char>,
    title2: Seq<char>,
    artist2: Seq<char>,
    album2: Seq<char>,
)
    requires
        song_id(title1, artist1, album1) == song_id(title2, artist2, album2),
        !title1.contains('|'),
        !title2.contains('|'),
        !artist1.contains('|'),
        !artist2.contains('|'),
    ensures
        title1 == title2,
        artist1 == artist2,
        album1 == album2,
{
    let (rest1, rest2) = (artist1.push('|') + album1, artist2.push('|') + album2);
    assert(song_id(title1, artist1, album1) =~= title1.push('|') + rest1);
    assert(song_id(title2, artist2, album2) =~= title2.push('|') + rest2);
    first_bar_separates(title1, rest1, title2, rest2);
    first_bar_separates(artist1, album1, artist2, album2);
}

/// What stands before the first bar of a text, and what stands behind it, is determined by the
/// text.
proof fn first_bar_separates(a1: Seq<char>, b1: Seq<char>, a2: Seq<char>, b2: Seq<char>)
    requires
        a1.push('|') + b1 == a2.push('|') + b2,
        !a1.contains('|'),
        !a2.contains('|'),
    ensures
        a1 == a2,
        b1 == b2,
{
    let (t1, t2) = (a1.push('|') + b1, a2.push('|') + b2);
    assert(t1[a1.len() as int] == '|' && t2[a2.len() as int] == '|');
    if a1.len() < a2.len() {
        assert(t2[a1.len() as int] == a2[a1.len() as int]);
    }
    if a2.len() < a1.len() {
        assert(t1[a2.len() as int] == a1[a2.len() as int]);
    }
    assert(a1 =~= t1.subrange(0, a1.len() as int));
    assert(a2 =~= t2.subrange(0, a2.len() as int));
    assert(b1 =~= t1.subrange(a1.len() as int + 1, t1.len() as int));
    assert(b2 =~= t2.subrange(a2.len() as int + 1, t2.len() as int));
}

/// Art is fetched for a song of which none is kept, and for a song that differs from the last
/// one whose art was looked up if the last fetch is long enough ago.
pub open spec fn art_due(
    kept: bool,
    id: Seq<char>,
    last_id: Seq<char>,
    timestamp: u64,
    last_fetch: u64,
) -> bool {
    !kept || (id != last_id && timestamp - last_fetch > ART_REFRESH_SECS)
}

/// Whether art is to be fetched for the song `id`.
pub fn is_art_due(kept: bool, id: &str, last_id: &str, timestamp: u64, last_fetch: u64) -> (due:
    bool)
    ensures
        due == art_due(kept, id@, last_id@, timestamp, last_fetch),
{
    !kept || (!text_eq(id, last_id) && timestamp.saturating_sub(last_fetch) > ART_REFRESH_SECS)
}

/// The art that is kept for a song, and the second in which it was stored.
pub struct CachedArt {
    pub art: Seq<char>,
    pub stored_at: u64,
}

#[derive(Debug)]
struct ArtEntry {
    song_id: String,
    art: String,
    stored_at: u64,
}

/// The art of the songs that were played last, by song identifier.
#[derive(Debug)]
pub struct AlbumArtCache {
    entries: Vec<ArtEntry>,
}

spec fn entry_of(entries: Seq<ArtEntry>, id: Seq<char>) -> int {
    choose|i: int| 0 <= i < entries.len() && entries[i].song_id@ == id
}

spec fn has_entry(entries: Seq<ArtEntry>, id: Seq<char>) -> bool {
    exists|i: int| 0 <= i < entries.len() && entries[i].song_id@ == id
}

spec fn contents(entries: Seq<ArtEntry>) -> Map<Seq<char>, CachedArt> {
    Map::new(
        |id: Seq<char>| has_entry(entries, id),
        |id: Seq<char>| cached(entries[entry_of(entries, id)]),
    )
}

spec fn cached(entry: ArtEntry) -> CachedArt {
    CachedArt { art: entry.art@, stored_at: entry.stored_at }
}

spec fn distinct(entries: Seq<ArtEntry>) -> bool {
    forall|i: int, j: int|
        0 <= i < j < entries.len() ==> #[trigger] entries[i].song_id@
            != #[trigger] entries[j].song_id@
}

impl View for AlbumArtCache {
    type V = Map<Seq<char>, CachedArt>;

    closed spec fn view(&self) -> Map<Seq<char>, CachedArt> {
        contents(self.entries@)
    }
}

/// `victim` is an entry that a full cache gives up: none was stored earlier, and the entry that
/// was just stored goes only if all others were stored later.
pub open spec fn may_leave(
    full: Map<Seq<char>, CachedArt>,
    stored: Seq<char>,
    victim: Seq<char>,
) -> bool {
    &&& full.contains_key(victim)
    &&& forall|id: Seq<char>| #[trigger]
        full.contains_key(id) ==> full[victim].stored_at <= full[id].stored_at
    &&& victim == stored ==> forall|id: Seq<char>| #[trigger]
        full.contains_key(id) && id != stored ==> full[victim].stored_at < full[id].stored_at
}

/// A cache after art was stored for the song `id`. Art that was kept for it is replaced; if the
/// cache then holds more songs than it keeps, one of those stored first leaves.
pub open spec fn stores(
    before: Map<Seq<char>, CachedArt>,
    id: Seq<char>,
    art: Seq<char>,
    stored_at: u64,
    after: Map<Seq<char>, CachedArt>,
) -> bool {
    let full = before.insert(id, CachedArt { art, stored_at });
    if full.len() <= CACHE_CAPACITY {
        after == full
    } else {
        exists|victim: Seq<char>| #[trigger]
            may_leave(full, id, victim) && after == full.remove(victim)
    }
}

impl AlbumArtCache {
    #[verifier::type_invariant]
    spec fn wf(self) -> bool {
        distinct(self.entries@) && self.entries@.len() <= CACHE_CAPACITY
    }

    /// A cache that holds no art.
    pub fn new() -> (cache: Self)
        ensures
            cache@.dom() == Set::<Seq<char>>::empty(),
    {
        let cache = AlbumArtCache { entries: Vec::new() };
        assert(cache@.dom() =~= Set::<Seq<char>>::empty());
        cache
    }

    fn position(&self, song_id: &str) -> (position: Option<usize>)
        ensures
            position is None <==> !has_entry(self.entries@, song_id@),
            position matches Some(i) ==> i < self.entries.len() && self.entries@[i as int].song_id@
                == song_id@,
    {
        let mut i: usize = 0;
        while i < self.entries.len()
            invariant
                i <= self.entries.len(),
                forall|j: int| 0 <= j < i ==> self.entries@[j].song_id@ != song_id@,
            decreases self.entries.len() - i,
        {
            if text_eq(self.entries[i].song_id.as_str(), song_id) {
                return Some(i);
            }
            i += 1;
        }
        None
    }

    /// The art that is kept for a song.
    pub fn get_cached_album_art(&self, song_id: &str) -> (art: Option<String>)
        ensures
            art is Some <==> self@.contains_key(song_id@),
            art matches Some(a) ==> a@ == self@[song_id@].art,
            self@.dom().finite(),
            self@.len() <= CACHE_CAPACITY,
    {
        proof {
            use_type_invariant(self);
            content_length(self.entries@);
        }
        match self.position(song_id) {
            Some(i) => {
                proof {
                    entry_is_content(self.entries@, i as int);
                }
                Some(self.entries[i].art.clone())
            },
            None => None,
        }
    }

    /// Stores the art of a song.
    pub fn set_cached_album_art(&mut self, song_id: &str, art: String, stored_at: u64)
        ensures
            stores(old(self)@, song_id@, art@, stored_at, final(self)@),
            old(self)@.dom().finite() && old(self)@.len() <= CACHE_CAPACITY,
            final(self)@.dom().finite() && final(self)@.len() <= CACHE_CAPACITY,
    {
        proof {
            use_type_invariant(&*self);
            content_length(self.entries@);
        }
        let position = self.position(song_id);
        let ghost before = self.entries@;
        let ghost full = contents(before).insert(song_id@, CachedArt { art: art@, stored_at });
        let entry = ArtEntry { song_id: song_id.to_owned(), art, stored_at };
        let mut entries: Vec<ArtEntry> = Vec::new();
        std::mem::swap(&mut self.entries, &mut entries);
        match position {
            Some(i) => {
                entries.set(i, entry);
                proof {
                    replaced_entry(before, entry, i as int);
                    content_length(entries@);
                }
            },
            None => {
                entries.push(entry);
                proof {
                    added_entry(before, entry);
                    content_length(entries@);
                }
            },
        }
        assert(contents(entries@) == full);
        if entries.len() > CACHE_CAPACITY {
            let victim = Self::first_stored(&entries);
            let ghost all = entries@;
            proof {
                entry_is_content(all, victim as int);
                assert forall|id: Seq<char>| #[trigger] full.contains_key(id) implies full[all[victim as int].song_id@].stored_at
                    <= full[id].stored_at && (victim == all.len() - 1 && id != song_id@
                    ==> full[all[victim as int].song_id@].stored_at < full[id].stored_at) by {
                    entry_is_content(all, entry_of(all, id));
                }
                removed_entry(all, victim as int);
            }
            entries.remove(victim);
            assert(may_leave(full, song_id@, all[victim as int].song_id@));
        }
        proof {
            content_length(entries@);
        }
        std::mem::swap(&mut self.entries, &mut entries);
    }

    /// The position of the first of the entries that were stored first.
    fn first_stored(entries: &Vec<ArtEntry>) -> (position: usize)
        requires
            entries.len() > 0,
        ensures
            position < entries.len(),
            forall|j: int|
                0 <= j < entries.len() ==> entries@[position as int].stored_at
                    <= (#[trigger] entries@[j]).stored_at,
            forall|j: int|
                0 <= j < position ==> entries@[position as int].stored_at
                    < (#[trigger] entries@[j]).stored_at,
    {
        let mut position: usize = 0;
        let mut i: usize = 1;
        while i < entries.len()
            invariant
                position < i <= entries.len(),
                forall|j: int|
                    0 <= j < i ==> entries@[position as int].stored_at
                        <= (#[trigger] entries@[j]).stored_at,
                forall|j: int|
                    0 <= j < position ==> entries@[position as int].stored_at
                        < (#[trigger] entries@[j]).stored_at,
            decreases entries.len() - i,
        {
            if entries[i].stored_at < entries[position].stored_at {
                position = i;
            }
            i += 1;
        }
        position
    }
}

proof fn entry_is_content(entries: Seq<ArtEntry>, i: int)
    requires
        distinct(entries),
        0 <= i < entries.len(),
    ensures
        contents(entries).contains_key(entries[i].song_id@),
        contents(entries)[entries[i].song_id@] == cached(entries[i]),
{
    let k = entry_of(entries, entries[i].song_id@);
    assert(has_entry(entries, entries[i].song_id@));
    if k < i {
        assert(entries[k].song_id@ != entries[i].song_id@);
    } else if i < k {
        assert(entries[i].song_id@ != entries[k].song_id@);
    }
}

proof fn replaced_entry(entries: Seq<ArtEntry>, entry: ArtEntry, i: int)
    requires
        distinct(entries),
        0 <= i < entries.len(),
        entries[i].song_id@ == entry.song_id@,
    ensures
        distinct(entries.update(i, entry)),
        contents(entries.update(i, entry)) == contents(entries).insert(
            entry.song_id@,
            cached(entry),
        ),
{
    let after = entries.update(i, entry);
    assert(distinct(after));
    let expected = contents(entries).insert(entry.song_id@, cached(entry));
    assert forall|id: Seq<char>| contents(after).contains_key(id) == expected.contains_key(id) by {
        if has_entry(after, id) {
            let k = entry_of(after, id);
            assert(entries[k].song_id@ == id);
        }
        if has_entry(entries, id) {
            let k = entry_of(entries, id);
            assert(after[k].song_id@ == id);
        }
        assert(after[i].song_id@ == entry.song_id@);
    }
    assert forall|id: Seq<char>| contents(after).contains_key(id) implies contents(after)[id]
        == expected[id] by {
        let k = entry_of(after, id);
        entry_is_content(after, k);
        entry_is_content(entries, k);
    }
    assert(contents(after) =~= expected);
}

proof fn added_entry(entries: Seq<ArtEntry>, entry: ArtEntry)
    requires
        distinct(entries),
        !has_entry(entries, entry.song_id@),
    ensures
        distinct(entries.push(entry)),
        contents(entries.push(entry)) == contents(entries).insert(entry.song_id@, cached(entry)),
{
    let after = entries.push(entry);
    assert(distinct(after));
    let n = entries.len() as int;
    let expected = contents(entries).insert(entry.song_id@, cached(entry));
    assert forall|id: Seq<char>| contents(after).contains_key(id) == expected.contains_key(id) by {
        if has_entry(after, id) {
            let k = entry_of(after, id);
            if k < n {
                assert(entries[k].song_id@ == id);
            }
        }
        if has_entry(entries, id) {
            let k = entry_of(entries, id);
            assert(after[k].song_id@ == id);
        }
        assert(after[n].song_id@ == entry.song_id@);
    }
    assert forall|id: Seq<char>| contents(after).contains_key(id) implies contents(after)[id]
        == expected[id] by {
        let k = entry_of(after, id);
        entry_is_content(after, k);
        if k < n {
            entry_is_content(entries, k);
        }
    }
    assert(contents(after) =~= expected);
}

proof fn removed_entry(entries: Seq<ArtEntry>, i: int)
    requires
        distinct(entries),
        0 <= i < entries.len(),
    ensures
        distinct(entries.remove(i)),
        contents(entries.remove(i)) == contents(entries).remove(entries[i].song_id@),
{
    let after = entries.remove(i);
    assert(distinct(after));
    let expected = contents(entries).remove(entries[i].song_id@);
    assert forall|id: Seq<char>| contents(after).contains_key(id) == expected.contains_key(id) by {
        if has_entry(after, id) {
            let k = entry_of(after, id);
            let m = if k < i {
                k
            } else {
                k + 1
            };
            assert(entries[m].song_id@ == id);
            assert(m < i ==> entries[m].song_id@ != entries[i].song_id@);
            assert(i < m ==> entries[i].song_id@ != entries[m].song_id@);
        }
        if has_entry(entries, id) && id != entries[i].song_id@ {
            let k = entry_of(entries, id);
            let m = if k < i {
                k
            } else {
                k - 1
            };
            assert(after[m].song_id@ == id);
        }
    }
    assert forall|id: Seq<char>| contents(after).contains_key(id) implies contents(after)[id]
        == expected[id] by {
        let k = entry_of(after, id);
        entry_is_content(after, k);
        entry_is_content(
            entries,
            if k < i {
                k
            } else {
                k + 1
            },
        );
    }
    assert(contents(after) =~= expected);
}

proof fn content_length(entries: Seq<ArtEntry>)
    requires
        distinct(entries),
    ensures
        contents(entries).dom().finite(),
        contents(entries).len() == entries.len(),
    decreases entries.len(),
{
    if entries.len() == 0 {
        assert(contents(entries).dom() =~= Set::<Seq<char>>::empty());
    } else {
        let rest = entries.drop_last();
        content_length(rest);
        if has_entry(rest, entries.last().song_id@) {
            let k = entry_of(rest, entries.last().song_id@);
            assert(entries[k].song_id@ == entries[entries.len() - 1].song_id@);
        }
        added_entry(rest, entries.last());
        assert(rest.push(entries.last()) =~= entries);
    }
}

/// A cache never keeps more songs than its capacity.
pub proof fn cache_stays_within_capacity(
    before: Map<Seq<char>, CachedArt>,
    id: Seq<char>,
    art: Seq<char>,
    stored_at: u64,
    after: Map<Seq<char>, CachedArt>,
)
    requires
        stores(before, id, art, stored_at, after),
        before.dom().finite(),
        before.len() <= CACHE_CAPACITY,
    ensures
        after.dom().finite(),
        after.len() <= CACHE_CAPACITY,
{
}

/// Stored art is found again, unless the cache was full of other songs that were all stored
/// later, which takes a clock that was set back.
pub proof fn stored_art_is_found(
    before: Map<Seq<char>, CachedArt>,
    id: Seq<char>,
    art: Seq<char>,
    stored_at: u64,
    after: Map<Seq<char>, CachedArt>,
)
    requires
        stores(before, id, art, stored_at, after),
        before.dom().finite(),
        before.contains_key(id) && before.len() <= CACHE_CAPACITY || before.len() < CACHE_CAPACITY || (exists|
            other: Seq<char>,
        | #[trigger]
            before.contains_key(other) && other != id && before[other].stored_at <= stored_at),
    ensures
        after.contains_key(id),
        after[id].art == art,
{
    let full = before.insert(id, CachedArt { art, stored_at });
    if full.len() > CACHE_CAPACITY {
        let other = choose|other: Seq<char>| #[trigger]
            before.contains_key(other) && other != id && before[other].stored_at <= stored_at;
        assert(full.contains_key(other));
    }
}

/// Storing art changes no other song's art, and makes at most one other song's art go.
pub proof fn storing_keeps_other_art(
    before: Map<Seq<char>, CachedArt>,
    id: Seq<char>,
    art: Seq<char>,
    stored_at: u64,
    after: Map<Seq<char>, CachedArt>,
    other1: Seq<char>,
    other2: Seq<char>,
)
    requires
        stores(before, id, art, stored_at, after),
        before.contains_key(other1),
        before.contains_key(other2),
        other1 != other2,
        other1 != id,
        other2 != id,
    ensures
        after.contains_key(other1) || after.contains_key(other2),
        after.contains_key(other1) ==> after[other1] == before[other1],
        after.contains_key(other2) ==> after[other2] == before[other2],
{
}

/// A song's identifier is its title, artist and album, in this order, with a bar between each two.
pub proof fn song_ids_hold_title_artist_and_album(
    title: &str,
    artist: &str,
    album: &str,
    id: String,
)
    requires
        call_ensures(generate_song_id, (title, artist, album), id),
    ensures
        id@ == title@ + seq!['|'] + artist@ + seq!['|'] + album@,
        id@ == song_id(title@, artist@, album@),
{
    assert(id@ =~= title@ + seq!['|'] + artist@ + seq!['|'] + album@);
}

/// Art of which none is kept is due. Kept art of the song that was looked up last never is, and
/// that of another song is once the last fetch is more than half a minute ago.
pub proof fn art_is_due_when_missing_or_old(
    kept: bool,
    id: &str,
    last_id: &str,
    timestamp: u64,
    last_fetch: u64,
    due: bool,
)
    requires
        call_ensures(is_art_due, (kept, id, last_id, timestamp, last_fetch), due),
    ensures
        !kept ==> due,
        kept && id@ == last_id@ ==> !due,
        kept && id@ != last_id@ ==> (due <==> timestamp > last_fetch + 30),
{
}

/// With fewer than thirty songs nothing is given up: the stored art is added, or replaces what was
/// kept for its song.
pub proof fn little_art_is_all_kept(
    before: Map<Seq<char>, CachedArt>,
    id: Seq<char>,
    art: Seq<char>,
    stored_at: u64,
    after: Map<Seq<char>, CachedArt>,
)
    requires
        stores(before, id, art, stored_at, after),
        before.dom().finite(),
        before.len() < 30 || (before.contains_key(id) && before.len() <= 30),
    ensures
        after.contains_key(id),
        after[id].art == art,
        after[id].stored_at == stored_at,
        forall|other: Seq<char>|
            other != id ==> (#[trigger] after.contains_key(other) <==> before.contains_key(other)),
        forall|other: Seq<char>|
            other != id && before.contains_key(other) ==> #[trigger] after[other]
                == before[other],
{
}

/// With thirty songs and one more, the art of exactly one goes, and none that stays was stored
/// before it.
pub proof fn what_was_stored_first_goes_first(
    before: Map<Seq<char>, CachedArt>,
    id: Seq<char>,
    art: Seq<char>,
    stored_at: u64,
    after: Map<Seq<char>, CachedArt>,
)
    requires
        stores(before, id, art, stored_at, after),
        before.dom().finite(),
        before.len() == 30,
        !before.contains_key(id),
    ensures
        after.len() == 30,
        forall|other: Seq<char>| #[trigger]
            after.contains_key(other) ==> other == id || (before.contains_key(other)
                && after[other] == before[other]),
        forall|gone: Seq<char>, kept: Seq<char>| #[trigger]
            before.contains_key(gone) && !after.contains_key(gone) && #[trigger]
            after.contains_key(kept) ==> before[gone].stored_at <= after[kept].stored_at,
        forall|gone: Seq<char>, other: Seq<char>| #[trigger]
            before.contains_key(gone) && !after.contains_key(gone) && #[trigger]
            before.contains_key(other) && !after.contains_key(other) ==> gone == other,
        after.contains_key(id) ==> after[id].art == art && after[id].stored_at == stored_at,
{
}

/// What a lookup gives is the art that is kept under the identifier, and only that.
pub proof fn lookups_give_what_is_kept(cache: &AlbumArtCache, song_id: &str, art: Option<String>)
    requires
        call_ensures(AlbumArtCache::get_cached_album_art, (cache, song_id), art),
    ensures
        cache@.contains_key(song_id@) ==> (art matches Some(a) && a@ == cache@[song_id@].art),
        !cache@.contains_key(song_id@) ==> art is None,
        cache@.len() <= 30,
{
}

} // verus!
