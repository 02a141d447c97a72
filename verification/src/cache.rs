//! The image-URL cache: a flat list of `{id, url, timestamp?}` records
//! persisted by the caller as one JSON document.  Entries without a
//! timestamp never expire; entries with one expire after seventy-two
//! hours and are then replaced.

use vstd::prelude::*;
use crate::text::str_eq;

verus! {

/// One cached image URL: the item it belongs to, the hosted URL, and,
/// for hosts whose links expire, when it was uploaded.
#[derive(Debug, Clone)]
pub struct ImageUrl {
    /// The resolved id of the item whose image was uploaded.
    pub id: String,
    /// The hosted image URL.
    pub url: String,
    /// Upload time in seconds since the epoch; absent for hosts whose
    /// links never expire.
    pub timestamp: Option<i64>,
}

impl ImageUrl {
    /// A cache record for `id` holding `url`, uploaded at `timestamp`.
    pub fn new(id: String, url: String, timestamp: Option<i64>) -> (r: Self)
        ensures
            r.id == id,
            r.url == url,
            r.timestamp == timestamp,
    {
        Self { id, url, timestamp }
    }
}

/// How long an expiring link stays valid: seventy-two hours, in seconds.
pub open spec fn expiry_secs() -> int {
    259200
}

/// Whether a cache record is still valid at `now`: records without a
/// timestamp always are; others until seventy-two hours have passed.
pub open spec fn entry_fresh(e: ImageUrl, now: int) -> bool {
    match e.timestamp {
        Option::None => true,
        Option::Some(ts) => now - ts < expiry_secs(),
    }
}

/// Whether some record carries `id`.
pub open spec fn has_entry(entries: Seq<ImageUrl>, id: Seq<char>) -> bool {
    exists|i: int| 0 <= i < entries.len() && entries[i].id@ == id
}

/// The position of the first record carrying `id`, or `-1`.
pub open spec fn find_spec(entries: Seq<ImageUrl>, id: Seq<char>) -> int
    decreases entries.len(),
{
    if entries.len() == 0 {
        -1
    } else if entries[0].id@ == id {
        0
    } else {
        let r = find_spec(entries.drop_first(), id);
        if r == -1 {
            -1
        } else {
            r + 1
        }
    }
}

/// `find_spec` names the first record carrying `id`, and `-1` exactly
/// when there is none.
pub proof fn lemma_find_spec_props(entries: Seq<ImageUrl>, id: Seq<char>)
    ensures
        find_spec(entries, id) == -1 ==> !has_entry(entries, id),
        find_spec(entries, id) != -1 ==> 0 <= find_spec(entries, id) < entries.len()
            && entries[find_spec(entries, id)].id@ == id && (forall|j: int|
            0 <= j < find_spec(entries, id) ==> entries[j].id@ != id),
    decreases entries.len(),
{
    if entries.len() > 0 && entries[0].id@ != id {
        lemma_find_spec_props(entries.drop_first(), id);
        let r = find_spec(entries.drop_first(), id);
        if r == -1 {
            assert forall|i: int| 0 <= i < entries.len() implies entries[i].id@ != id by {
                if i > 0 {
                    assert(entries.drop_first()[i - 1] == entries[i]);
                }
            }
        } else {
            assert(entries.drop_first()[r] == entries[r + 1]);
            assert forall|j: int| 0 <= j < r + 1 implies entries[j].id@ != id by {
                if j > 0 {
                    assert(entries.drop_first()[j - 1] == entries[j]);
                }
            }
        }
    }
}

/// What a cache lookup found.
#[derive(Debug, Clone)]
pub enum CacheLookup {
    /// A record exists and is still valid: its URL.
    Fresh(String),
    /// A record exists but its link has expired.
    Expired,
    /// No record carries the id.
    Missing,
}

/// What [`UrlCache::lookup`] returns: the first record carrying the id
/// decides, and its freshness at `now`.
pub open spec fn lookup_spec(entries: Seq<ImageUrl>, id: Seq<char>, now: int) -> CacheLookup {
    let i = find_spec(entries, id);
    if i == -1 {
        CacheLookup::Missing
    } else if entry_fresh(entries[i], now) {
        CacheLookup::Fresh(entries[i].url)
    } else {
        CacheLookup::Expired
    }
}

/// No two records carry the same id.
pub open spec fn ids_unique(entries: Seq<ImageUrl>) -> bool {
    forall|i: int, j: int|
        0 <= i < j < entries.len() ==> (#[trigger] entries[i].id@) != (#[trigger] entries[j].id@)
}

/// The image-URL cache, read from disk in full, changed in memory, and
/// written back in full by the caller.
#[derive(Debug, Clone)]
pub struct UrlCache {
    /// The records, in file order.
    pub entries: Vec<ImageUrl>,
}

impl UrlCache {
    /// An empty cache, as a missing or unreadable cache file is treated.
    pub fn empty() -> (r: Self)
        ensures
            r.entries@ =~= Seq::<ImageUrl>::empty(),
    {
        Self { entries: Vec::new() }
    }

    /// A cache over records the caller read from the cache file.
    pub fn from_entries(entries: Vec<ImageUrl>) -> (r: Self)
        ensures
            r.entries == entries,
    {
        Self { entries }
    }

    /// The position of the first record carrying `id`.
    pub fn find(&self, id: &str) -> (r: Option<usize>)
        ensures
            match r {
                Option::Some(i) => find_spec(self.entries@, id@) == i as int,
                Option::None => find_spec(self.entries@, id@) == -1,
            },
    {
        let mut i: usize = 0;
        while i < self.entries.len()
            invariant
                i <= self.entries@.len(),
                forall|j: int| 0 <= j < i ==> self.entries@[j].id@ != id@,
            decreases self.entries@.len() - i,
        {
            if str_eq(self.entries[i].id.as_str(), id) {
                proof {
                    lemma_find_spec_props(self.entries@, id@);
                    if find_spec(self.entries@, id@) == -1 {
                        assert(self.entries@[i as int].id@ == id@);
                        assert(false);
                    }
                    let f = find_spec(self.entries@, id@);
                    assert(!(f < i) && !(i < f));
                }
                return Some(i);
            }
            i = i + 1;
        }
        proof {
            lemma_find_spec_props(self.entries@, id@);
            if find_spec(self.entries@, id@) != -1 {
                assert(false);
            }
        }
        None
    }

    /// Looks `id` up: the first record carrying it decides, judged for
    /// freshness at `now`.
    pub fn lookup(&self, id: &str, now: i64) -> (r: CacheLookup)
        ensures
            r == lookup_spec(self.entries@, id@, now as int),
    {
        proof {
            lemma_find_spec_props(self.entries@, id@);
        }
        match self.find(id) {
            None => CacheLookup::Missing,
            Some(i) => {
                let e = &self.entries[i];
                match e.timestamp {
                    None => CacheLookup::Fresh(e.url.clone()),
                    Some(ts) => {
                        if (now as i128) - (ts as i128) < 259200i128 {
                            CacheLookup::Fresh(e.url.clone())
                        } else {
                            CacheLookup::Expired
                        }
                    },
                }
            },
        }
    }

    /// Appends a record; the caller looks up first, so the id is not yet
    /// present.
    pub fn put(&mut self, entry: ImageUrl)
        ensures
            final(self).entries@ == old(self).entries@.push(entry),
    {
        self.entries.push(entry);
    }

    /// Removes the first record carrying `id`, if one exists.
    pub fn remove_entry(&mut self, id: &str)
        ensures
            ({
                let f = find_spec(old(self).entries@, id@);
                if f == -1 {
                    final(self).entries@ == old(self).entries@
                } else {
                    final(self).entries@ == old(self).entries@.remove(f)
                }
            }),
    {
        proof {
            lemma_find_spec_props(self.entries@, id@);
        }
        match self.find(id) {
            None => {},
            Some(i) => {
                self.entries.remove(i);
            },
        }
    }
}

/// A hosted image URL, as an upload backend hands it back.
#[derive(Debug, Default)]
pub struct Imgur {
    /// The hosted image URL.
    pub url: String,
}

/// Looking up an id right after its record was put into a cache that did
/// not hold it returns that record's URL, with no upload: the cache
/// round trip.
pub proof fn lemma_cache_round_trip(entries: Seq<ImageUrl>, e: ImageUrl, now: int)
    requires
        !has_entry(entries, e.id@),
        entry_fresh(e, now),
    ensures
        lookup_spec(entries.push(e), e.id@, now) == CacheLookup::Fresh(e.url),
    decreases entries.len(),
{
    let p = entries.push(e);
    if entries.len() == 0 {
        assert(p[0] == e);
        assert(find_spec(p, e.id@) == 0);
        assert(lookup_spec(p, e.id@, now) == CacheLookup::Fresh(e.url));
    } else {
        assert(entries[0].id@ != e.id@) by {
            if entries[0].id@ == e.id@ {
                assert(has_entry(entries, e.id@));
            }
        }
        assert(p[0] == entries[0]);
        assert(p.drop_first() =~= entries.drop_first().push(e));
        assert forall|i: int|
            0 <= i < entries.drop_first().len() implies entries.drop_first()[i].id@ != e.id@ by {
            assert(entries.drop_first()[i] == entries[i + 1]);
            if entries[i + 1].id@ == e.id@ {
                assert(has_entry(entries, e.id@));
            }
        }
        assert(!has_entry(entries.drop_first(), e.id@));
        lemma_cache_round_trip(entries.drop_first(), e, now);
        let q = p.drop_first();
        lemma_find_spec_props(q, e.id@);
        let f = find_spec(q, e.id@);
        assert(f != -1);
        assert(0 <= f < q.len());
        assert(find_spec(p, e.id@) == f + 1);
        assert(p[f + 1] == q[f]);
        assert(entry_fresh(q[f], now));
        assert(q[f].url == e.url);
        assert(lookup_spec(p, e.id@, now) == CacheLookup::Fresh(e.url));
    }
}

/// An expired record is not returned as it stands: the lookup reports it
/// expired, and after the one replacement upload — remove the stale
/// record, put the fresh one — the lookup returns the new URL with its
/// new timestamp.
pub proof fn lemma_cache_ttl_replacement(
    entries: Seq<ImageUrl>,
    id: Seq<char>,
    now: int,
    e_new: ImageUrl,
)
    requires
        ids_unique(entries),
        lookup_spec(entries, id, now) == CacheLookup::Expired,
        e_new.id@ == id,
        entry_fresh(e_new, now),
    ensures
        !(lookup_spec(entries, id, now) is Fresh),
        lookup_spec(entries.remove(find_spec(entries, id)).push(e_new), id, now)
            == CacheLookup::Fresh(e_new.url),
{
    lemma_find_spec_props(entries, id);
    let f = find_spec(entries, id);
    let removed = entries.remove(f);
    assert(!has_entry(removed, id)) by {
        if has_entry(removed, id) {
            let i = choose|i: int| 0 <= i < removed.len() && removed[i].id@ == id;
            if i < f {
                assert(removed[i] == entries[i]);
            } else {
                assert(removed[i] == entries[i + 1]);
            }
        }
    }
    lemma_cache_round_trip(removed, e_new, now);
}

} // verus!
