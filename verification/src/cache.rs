//! The persisted checksum cache: image name to (digest, length).
//!
//! The cache is modelled as a map from the image's name to the hex spelling
//! of its digest and its decompressed length. Reading and writing the cache
//! file, and its textual layout, belong to the unverified caller; this module
//! owns the mapping itself, the hex round trip and the dirty-flag discipline
//! that makes `save` a no-op when nothing changed.

use vstd::prelude::*;
use vstd::string::StringExecFns;
use crate::hexcode::{
    hex_of, is_hex_seq, spec_hex_bytes, lower_hex_seq, hex_encode, hex_decode,
    lemma_hex_of_is_lower_hex, lemma_hex_round_trip, lemma_hex_of_injective,
};
use crate::text::str_eq;

verus! {

/// One cached record: the digest, stored as 64 lowercase hex characters,
/// and the decompressed length it was computed over.
pub struct Image {
    pub sha256: String,
    pub length: usize,
}

/// The cache: a mapping with unique names, a dirty flag, and the path of
/// the file it persists to.
pub struct Database {
    images: Vec<(String, Image)>,
    changed: bool,
    db_file: String,
}

/// No name occurs twice among the entries.
pub open spec fn unique_keys(s: Seq<(String, Image)>) -> bool {
    forall|i: int, j: int| 0 <= i < j < s.len() ==> (#[trigger] s[i]).0@ != (#[trigger] s[j]).0@
}

/// The mapping a list of entries denotes; a later entry for the same name
/// overrides an earlier one.
pub open spec fn map_of(s: Seq<(String, Image)>) -> Map<Seq<char>, (Seq<char>, usize)>
    decreases s.len(),
{
    if s.len() == 0 {
        Map::empty()
    } else {
        map_of(s.drop_last()).insert(s.last().0@, (s.last().1.sha256@, s.last().1.length))
    }
}

/// A name is in the mapping exactly when some entry carries it.
pub proof fn lemma_map_of_domain(s: Seq<(String, Image)>, k: Seq<char>)
    ensures
        map_of(s).contains_key(k) <==> exists|i: int| 0 <= i < s.len() && (#[trigger] s[i]).0@ == k,
    decreases s.len(),
{
    if s.len() > 0 {
        lemma_map_of_domain(s.drop_last(), k);
        if s.last().0@ == k {
            assert((s[s.len() - 1]).0@ == k);
        } else {
            if map_of(s).contains_key(k) {
                let i = choose|i: int|
                    0 <= i < s.drop_last().len() && (#[trigger] s.drop_last()[i]).0@ == k;
                assert((s[i]).0@ == k);
            }
            if exists|i: int| 0 <= i < s.len() && (#[trigger] s[i]).0@ == k {
                let i = choose|i: int| 0 <= i < s.len() && (#[trigger] s[i]).0@ == k;
                assert(i < s.len() - 1);
                assert((s.drop_last()[i]).0@ == k);
            }
        }
    }
}

/// With unique names, the entry at any index is what the mapping returns
/// for its name.
pub proof fn lemma_map_of_match(s: Seq<(String, Image)>, i: int)
    requires
        unique_keys(s),
        0 <= i < s.len(),
    ensures
        map_of(s).contains_key(s[i].0@),
        map_of(s)[s[i].0@] == (s[i].1.sha256@, s[i].1.length),
    decreases s.len(),
{
    if i == s.len() - 1 {
        assert(s.last() == s[i]);
    } else {
        assert(unique_keys(s.drop_last())) by {
            assert(forall|x: int, y: int|
                0 <= x < y < s.drop_last().len()
                    ==> (#[trigger] s.drop_last()[x]).0@ != (#[trigger] s.drop_last()[y]).0@);
        }
        lemma_map_of_match(s.drop_last(), i);
        assert(s.drop_last()[i] == s[i]);
        assert(s.last().0@ != s[i].0@);
    }
}

/// Replacing the entry that holds a name updates just that name's value.
pub proof fn lemma_map_of_update(s: Seq<(String, Image)>, i: int, e: (String, Image))
    requires
        unique_keys(s),
        0 <= i < s.len(),
        e.0@ == s[i].0@,
    ensures
        map_of(s.update(i, e)) == map_of(s).insert(e.0@, (e.1.sha256@, e.1.length)),
    decreases s.len(),
{
    let t = s.update(i, e);
    if i == s.len() - 1 {
        assert(t.drop_last() =~= s.drop_last());
        assert(t.last() == e);
        assert(map_of(t) =~= map_of(s).insert(e.0@, (e.1.sha256@, e.1.length)));
    } else {
        assert(unique_keys(s.drop_last())) by {
            assert(forall|x: int, y: int|
                0 <= x < y < s.drop_last().len()
                    ==> (#[trigger] s.drop_last()[x]).0@ != (#[trigger] s.drop_last()[y]).0@);
        }
        assert(s.drop_last()[i] == s[i]);
        lemma_map_of_update(s.drop_last(), i, e);
        assert(t.drop_last() =~= s.drop_last().update(i, e));
        assert(t.last() == s.last());
        assert(s.last().0@ != e.0@);
        assert(map_of(t) =~= map_of(s).insert(e.0@, (e.1.sha256@, e.1.length)));
    }
}

/// Appending an entry for a fresh name inserts just that name.
pub proof fn lemma_map_of_push(s: Seq<(String, Image)>, e: (String, Image))
    ensures
        map_of(s.push(e)) == map_of(s).insert(e.0@, (e.1.sha256@, e.1.length)),
{
    assert(s.push(e).drop_last() =~= s);
    assert(s.push(e).last() == e);
}

impl View for Database {
    type V = Map<Seq<char>, (Seq<char>, usize)>;

    /// The mapping this cache holds.
    closed spec fn view(&self) -> Map<Seq<char>, (Seq<char>, usize)> {
        map_of(self.images@)
    }
}

impl Database {
    /// Names are unique, so lookups are unambiguous.
    pub closed spec fn wf(self) -> bool {
        unique_keys(self.images@)
    }

    /// The entries in their stored order, for persisting and display.
    pub closed spec fn spec_entries(self) -> Seq<(String, Image)> {
        self.images@
    }

    /// Whether a `put` happened since the cache was built or last saved.
    pub closed spec fn spec_changed(self) -> bool {
        self.changed
    }

    /// The file this cache persists to.
    pub closed spec fn spec_file(self) -> Seq<char> {
        self.db_file@
    }

    /// The cache file lives under the given directory, by a fixed name.
    pub fn db(dir: &str) -> (p: String)
        ensures
            p@ == dir@ + "/checksums.yaml"@,
    {
        dir.to_owned().concat("/checksums.yaml")
    }

    /// An empty cache for the given directory, not marked dirty.
    pub fn new(dir: &str) -> (db: Database)
        ensures
            db.wf(),
            db@ == Map::<Seq<char>, (Seq<char>, usize)>::empty(),
            !db.spec_changed(),
            db.spec_file() == dir@ + "/checksums.yaml"@,
            db.spec_entries().len() == 0,
    {
        Database { images: Vec::new(), changed: false, db_file: Self::db(dir) }
    }

    /// A cache rebuilt from persisted entries, clean until the next `put`.
    /// A later duplicate of a name overrides an earlier one.
    pub fn from_entries(dir: &str, entries: &Vec<(String, Image)>) -> (db: Database)
        ensures
            db.wf(),
            db@ == map_of(entries@),
            !db.spec_changed(),
            db.spec_file() == dir@ + "/checksums.yaml"@,
    {
        let mut db = Database::new(dir);
        let n = entries.len();
        let mut i: usize = 0;
        while i < n
            invariant
                i <= n,
                n == entries@.len(),
                db.wf(),
                db@ == map_of(entries@.take(i as int)),
                !db.spec_changed(),
                db.spec_file() == dir@ + "/checksums.yaml"@,
            decreases n - i,
        {
            let name = entries[i].0.clone();
            let sha = entries[i].1.sha256.clone();
            let length = entries[i].1.length;
            db.set_entry(name.as_str(), sha, length);
            proof {
                assert(entries@.take(i + 1).drop_last() =~= entries@.take(i as int));
                assert(entries@.take(i + 1).last() == entries@[i as int]);
            }
            i += 1;
        }
        proof {
            assert(entries@.take(n as int) =~= entries@);
        }
        db
    }

    /// Inserts or overwrites one entry, leaving the dirty flag alone.
    fn set_entry(&mut self, name: &str, sha_hex: String, length: usize)
        requires
            old(self).wf(),
        ensures
            final(self).wf(),
            final(self)@ == old(self)@.insert(name@, (sha_hex@, length)),
            final(self).spec_changed() == old(self).spec_changed(),
            final(self).spec_file() == old(self).spec_file(),
    {
        let img = Image { sha256: sha_hex, length };
        match self.find_index(name) {
            Some(i) => {
                let key = name.to_owned();
                proof {
                    lemma_map_of_update(self.images@, i as int, (key, img));
                }
                self.images[i] = (key, img);
                proof {
                    let s = self.images@;
                    assert forall|x: int, y: int| 0 <= x < y < s.len()
                        implies (#[trigger] s[x]).0@ != (#[trigger] s[y]).0@ by {
                        assert(old(self).images@[x].0@ == s[x].0@ || x == i);
                        assert(old(self).images@[y].0@ == s[y].0@ || y == i);
                    }
                }
            },
            None => {
                let key = name.to_owned();
                proof {
                    lemma_map_of_push(self.images@, (key, img));
                }
                self.images.push((key, img));
                proof {
                    let s = self.images@;
                    assert forall|x: int, y: int| 0 <= x < y < s.len()
                        implies (#[trigger] s[x]).0@ != (#[trigger] s[y]).0@ by {
                        assert(s[x] == old(self).images@[x]);
                        if y == s.len() - 1 {
                            assert(old(self).images@[x].0@ != name@);
                        } else {
                            assert(s[y] == old(self).images@[y]);
                        }
                    }
                }
            },
        }
    }

    /// Where an entry with this name sits, if anywhere.
    fn find_index(&self, name: &str) -> (r: Option<usize>)
        ensures
            r matches Some(i) ==> i < self.images@.len()
                && self.images@[i as int].0@ == name@,
            r is None ==> forall|i: int|
                0 <= i < self.images@.len()
                    ==> (#[trigger] self.images@[i]).0@ != name@,
    {
        let n = self.images.len();
        let mut i: usize = 0;
        while i < n
            invariant
                i <= n,
                n == self.images@.len(),
                forall|j: int| 0 <= j < i ==> (#[trigger] self.images@[j]).0@ != name@,
            decreases n - i,
        {
            if str_eq(self.images[i].0.as_str(), name) {
                return Some(i);
            }
            i += 1;
        }
        None
    }

    /// Looks a name up and hex-decodes the stored digest. A stored string
    /// that is not 64 hex characters is treated as absent, never surfaced.
    pub fn get(&mut self, name: &str) -> (r: Option<([u8; 32], usize)>)
        requires
            old(self).wf(),
        ensures
            *final(self) == *old(self),
            ({
                let m = old(self)@;
                if m.contains_key(name@) && is_hex_seq(m[name@].0) && m[name@].0.len() == 64 {
                    r matches Some(p) && p.0@ == spec_hex_bytes(m[name@].0) && p.1 == m[name@].1
                } else {
                    r is None
                }
            }),
    {
        proof {
            lemma_map_of_domain(self.images@, name@);
        }
        match self.find_index(name) {
            None => {
                proof {
                    assert(!old(self)@.contains_key(name@));
                }
                None
            },
            Some(i) => {
                proof {
                    lemma_map_of_match(self.images@, i as int);
                }
                let stored: &Image = &self.images[i].1;
                proof {
                    assert(old(self)@[name@] == (stored.sha256@, stored.length));
                }
                match hex_decode(stored.sha256.as_str()) {
                    None => {
                        proof {
                            assert(!is_hex_seq(old(self)@[name@].0));
                        }
                        None
                    },
                    Some(v) => {
                        if v.len() == 32 {
                            proof {
                                let hx = stored.sha256@;
                                lemma_hex_round_trip(hx);
                                lemma_hex_of_injective(v@, spec_hex_bytes(hx));
                            }
                            let mut buf = [0u8; 32];
                            let mut j: usize = 0;
                            while j < 32
                                invariant
                                    j <= 32,
                                    v@.len() == 32,
                                    forall|k: int| 0 <= k < j ==> buf@[k] == v@[k],
                                decreases 32 - j,
                            {
                                buf[j] = v[j];
                                j += 1;
                            }
                            proof {
                                assert(buf@ =~= v@);
                            }
                            Some((buf, stored.length))
                        } else {
                            proof {
                                let hx = stored.sha256@;
                                assert(hex_of(v@).len() == v@.len() * 2);
                                assert(lower_hex_seq(hx).len() == hx.len());
                                assert(hx.len() != 64);
                            }
                            None
                        }
                    },
                }
            },
        }
    }

    /// Stores the digest for a name, hex-encoded, and marks the cache dirty.
    pub fn put(&mut self, name: &str, sha256: [u8; 32], length: usize)
        requires
            old(self).wf(),
        ensures
            final(self).wf(),
            final(self)@ == old(self)@.insert(name@, (hex_of(sha256@), length)),
            final(self).spec_changed(),
            final(self).spec_file() == old(self).spec_file(),
    {
        let hexs = hex_encode(sha256.as_slice());
        self.set_entry(name, hexs, length);
        self.changed = true;
    }

    /// Whether `save` has anything to write: exactly the dirty flag.
    pub fn save_needed(&self) -> (b: bool)
        ensures
            b == self.spec_changed(),
    {
        self.changed
    }

    /// Records that the mapping reached the file; the cache is clean again.
    pub fn mark_saved(&mut self)
        ensures
            final(self)@ == old(self)@,
            final(self).wf() == old(self).wf(),
            final(self).spec_entries() == old(self).spec_entries(),
            !final(self).spec_changed(),
            final(self).spec_file() == old(self).spec_file(),
    {
        self.changed = false;
    }

    /// How many entries the cache holds.
    pub fn entry_count(&self) -> (n: usize)
        ensures
            n == self.spec_entries().len(),
    {
        self.images.len()
    }

    /// The entry at one position, for persisting and display.
    pub fn entry_at(&self, i: usize) -> (e: &(String, Image))
        requires
            i < self.spec_entries().len(),
        ensures
            *e == self.spec_entries()[i as int],
    {
        &self.images[i]
    }

    /// A copy of the entries for the caller that persists them: the copy
    /// spells the same mapping as the cache itself.
    pub fn export_entries(&self) -> (r: Vec<(String, Image)>)
        ensures
            r@.len() == self.spec_entries().len(),
            forall|i: int| 0 <= i < r@.len() ==> (#[trigger] r@[i]).0@
                == self.spec_entries()[i].0@ && r@[i].1.sha256@
                == self.spec_entries()[i].1.sha256@ && r@[i].1.length
                == self.spec_entries()[i].1.length,
            map_of(r@) == self@,
    {
        let n = self.images.len();
        let mut r: Vec<(String, Image)> = Vec::new();
        let mut i: usize = 0;
        while i < n
            invariant
                i <= n,
                n == self.images@.len(),
                r@.len() == i,
                forall|j: int| 0 <= j < i ==> (#[trigger] r@[j]).0@ == self.images@[j].0@
                    && r@[j].1.sha256@ == self.images@[j].1.sha256@ && r@[j].1.length
                    == self.images@[j].1.length,
            decreases n - i,
        {
            let name = self.images[i].0.clone();
            let sha = self.images[i].1.sha256.clone();
            let length = self.images[i].1.length;
            r.push((name, Image { sha256: sha, length }));
            i += 1;
        }
        proof {
            lemma_map_of_congruence(r@, self.images@);
        }
        r
    }

    /// The path of the cache file.
    pub fn file_path(&self) -> (p: &String)
        ensures
            p@ == self.spec_file(),
    {
        &self.db_file
    }
}

/// After storing a digest under a name, looking the name up succeeds and
/// returns exactly that digest and length: the stored spelling is valid hex
/// and decodes to the same 32 bytes.
pub proof fn lemma_put_get_round_trip(
    m: Map<Seq<char>, (Seq<char>, usize)>,
    name: Seq<char>,
    sum: Seq<u8>,
    length: usize,
)
    requires
        sum.len() == 32,
    ensures
        ({
            let m2 = m.insert(name, (hex_of(sum), length));
            &&& m2.contains_key(name)
            &&& is_hex_seq(m2[name].0)
            &&& m2[name].0.len() == 64
            &&& spec_hex_bytes(m2[name].0) == sum
            &&& m2[name].1 == length
        }),
{
    lemma_hex_of_is_lower_hex(sum);
    lemma_hex_round_trip(hex_of(sum));
    lemma_hex_of_injective(spec_hex_bytes(hex_of(sum)), sum);
}

/// Two entry lists that spell the same names, digests and lengths denote
/// the same mapping.
pub proof fn lemma_map_of_congruence(a: Seq<(String, Image)>, b: Seq<(String, Image)>)
    requires
        a.len() == b.len(),
        forall|i: int| 0 <= i < a.len() ==> (#[trigger] a[i]).0@ == (#[trigger] b[i]).0@
            && a[i].1.sha256@ == b[i].1.sha256@ && a[i].1.length == b[i].1.length,
    ensures
        map_of(a) == map_of(b),
    decreases a.len(),
{
    if a.len() > 0 {
        assert(forall|i: int| 0 <= i < a.drop_last().len()
            ==> (#[trigger] a.drop_last()[i]).0@ == (#[trigger] b.drop_last()[i]).0@
                && a.drop_last()[i].1.sha256@ == b.drop_last()[i].1.sha256@
                && a.drop_last()[i].1.length == b.drop_last()[i].1.length);
        lemma_map_of_congruence(a.drop_last(), b.drop_last());
        assert(a.last() == a[a.len() - 1] && b.last() == b[b.len() - 1]);
    }
}

} // verus!
