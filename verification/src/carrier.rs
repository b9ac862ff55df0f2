//! The header carrier: a read view over an HTTP header map.
//!
//! A carrier is an ordered sequence of header entries, each a byte-string
//! name and a byte-string value. Names are compared case-insensitively in
//! the ASCII range, as HTTP header names are. Lookup never fails: an absent
//! key yields `None`, not an error.

use vstd::prelude::*;

verus! {

/// One header line: a name and a value, both byte strings.
pub struct HeaderEntry {
    pub name: Vec<u8>,
    pub value: Vec<u8>,
}

/// An ordered header map, read by the tracing layer and written by the
/// HTTP layer (and by context injection).
pub struct Carrier {
    pub entries: Vec<HeaderEntry>,
}

/// ASCII lowercase folding of one byte: `A`-`Z` fold to `a`-`z`, all other
/// bytes stand as they are.
pub open spec fn lower_byte(b: u8) -> u8 {
    if 65 <= b && b <= 90 {
        (b + 32) as u8
    } else {
        b
    }
}

/// ASCII lowercase folding of a byte string.
pub open spec fn lower_bytes(s: Seq<u8>) -> Seq<u8> {
    s.map_values(|b: u8| lower_byte(b))
}

/// Whether a header name equals a key, ignoring ASCII case.
pub open spec fn name_matches(name: Seq<u8>, key: Seq<u8>) -> bool {
    lower_bytes(name) == lower_bytes(key)
}

/// The value of the first entry whose name matches `key` (ignoring ASCII
/// case), or `None` when no entry does.
pub open spec fn spec_get(entries: Seq<HeaderEntry>, key: Seq<u8>) -> Option<Seq<u8>>
    decreases entries.len(),
{
    if entries.len() == 0 {
        None
    } else if name_matches(entries[0].name@, key) {
        Some(entries[0].value@)
    } else {
        spec_get(entries.drop_first(), key)
    }
}

/// Skipping a prefix in which no name matches the key leaves the lookup
/// result unchanged.
pub proof fn lemma_spec_get_skip(entries: Seq<HeaderEntry>, key: Seq<u8>, i: int)
    requires
        0 <= i <= entries.len(),
        forall|j: int| 0 <= j < i ==> !name_matches(entries[j].name@, key),
    ensures
        spec_get(entries, key) == spec_get(entries.skip(i), key),
    decreases i,
{
    if i == 0 {
        assert(entries.skip(0) =~= entries);
    } else {
        lemma_spec_get_skip(entries, key, i - 1);
        assert(entries.skip(i - 1)[0] == entries[i - 1]);
        assert(!name_matches(entries.skip(i - 1)[0].name@, key));
        assert(entries.skip(i - 1).drop_first() =~= entries.skip(i));
    }
}

/// Replacing the entry at one position with another entry that matches the
/// key no better leaves the lookup result unchanged.
pub proof fn lemma_spec_get_update_no_match(
    e1: Seq<HeaderEntry>,
    e2: Seq<HeaderEntry>,
    key: Seq<u8>,
    i: int,
)
    requires
        0 <= i < e1.len(),
        e1.len() == e2.len(),
        forall|j: int| 0 <= j < e1.len() && j != i ==> e1[j] == e2[j],
        !name_matches(e1[i].name@, key),
        !name_matches(e2[i].name@, key),
    ensures
        spec_get(e1, key) == spec_get(e2, key),
    decreases i,
{
    if i == 0 {
        assert(e1.drop_first() =~= e2.drop_first());
    } else {
        assert(e1[0] == e2[0]);
        if !name_matches(e1[0].name@, key) {
            lemma_spec_get_update_no_match(e1.drop_first(), e2.drop_first(), key, i - 1);
        }
    }
}

/// Appending an entry changes the lookup result only for keys that no
/// earlier entry matched.
pub proof fn lemma_spec_get_push(entries: Seq<HeaderEntry>, entry: HeaderEntry, key: Seq<u8>)
    ensures
        spec_get(entries.push(entry), key) == (if spec_get(entries, key) is Some {
            spec_get(entries, key)
        } else if name_matches(entry.name@, key) {
            Some(entry.value@)
        } else {
            None::<Seq<u8>>
        }),
    decreases entries.len(),
{
    let pushed = entries.push(entry);
    assert(pushed.len() == entries.len() + 1);
    if entries.len() == 0 {
        assert(pushed[0] == entry);
        assert(pushed.drop_first() =~= Seq::<HeaderEntry>::empty());
        if name_matches(entry.name@, key) {
            assert(spec_get(pushed, key) == Some(entry.value@));
        } else {
            assert(spec_get(pushed, key) == spec_get(pushed.drop_first(), key));
            assert(spec_get(pushed, key) is None);
        }
    } else {
        assert(pushed[0] == entries[0]);
        if name_matches(entries[0].name@, key) {
            assert(spec_get(pushed, key) == Some(entries[0].value@));
            assert(spec_get(entries, key) == Some(entries[0].value@));
        } else {
            assert(pushed.drop_first() =~= entries.drop_first().push(entry));
            lemma_spec_get_push(entries.drop_first(), entry, key);
            assert(spec_get(pushed, key) == spec_get(entries.drop_first().push(entry), key));
            assert(spec_get(entries, key) == spec_get(entries.drop_first(), key));
        }
    }
}

/// ASCII lowercase folding of one byte.
fn lower_byte_exec(b: u8) -> (r: u8)
    ensures
        r == lower_byte(b),
{
    if 65 <= b && b <= 90 {
        b + 32
    } else {
        b
    }
}

/// Whether two byte strings are equal ignoring ASCII case.
fn bytes_match(a: &Vec<u8>, b: &Vec<u8>) -> (r: bool)
    ensures
        r == name_matches(a@, b@),
{
    if a.len() != b.len() {
        proof {
            assert(lower_bytes(a@).len() != lower_bytes(b@).len());
        }
        return false;
    }
    let n = a.len();
    let mut i: usize = 0;
    while i < n
        invariant
            n == a@.len() == b@.len(),
            i <= n,
            forall|j: int| 0 <= j < i ==> lower_byte(a@[j]) == lower_byte(b@[j]),
        decreases n - i,
    {
        if lower_byte_exec(a[i]) != lower_byte_exec(b[i]) {
            proof {
                assert(lower_bytes(a@)[i as int] != lower_bytes(b@)[i as int]);
            }
            return false;
        }
        i += 1;
    }
    proof {
        assert(lower_bytes(a@) =~= lower_bytes(b@));
    }
    true
}

impl Carrier {
    /// An empty carrier, with no header at all.
    pub fn new() -> (c: Carrier)
        ensures
            c.entries@.len() == 0,
    {
        Carrier { entries: Vec::new() }
    }

    /// Appends one header line as the HTTP layer received it, after any
    /// entry already present (so an earlier entry of the same name keeps
    /// priority on lookup).
    pub fn push_header(&mut self, name: Vec<u8>, value: Vec<u8>)
        ensures
            final(self).entries@ == old(self).entries@.push(
                HeaderEntry { name: name, value: value },
            ),
    {
        self.entries.push(HeaderEntry { name, value });
    }

    /// Case-insensitive lookup: the value of the first entry whose name
    /// matches `key`, or `None` when no entry does. Never an error.
    pub fn get(&self, key: &Vec<u8>) -> (r: Option<&Vec<u8>>)
        ensures
            match r {
                Some(v) => spec_get(self.entries@, key@) == Some(v@),
                None => spec_get(self.entries@, key@) is None,
            },
    {
        let n = self.entries.len();
        let mut i: usize = 0;
        while i < n
            invariant
                n == self.entries@.len(),
                i <= n,
                forall|j: int| 0 <= j < i ==> !name_matches(self.entries@[j].name@, key@),
            decreases n - i,
        {
            if bytes_match(&self.entries[i].name, key) {
                proof {
                    lemma_spec_get_skip(self.entries@, key@, i as int);
                    assert(self.entries@.skip(i as int)[0] == self.entries@[i as int]);
                }
                return Some(&self.entries[i].value);
            }
            i += 1;
        }
        proof {
            lemma_spec_get_skip(self.entries@, key@, n as int);
            assert(self.entries@.skip(n as int) =~= Seq::<HeaderEntry>::empty());
        }
        None
    }

    /// All header names, in carrier order, so a format parser can scan for
    /// vendor-specific fields.
    pub fn keys(&self) -> (r: Vec<Vec<u8>>)
        ensures
            r@.len() == self.entries@.len(),
            forall|i: int| 0 <= i < r@.len() ==> #[trigger] r@[i]@ == self.entries@[i].name@,
    {
        let n = self.entries.len();
        let mut r: Vec<Vec<u8>> = Vec::new();
        let mut i: usize = 0;
        while i < n
            invariant
                n == self.entries@.len(),
                i <= n,
                r@.len() == i,
                forall|j: int| 0 <= j < i ==> #[trigger] r@[j]@ == self.entries@[j].name@,
            decreases n - i,
        {
            r.push(self.entries[i].name.clone());
            i += 1;
        }
        r
    }

    /// Sets `key` to `value`: replaces the first entry whose name matches
    /// `key` (ignoring ASCII case), or appends one when no entry does.
    /// Afterwards every lookup of a name equal to `key` up to case yields
    /// `value`, and every other lookup is as before.
    pub fn set(&mut self, key: Vec<u8>, value: Vec<u8>)
        ensures
            forall|k: Seq<u8>|
                lower_bytes(k) == lower_bytes(key@) ==> spec_get(final(self).entries@, k) == Some(
                    value@,
                ),
            forall|k: Seq<u8>|
                lower_bytes(k) != lower_bytes(key@) ==> spec_get(final(self).entries@, k)
                    == spec_get(old(self).entries@, k),
    {
        let n = self.entries.len();
        let mut i: usize = 0;
        while i < n
            invariant
                n == self.entries@.len(),
                i <= n,
                self.entries@ == old(self).entries@,
                forall|j: int| 0 <= j < i ==> !name_matches(self.entries@[j].name@, key@),
            decreases n - i,
        {
            if bytes_match(&self.entries[i].name, &key) {
                let ghost before = self.entries@;
                self.entries.set(i, HeaderEntry { name: key, value: value });
                proof {
                    let after = self.entries@;
                    let ghost ki = i as int;
                    assert forall|k: Seq<u8>| lower_bytes(k) == lower_bytes(
                        before[ki].name@,
                    ) implies spec_get(after, k) == Some(after[ki].value@) by {
                        assert(forall|j: int|
                            0 <= j < ki ==> !name_matches(#[trigger] after[j].name@, k));
                        lemma_spec_get_skip(after, k, ki);
                        assert(after.skip(ki)[0] == after[ki]);
                        assert(name_matches(after[ki].name@, k));
                    };
                    assert forall|k: Seq<u8>| lower_bytes(k) != lower_bytes(
                        before[ki].name@,
                    ) implies spec_get(after, k) == spec_get(before, k) by {
                        assert(!name_matches(before[ki].name@, k));
                        assert(!name_matches(after[ki].name@, k));
                        lemma_spec_get_update_no_match(before, after, k, ki);
                    };
                    assert(lower_bytes(before[ki].name@) == lower_bytes(key@));
                }
                return;
            }
            i += 1;
        }
        let ghost before = self.entries@;
        let entry = HeaderEntry { name: key, value: value };
        let ghost gentry = entry;
        self.entries.push(entry);
        proof {
            let after = self.entries@;
            assert forall|k: Seq<u8>|
                spec_get(after, k) == (if spec_get(before, k) is Some {
                    spec_get(before, k)
                } else if name_matches(gentry.name@, k) {
                    Some(gentry.value@)
                } else {
                    None::<Seq<u8>>
                }) by {
                lemma_spec_get_push(before, gentry, k);
            };
            assert forall|k: Seq<u8>| lower_bytes(k) == lower_bytes(
                gentry.name@,
            ) implies spec_get(after, k) == Some(gentry.value@) by {
                if spec_get(before, k) is Some {
                    lemma_spec_get_skip(before, k, n as int);
                    assert(before.skip(n as int) =~= Seq::<HeaderEntry>::empty());
                }
            };
        }
    }
}

} // verus!
