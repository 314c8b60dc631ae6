//! String-keyed mappings with unique keys.
//!
//! The builder's three mappings (query parameters, headers, body fields) are
//! all values of [`Dict`]: an association list of string pairs in which each
//! key occurs at most once and the last write wins. Specifications see a
//! `Dict` as a sequence of key/value pairs of character sequences.

use vstd::prelude::*;
use vstd::string::StrSliceExecFns;
use vstd::string::StringExecFns;

verus! {

/// One mapping entry, as specifications see it.
pub type EntryView = (Seq<char>, Seq<char>);

/// No two entries share a key.
pub open spec fn distinct_keys(s: Seq<EntryView>) -> bool {
    forall|i: int, j: int| 0 <= i < j < s.len() ==> s[i].0 != s[j].0
}

/// The value stored under key `k`: the value of the first entry whose key
/// matches, or nothing when no entry does.
pub open spec fn lookup(s: Seq<EntryView>, k: Seq<char>) -> Option<Seq<char>>
    decreases s.len(),
{
    if s.len() == 0 {
        None
    } else if s[0].0 == k {
        Some(s[0].1)
    } else {
        lookup(s.drop_first(), k)
    }
}

/// Whether some entry carries key `k`.
pub open spec fn has_key(s: Seq<EntryView>, k: Seq<char>) -> bool {
    exists|i: int| 0 <= i < s.len() && s[i].0 == k
}

/// Looking a key up in an empty mapping finds nothing: this is why a getter
/// invoked before the matching setter reports the missing-parameter error.
pub proof fn lemma_lookup_empty(k: Seq<char>)
    ensures
        lookup(Seq::<EntryView>::empty(), k) is None,
{
}

/// A key is found if and only if some entry carries it.
pub proof fn lemma_lookup_has_key(s: Seq<EntryView>, k: Seq<char>)
    ensures
        (lookup(s, k) is Some) == has_key(s, k),
    decreases s.len(),
{
    if s.len() == 0 {
    } else if s[0].0 == k {
        assert(has_key(s, k));
    } else {
        lemma_lookup_has_key(s.drop_first(), k);
        if has_key(s, k) {
            let i = choose|i: int| 0 <= i < s.len() && s[i].0 == k;
            assert(s.drop_first()[i - 1].0 == k);
            assert(has_key(s.drop_first(), k));
        }
        if has_key(s.drop_first(), k) {
            let i = choose|i: int| 0 <= i < s.drop_first().len() && s.drop_first()[i].0 == k;
            assert(s[i + 1].0 == k);
            assert(has_key(s, k));
        }
    }
}

/// If no entry before index `i` carries key `k` and entry `i` does, lookup
/// returns entry `i`'s value.
pub proof fn lemma_lookup_first_match(s: Seq<EntryView>, k: Seq<char>, i: int)
    requires
        0 <= i < s.len(),
        s[i].0 == k,
        forall|j: int| 0 <= j < i ==> s[j].0 != k,
    ensures
        lookup(s, k) == Some(s[i].1),
    decreases i,
{
    if i == 0 {
    } else {
        assert(forall|j: int| 0 <= j < i - 1 ==> s.drop_first()[j].0 == s[j + 1].0);
        lemma_lookup_first_match(s.drop_first(), k, i - 1);
    }
}

/// If no entry carries key `k`, lookup finds nothing.
pub proof fn lemma_lookup_absent(s: Seq<EntryView>, k: Seq<char>)
    requires
        forall|j: int| 0 <= j < s.len() ==> s[j].0 != k,
    ensures
        lookup(s, k) is None,
    decreases s.len(),
{
    if s.len() == 0 {
    } else {
        assert(forall|j: int| 0 <= j < s.drop_first().len() ==> s.drop_first()[j].0 == s[j + 1].0);
        lemma_lookup_absent(s.drop_first(), k);
    }
}

/// Overwriting the first entry that carries `k` stores the new value under
/// `k` and leaves every other key's binding unchanged.
pub proof fn lemma_lookup_update(s: Seq<EntryView>, k: Seq<char>, v: Seq<char>, i: int)
    requires
        0 <= i < s.len(),
        s[i].0 == k,
        forall|j: int| 0 <= j < i ==> s[j].0 != k,
    ensures
        lookup(s.update(i, (k, v)), k) == Some(v),
        forall|k2: Seq<char>| k2 != k ==> lookup(s.update(i, (k, v)), k2) == lookup(s, k2),
    decreases s.len(),
{
    let t = s.update(i, (k, v));
    if i == 0 {
        assert(t[0] == (k, v));
        assert(t.drop_first() =~= s.drop_first());
        assert forall|k2: Seq<char>| k2 != k implies lookup(t, k2) == lookup(s, k2) by {
            assert(lookup(t, k2) == lookup(t.drop_first(), k2));
            assert(lookup(s, k2) == lookup(s.drop_first(), k2));
        }
    } else {
        assert(t[0] == s[0]);
        assert(t.drop_first() =~= s.drop_first().update(i - 1, (k, v)));
        assert(forall|j: int| 0 <= j < i - 1 ==> s.drop_first()[j].0 == s[j + 1].0);
        lemma_lookup_update(s.drop_first(), k, v, i - 1);
        assert(s[0].0 != k);
        assert(lookup(t, k) == lookup(t.drop_first(), k));
        assert forall|k2: Seq<char>| k2 != k implies lookup(t, k2) == lookup(s, k2) by {
            if t[0].0 == k2 {
                assert(lookup(t, k2) == Some(t[0].1));
                assert(lookup(s, k2) == Some(s[0].1));
            } else {
                assert(lookup(t, k2) == lookup(t.drop_first(), k2));
                assert(lookup(s, k2) == lookup(s.drop_first(), k2));
            }
        }
    }
}

/// Appending an entry with a fresh key stores `v` under `k` and leaves every
/// other key's binding unchanged.
pub proof fn lemma_lookup_push(s: Seq<EntryView>, k: Seq<char>, v: Seq<char>)
    requires
        forall|j: int| 0 <= j < s.len() ==> s[j].0 != k,
    ensures
        lookup(s.push((k, v)), k) == Some(v),
        forall|k2: Seq<char>| k2 != k ==> lookup(s.push((k, v)), k2) == lookup(s, k2),
    decreases s.len(),
{
    let t = s.push((k, v));
    if s.len() == 0 {
        assert(t[0] == (k, v));
        assert(t.drop_first() =~= Seq::<EntryView>::empty());
        assert forall|k2: Seq<char>| k2 != k implies lookup(t, k2) == lookup(s, k2) by {
            assert(lookup(t, k2) == lookup(t.drop_first(), k2));
        }
    } else {
        assert(t[0] == s[0]);
        assert(t.drop_first() =~= s.drop_first().push((k, v)));
        assert(forall|j: int| 0 <= j < s.drop_first().len() ==> s.drop_first()[j].0 == s[j + 1].0);
        lemma_lookup_push(s.drop_first(), k, v);
        assert(s[0].0 != k);
        assert(lookup(t, k) == lookup(t.drop_first(), k));
        assert forall|k2: Seq<char>| k2 != k implies lookup(t, k2) == lookup(s, k2) by {
            if t[0].0 == k2 {
                assert(lookup(t, k2) == Some(t[0].1));
                assert(lookup(s, k2) == Some(s[0].1));
            } else {
                assert(lookup(t, k2) == lookup(t.drop_first(), k2));
                assert(lookup(s, k2) == lookup(s.drop_first(), k2));
            }
        }
    }
}

/// A string-to-string mapping with unique keys. Insertion order is kept but
/// carries no meaning: callers may rely only on which value each key maps to.
#[derive(Debug)]
pub struct Dict {
    entries: Vec<(String, String)>,
}

impl View for Dict {
    type V = Seq<EntryView>;

    closed spec fn view(&self) -> Seq<EntryView> {
        Seq::new(self.entries@.len(), |i: int| (self.entries@[i].0@, self.entries@[i].1@))
    }
}

impl Dict {
    /// Each key occurs in at most one entry.
    pub open spec fn wf(&self) -> bool {
        distinct_keys(self@)
    }

    /// An empty mapping.
    pub fn new() -> (r: Dict)
        ensures
            r@ == Seq::<EntryView>::empty(),
            r.wf(),
    {
        let r = Dict { entries: Vec::new() };
        proof {
            assert(r@ =~= Seq::<EntryView>::empty());
        }
        r
    }

    /// The number of entries.
    pub fn len(&self) -> (n: usize)
        ensures
            n == self@.len(),
    {
        self.entries.len()
    }

    /// The key of entry `i`.
    pub fn key_at(&self, i: usize) -> (r: &String)
        requires
            i < self@.len(),
        ensures
            r@ == self@[i as int].0,
    {
        &self.entries[i].0
    }

    /// The value of entry `i`.
    pub fn value_at(&self, i: usize) -> (r: &String)
        requires
            i < self@.len(),
        ensures
            r@ == self@[i as int].1,
    {
        &self.entries[i].1
    }

    /// Stores `value` under `key`, overwriting any earlier binding of `key`
    /// and leaving every other key's binding unchanged.
    pub fn set(&mut self, key: &str, value: &str)
        requires
            old(self).wf(),
        ensures
            final(self).wf(),
            lookup(final(self)@, key@) == Some(value@),
            forall|k2: Seq<char>| k2 != key@ ==> lookup(final(self)@, k2) == lookup(old(self)@, k2),
            final(self)@.len() == old(self)@.len() + (if has_key(old(self)@, key@) {
                0int
            } else {
                1int
            }),
    {
        let ghost s0 = self@;
        let n = self.entries.len();
        let mut i: usize = 0;
        while i < n
            invariant
                self == old(self),
                self@ == s0,
                distinct_keys(s0),
                n == s0.len(),
                n == self.entries@.len(),
                i <= n,
                forall|j: int| 0 <= j < i ==> s0[j].0 != key@,
            decreases n - i,
        {
            let matched = str_eq(self.entries[i].0.as_str(), key);
            if matched {
                self.entries[i] = (String::from_str(key), String::from_str(value));
                proof {
                    assert(self@ =~= s0.update(i as int, (key@, value@)));
                    lemma_lookup_update(s0, key@, value@, i as int);
                    assert(s0[i as int].0 == key@);
                    assert(has_key(s0, key@));
                    lemma_lookup_has_key(s0, key@);
                    assert forall|a: int, b: int| 0 <= a < b < self@.len() implies self@[a].0
                        != self@[b].0 by {
                        assert(self@[a].0 == s0[a].0);
                        assert(self@[b].0 == s0[b].0);
                    }
                }
                return ;
            }
            i += 1;
        }
        self.entries.push((String::from_str(key), String::from_str(value)));
        proof {
            assert(self@ =~= s0.push((key@, value@)));
            lemma_lookup_push(s0, key@, value@);
            lemma_lookup_absent(s0, key@);
            lemma_lookup_has_key(s0, key@);
            assert forall|a: int, b: int| 0 <= a < b < self@.len() implies self@[a].0
                != self@[b].0 by {
                if b == s0.len() {
                    assert(self@[a].0 == s0[a].0);
                    assert(self@[b].0 == key@);
                } else {
                    assert(self@[a].0 == s0[a].0);
                    assert(self@[b].0 == s0[b].0);
                }
            }
        }
    }

    /// The value stored under `key`, or nothing when `key` was never stored.
    pub fn get(&self, key: &str) -> (r: Option<String>)
        ensures
            (r is Some) == has_key(self@, key@),
            r matches Some(s) ==> lookup(self@, key@) == Some(s@),
    {
        let n = self.entries.len();
        let mut i: usize = 0;
        while i < n
            invariant
                n == self.entries@.len(),
                i <= n,
                forall|j: int| 0 <= j < i ==> self@[j].0 != key@,
            decreases n - i,
        {
            let matched = str_eq(self.entries[i].0.as_str(), key);
            if matched {
                proof {
                    lemma_lookup_first_match(self@, key@, i as int);
                    lemma_lookup_has_key(self@, key@);
                }
                return Some(self.entries[i].1.clone());
            }
            i += 1;
        }
        proof {
            lemma_lookup_absent(self@, key@);
            lemma_lookup_has_key(self@, key@);
        }
        None
    }

    /// An entry-for-entry copy of the mapping.
    pub fn duplicate(&self) -> (r: Dict)
        ensures
            r@ == self@,
    {
        let mut out = Dict { entries: Vec::new() };
        let n = self.entries.len();
        let mut i: usize = 0;
        while i < n
            invariant
                n == self.entries@.len(),
                i <= n,
                out@ =~= self@.take(i as int),
            decreases n - i,
        {
            let ghost pre = out@;
            let pair = &self.entries[i];
            let k2 = pair.0.clone();
            let v2 = pair.1.clone();
            out.entries.push((k2, v2));
            proof {
                assert(pre.len() == i as int);
                assert(out@.len() == i as int + 1);
                assert forall|j: int| 0 <= j < i as int + 1 implies out@[j] == self@[j] by {
                    if j < i as int {
                        assert(out@[j] == pre[j]);
                        assert(pre[j] == self@.take(i as int)[j]);
                    } else {
                        assert(out@[j] == (k2@, v2@));
                    }
                }
                assert(out@ =~= self@.take(i as int + 1));
            }
            i += 1;
        }
        proof {
            assert(self@.take(n as int) =~= self@);
        }
        out
    }
}

/// Whether two string slices hold the same characters.
pub fn str_eq(a: &str, b: &str) -> (r: bool)
    ensures
        r == (a@ == b@),
{
    let alen = a.unicode_len();
    let blen = b.unicode_len();
    if alen != blen {
        return false;
    }
    let mut i: usize = 0;
    while i < alen
        invariant
            alen == a@.len(),
            blen == b@.len(),
            alen == blen,
            i <= alen,
            forall|j: int| 0 <= j < i ==> a@[j] == b@[j],
        decreases alen - i,
    {
        if a.get_char(i) != b.get_char(i) {
            return false;
        }
        i += 1;
    }
    proof {
        assert(a@ =~= b@);
    }
    true
}

} // verus!
