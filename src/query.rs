//! A query string held as key/value pairs in order of first insertion.
use vstd::prelude::*;

use crate::error::{LsarError, LsarResult};
use crate::text::{push_str, str_eq, string_of};
use crate::trusted::{query_pairs, query_pairs_of};

verus! {

pub type Pairs = Seq<(Seq<char>, Seq<char>)>;

/// The index of the first pair at or after `i` whose key is `k`.
pub open spec fn key_index_from(s: Pairs, k: Seq<char>, i: int) -> Option<int>
    decreases s.len() - i,
{
    if i < 0 || i >= s.len() {
        None
    } else if s[i].0 == k {
        Some(i)
    } else {
        key_index_from(s, k, i + 1)
    }
}

pub open spec fn key_index(s: Pairs, k: Seq<char>) -> Option<int> {
    key_index_from(s, k, 0)
}

/// The value stored under `k`.
pub open spec fn lookup(s: Pairs, k: Seq<char>) -> Option<Seq<char>> {
    match key_index(s, k) {
        Some(i) => Some(s[i].1),
        None => None,
    }
}

/// `s` with `k` set to `v`: in place where `k` is present, else at the end.
pub open spec fn insert_spec(s: Pairs, k: Seq<char>, v: Seq<char>) -> Pairs {
    match key_index(s, k) {
        Some(i) => s.update(i, (k, v)),
        None => s.push((k, v)),
    }
}

/// `s` without the pair whose key is `k`.
pub open spec fn remove_spec(s: Pairs, k: Seq<char>) -> Pairs {
    match key_index(s, k) {
        Some(i) => s.remove(i),
        None => s,
    }
}

/// The pairs collected one by one, a later pair overriding an earlier one
/// with the same key.
pub open spec fn collect_spec(pairs: Pairs) -> Pairs
    decreases pairs.len(),
{
    if pairs.len() == 0 {
        Seq::empty()
    } else {
        insert_spec(collect_spec(pairs.drop_last()), pairs.last().0, pairs.last().1)
    }
}

/// `k=v` for each pair, joined by `&`.
pub open spec fn query_string_spec(s: Pairs) -> Seq<char>
    decreases s.len(),
{
    if s.len() == 0 {
        Seq::empty()
    } else if s.len() == 1 {
        s[0].0 + "="@ + s[0].1
    } else {
        query_string_spec(s.drop_last()) + "&"@ + s.last().0 + "="@ + s.last().1
    }
}

proof fn lemma_key_index_from_bounds(s: Pairs, k: Seq<char>, i: int)
    ensures
        match key_index_from(s, k, i) {
            Some(j) => i <= j < s.len() && s[j].0 == k,
            None => true,
        },
    decreases s.len() - i,
{
    if i >= 0 && i < s.len() && s[i].0 != k {
        lemma_key_index_from_bounds(s, k, i + 1);
    }
}

/// No key stands in two pairs.
pub open spec fn keys_unique(s: Pairs) -> bool {
    forall|i: int, j: int| 0 <= i < j < s.len() ==> s[i].0 != s[j].0
}

proof fn lemma_key_index_from_none(s: Pairs, k: Seq<char>, i: int)
    requires
        0 <= i,
        key_index_from(s, k, i) is None,
    ensures
        forall|j: int| i <= j < s.len() ==> s[j].0 != k,
    decreases s.len() - i,
{
    if i < s.len() {
        lemma_key_index_from_none(s, k, i + 1);
    }
}

/// Setting a key keeps the keys unique.
pub proof fn lemma_insert_keeps_keys_unique(s: Pairs, k: Seq<char>, v: Seq<char>)
    requires
        keys_unique(s),
    ensures
        keys_unique(insert_spec(s, k, v)),
{
    lemma_key_index_from_bounds(s, k, 0);
    match key_index(s, k) {
        Some(i) => {
            let t = s.update(i, (k, v));
            assert forall|a: int, b: int| 0 <= a < b < t.len() implies t[a].0 != t[b].0 by {
                assert(t[a].0 == s[a].0 && t[b].0 == s[b].0);
            }
        },
        None => {
            lemma_key_index_from_none(s, k, 0);
            let t = s.push((k, v));
            assert forall|a: int, b: int| 0 <= a < b < t.len() implies t[a].0 != t[b].0 by {
                if b == s.len() {
                    assert(t[a].0 == s[a].0);
                } else {
                    assert(t[a].0 == s[a].0 && t[b].0 == s[b].0);
                }
            }
        },
    }
}

/// Removing a key keeps the keys unique, and leaves no pair with that key.
pub proof fn lemma_remove_keeps_keys_unique(s: Pairs, k: Seq<char>)
    requires
        keys_unique(s),
    ensures
        keys_unique(remove_spec(s, k)),
        forall|j: int| 0 <= j < remove_spec(s, k).len() ==> remove_spec(s, k)[j].0 != k,
{
    lemma_key_index_from_bounds(s, k, 0);
    match key_index(s, k) {
        Some(i) => {
            let t = s.remove(i);
            assert forall|a: int, b: int| 0 <= a < b < t.len() implies t[a].0 != t[b].0 by {
                let a2 = if a < i { a } else { a + 1 };
                let b2 = if b < i { b } else { b + 1 };
                assert(t[a] == s[a2] && t[b] == s[b2]);
            }
            assert forall|j: int| 0 <= j < t.len() implies t[j].0 != k by {
                let j2 = if j < i { j } else { j + 1 };
                assert(t[j] == s[j2]);
            }
        },
        None => {
            lemma_key_index_from_none(s, k, 0);
        },
    }
}

/// Key/value pairs kept in order of first insertion.
pub struct QueryMap {
    pub entries: Vec<(String, String)>,
}

impl View for QueryMap {
    type V = Pairs;

    open spec fn view(&self) -> Pairs {
        self.entries@.map_values(|p: (String, String)| (p.0@, p.1@))
    }
}

impl QueryMap {
    /// No key stands in two pairs.
    pub open spec fn wf(&self) -> bool {
        keys_unique(self@)
    }

    pub fn new() -> (r: QueryMap)
        ensures
            r@ == Seq::<(Seq<char>, Seq<char>)>::empty(),
            r.wf(),
    {
        let r = QueryMap { entries: Vec::new() };
        assert(r@ =~= Seq::<(Seq<char>, Seq<char>)>::empty());
        r
    }

    fn index_of(&self, k: &str) -> (r: Option<usize>)
        ensures
            match r {
                Some(i) => key_index(self@, k@) == Some(i as int),
                None => key_index(self@, k@) is None,
            },
    {
        let mut i: usize = 0;
        while i < self.entries.len()
            invariant
                i <= self@.len(),
                self@.len() == self.entries@.len(),
                key_index(self@, k@) == key_index_from(self@, k@, i as int),
            decreases self@.len() - i,
        {
            if str_eq(self.entries[i].0.as_str(), k) {
                return Some(i);
            }
            i = i + 1;
        }
        None
    }

    /// The value stored under `k`.
    pub fn get(&self, k: &str) -> (r: Option<&String>)
        ensures
            match r {
                Some(v) => lookup(self@, k@) == Some(v@),
                None => lookup(self@, k@) is None,
            },
    {
        proof {
            lemma_key_index_from_bounds(self@, k@, 0);
        }
        match self.index_of(k) {
            Some(i) => Some(&self.entries[i].1),
            None => None,
        }
    }

    /// Sets `k` to `v`, in place where `k` is present, else at the end.
    pub fn insert(&mut self, k: &str, v: String)
        ensures
            final(self)@ == insert_spec(old(self)@, k@, v@),
            old(self).wf() ==> final(self).wf(),
    {
        let key = String::from_str(k);
        proof {
            lemma_key_index_from_bounds(self@, k@, 0);
        }
        match self.index_of(k) {
            Some(i) => {
                self.entries.set(i, (key, v));
            },
            None => {
                self.entries.push((key, v));
            },
        }
        assert(self@ =~= insert_spec(old(self)@, k@, v@));
        proof {
            if old(self).wf() {
                lemma_insert_keeps_keys_unique(old(self)@, k@, v@);
            }
        }
    }

    /// Removes the pair whose key is `k`.
    pub fn remove(&mut self, k: &str)
        ensures
            final(self)@ == remove_spec(old(self)@, k@),
            old(self).wf() ==> final(self).wf() && lookup(final(self)@, k@) is None,
    {
        proof {
            lemma_key_index_from_bounds(self@, k@, 0);
        }
        match self.index_of(k) {
            Some(i) => {
                self.entries.remove(i);
            },
            None => {},
        }
        assert(self@ =~= remove_spec(old(self)@, k@));
        proof {
            if old(self).wf() {
                lemma_remove_keeps_keys_unique(old(self)@, k@);
                lemma_key_index_from_bounds(self@, k@, 0);
            }
        }
    }

    /// `k=v` for each pair, joined by `&`.
    pub fn to_query_string(&self) -> (r: String)
        ensures
            r@ == query_string_spec(self@),
    {
        let mut out: Vec<char> = Vec::new();
        let mut i: usize = 0;
        while i < self.entries.len()
            invariant
                i <= self@.len(),
                self@.len() == self.entries@.len(),
                out@ == query_string_spec(self@.subrange(0, i as int)),
            decreases self@.len() - i,
        {
            let ghost before = out@;
            if i > 0 {
                push_str(&mut out, "&");
            }
            push_str(&mut out, self.entries[i].0.as_str());
            push_str(&mut out, "=");
            push_str(&mut out, self.entries[i].1.as_str());
            proof {
                let s = self@.subrange(0, i + 1);
                assert(s.drop_last() =~= self@.subrange(0, i as int));
                if i == 0 {
                    assert(out@ =~= s[0].0 + "="@ + s[0].1);
                } else {
                    assert(out@ =~= before + "&"@ + s.last().0 + "="@ + s.last().1);
                }
            }
            i = i + 1;
        }
        assert(self@.subrange(0, i as int) =~= self@);
        string_of(out.as_slice())
    }
}

/// Reads a query string into a map; a later pair overrides an earlier one
/// with the same key.
pub fn parse_query(code: &str) -> (r: LsarResult<QueryMap>)
    ensures
        match query_pairs_of(code@) {
            Some(pairs) => r matches Ok(q) && q@ == collect_spec(pairs) && q.wf(),
            None => r == Err::<QueryMap, LsarError>(LsarError::UrlParse),
        },
{
    let pairs = match query_pairs(code) {
        Some(p) => p,
        None => return Err(LsarError::UrlParse),
    };
    let ghost ps = pairs@.map_values(|p: (String, String)| (p.0@, p.1@));
    let mut q = QueryMap::new();
    let mut i: usize = 0;
    while i < pairs.len()
        invariant
            i <= pairs@.len(),
            ps == pairs@.map_values(|p: (String, String)| (p.0@, p.1@)),
            q@ == collect_spec(ps.subrange(0, i as int)),
            q.wf(),
        decreases pairs@.len() - i,
    {
        let k = &pairs[i].0;
        let v = pairs[i].1.clone();
        proof {
            assert(ps.subrange(0, i + 1).drop_last() =~= ps.subrange(0, i as int));
        }
        q.insert(k.as_str(), v);
        i = i + 1;
    }
    assert(ps.subrange(0, i as int) =~= ps);
    Ok(q)
}

} // verus!
