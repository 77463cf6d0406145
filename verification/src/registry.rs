//! The operator-built registry of every canonical store the broker has
//! open, keyed by `(backend label, instance name)` with the label compared
//! ASCII-case-insensitively, plus the default store the runtime falls back
//! to. Entries are kept in key order, which is the order listings report.
use vstd::prelude::*;

use crate::text::{
    lemma_seq_char_lt_asymmetric, lemma_seq_char_lt_irreflexive, lemma_seq_char_lt_total,
    lemma_seq_char_lt_transitive, push_char, seq_char_lt, str_eq, str_lt,
};

verus! {

// ── Keys ────────────────────────────────────────────────────────────────────

/// ASCII lower-casing of one character; other characters are unchanged.
pub open spec fn ascii_lower_char(c: char) -> char {
    if 'A' <= c && c <= 'Z' {
        ((c as u32) + 32) as char
    } else {
        c
    }
}

/// ASCII lower-casing of a string (what `str::to_ascii_lowercase` does).
pub open spec fn ascii_lower(s: Seq<char>) -> Seq<char> {
    s.map_values(|c: char| ascii_lower_char(c))
}

/// Lower-case the ASCII letters of `s`.
pub fn to_ascii_lowercase(s: &str) -> (r: String)
    ensures
        r@ == ascii_lower(s@),
{
    let n = s.unicode_len();
    let mut out = String::new();
    let mut i: usize = 0;
    while i < n
        invariant
            n == s@.len(),
            i <= n,
            out@ == ascii_lower(s@.take(i as int)),
        decreases n - i,
    {
        let c = s.get_char(i);
        let l: char = if 'A' <= c && c <= 'Z' {
            ((c as u8) + 32) as char
        } else {
            c
        };
        assert(l == ascii_lower_char(c));
        push_char(&mut out, l);
        assert(ascii_lower(s@.take(i + 1)) =~= ascii_lower(s@.take(i as int)).push(l));
        i = i + 1;
    }
    assert(s@.take(n as int) =~= s@);
    out
}

/// A registry key: the lower-cased backend label and the instance name.
pub type StoreKey = (Seq<char>, Seq<char>);

/// The key a store registered under `backend_label` / `instance_name` is
/// found by.
pub open spec fn store_key(backend_label: Seq<char>, instance_name: Seq<char>) -> StoreKey {
    (ascii_lower(backend_label), instance_name)
}

/// Key order: by label, then by instance name (tuple order of the two
/// strings).
pub open spec fn key_lt(a: StoreKey, b: StoreKey) -> bool {
    seq_char_lt(a.0, b.0) || (a.0 == b.0 && seq_char_lt(a.1, b.1))
}

proof fn lemma_key_lt_irreflexive(a: StoreKey)
    ensures
        !key_lt(a, a),
{
    lemma_seq_char_lt_irreflexive(a.0);
    lemma_seq_char_lt_irreflexive(a.1);
}

proof fn lemma_key_lt_transitive(a: StoreKey, b: StoreKey, c: StoreKey)
    requires
        key_lt(a, b),
        key_lt(b, c),
    ensures
        key_lt(a, c),
{
    if seq_char_lt(a.0, b.0) && seq_char_lt(b.0, c.0) {
        lemma_seq_char_lt_transitive(a.0, b.0, c.0);
    } else if a.0 == b.0 && b.0 == c.0 {
        lemma_seq_char_lt_transitive(a.1, b.1, c.1);
    }
}

proof fn lemma_key_lt_total(a: StoreKey, b: StoreKey)
    ensures
        a == b || key_lt(a, b) || key_lt(b, a),
{
    lemma_seq_char_lt_total(a.0, b.0);
    lemma_seq_char_lt_total(a.1, b.1);
}

proof fn lemma_key_lt_asymmetric(a: StoreKey, b: StoreKey)
    requires
        key_lt(a, b),
    ensures
        !key_lt(b, a),
{
    if seq_char_lt(a.0, b.0) {
        lemma_seq_char_lt_asymmetric(a.0, b.0);
        lemma_seq_char_lt_irreflexive(a.0);
    } else {
        lemma_seq_char_lt_asymmetric(a.1, b.1);
        lemma_seq_char_lt_irreflexive(a.0);
    }
}

/// Compare two keys: `Some(true)` when `a < b`, `Some(false)` when `a > b`,
/// `None` when equal.
fn order_of_keys(a0: &str, a1: &str, b0: &str, b1: &str) -> (r: Option<bool>)
    ensures
        r == Some(true) <==> key_lt((a0@, a1@), (b0@, b1@)),
        r == Some(false) <==> key_lt((b0@, b1@), (a0@, a1@)),
        r is None <==> (a0@, a1@) == (b0@, b1@),
{
    proof {
        lemma_key_lt_total((a0@, a1@), (b0@, b1@));
        lemma_key_lt_irreflexive((a0@, a1@));
        if key_lt((a0@, a1@), (b0@, b1@)) {
            lemma_key_lt_asymmetric((a0@, a1@), (b0@, b1@));
        }
    }
    if str_lt(a0, b0) {
        Some(true)
    } else if !str_eq(a0, b0) {
        proof {
            lemma_seq_char_lt_total(a0@, b0@);
        }
        Some(false)
    } else if str_lt(a1, b1) {
        Some(true)
    } else if !str_eq(a1, b1) {
        proof {
            lemma_seq_char_lt_total(a1@, b1@);
        }
        Some(false)
    } else {
        None
    }
}

// ── Entries ─────────────────────────────────────────────────────────────────

/// One registered store under its key.
pub struct RegistryEntry<T> {
    /// Lower-cased backend label.
    pub backend_label: String,
    pub instance_name: String,
    pub store: T,
}

pub open spec fn entry_key<T>(e: RegistryEntry<T>) -> StoreKey {
    (e.backend_label@, e.instance_name@)
}

/// Entries in strictly increasing key order (so no key occurs twice).
pub open spec fn entries_sorted<T>(s: Seq<RegistryEntry<T>>) -> bool {
    forall|i: int, j: int|
        0 <= i < j < s.len() ==> key_lt(entry_key(#[trigger] s[i]), entry_key(#[trigger] s[j]))
}

/// The keys of the entries, in order.
pub open spec fn entry_keys<T>(s: Seq<RegistryEntry<T>>) -> Seq<StoreKey> {
    s.map_values(|e: RegistryEntry<T>| entry_key(e))
}

/// The entries as a map from key to store.
pub open spec fn entries_map<T>(s: Seq<RegistryEntry<T>>) -> Map<StoreKey, T> {
    Map::new(
        |k: StoreKey| exists|i: int| 0 <= i < s.len() && entry_key(#[trigger] s[i]) == k,
        |k: StoreKey| s[choose|i: int| 0 <= i < s.len() && entry_key(#[trigger] s[i]) == k].store,
    )
}

proof fn lemma_entries_map_at<T>(s: Seq<RegistryEntry<T>>, i: int)
    requires
        entries_sorted(s),
        0 <= i < s.len(),
    ensures
        entries_map(s).dom().contains(entry_key(s[i])),
        entries_map(s)[entry_key(s[i])] == s[i].store,
{
    let k = entry_key(s[i]);
    assert(entry_key(s[i]) == k);
    let j = choose|j: int| 0 <= j < s.len() && entry_key(#[trigger] s[j]) == k;
    if j < i {
        assert(key_lt(entry_key(s[j]), entry_key(s[i])));
        lemma_key_lt_irreflexive(k);
    } else if j > i {
        assert(key_lt(entry_key(s[i]), entry_key(s[j])));
        lemma_key_lt_irreflexive(k);
    }
}

/// Find the entry with key `(label, instance)`, or the position where it
/// belongs.
fn locate<T>(v: &Vec<RegistryEntry<T>>, label: &str, instance: &str) -> (r: (usize, bool))
    requires
        entries_sorted(v@),
    ensures
        r.0 <= v@.len(),
        r.1 ==> r.0 < v@.len() && entry_key(v@[r.0 as int]) == (label@, instance@),
        forall|i: int| 0 <= i < r.0 ==> key_lt(entry_key(#[trigger] v@[i]), (label@, instance@)),
        forall|i: int|
            (if r.1 {
                r.0 + 1
            } else {
                r.0 as int
            }) <= i < v@.len() ==> key_lt((label@, instance@), entry_key(#[trigger] v@[i])),
{
    let n = v.len();
    let mut pos: usize = 0;
    while pos < n
        invariant
            n == v@.len(),
            pos <= n,
            entries_sorted(v@),
            forall|i: int| 0 <= i < pos ==> key_lt(entry_key(#[trigger] v@[i]), (label@, instance@)),
        decreases n - pos,
    {
        let e = &v[pos];
        match order_of_keys(e.backend_label.as_str(), e.instance_name.as_str(), label, instance) {
            Some(true) => {
                pos = pos + 1;
            },
            Some(false) => {
                proof {
                    assert forall|i: int| pos <= i < v@.len() implies key_lt(
                        (label@, instance@),
                        entry_key(#[trigger] v@[i]),
                    ) by {
                        if i > pos {
                            assert(key_lt(entry_key(v@[pos as int]), entry_key(v@[i])));
                            lemma_key_lt_transitive(
                                (label@, instance@),
                                entry_key(v@[pos as int]),
                                entry_key(v@[i]),
                            );
                        }
                    }
                }
                return (pos, false);
            },
            None => {
                proof {
                    assert forall|i: int| pos + 1 <= i < v@.len() implies key_lt(
                        (label@, instance@),
                        entry_key(#[trigger] v@[i]),
                    ) by {
                        assert(key_lt(entry_key(v@[pos as int]), entry_key(v@[i])));
                    }
                }
                return (pos, true);
            },
        }
    }
    (pos, false)
}

/// Put `store` under `(label, instance)`, replacing what was there.
fn upsert<T>(v: &mut Vec<RegistryEntry<T>>, label: String, instance: String, store: T)
    requires
        entries_sorted(old(v)@),
    ensures
        entries_sorted(final(v)@),
        entries_map(final(v)@) == entries_map(old(v)@).insert((label@, instance@), store),
{
    let ghost k: StoreKey = (label@, instance@);
    let ghost s0 = v@;
    let (pos, found) = locate(v, label.as_str(), instance.as_str());
    let e = RegistryEntry { backend_label: label, instance_name: instance, store };
    assert(entry_key(e) == k);
    if found {
        v.set(pos, e);
        assert(v@ == s0.update(pos as int, e));
    } else {
        v.insert(pos, e);
        assert(v@ == s0.insert(pos as int, e));
    }
    let ghost s1 = v@;
    proof {
        assert forall|i: int, j: int| 0 <= i < j < s1.len() implies key_lt(
            entry_key(#[trigger] s1[i]),
            entry_key(#[trigger] s1[j]),
        ) by {
            if found {
                if i == pos {
                    assert(s1[j] == s0[j]);
                } else if j == pos {
                    assert(s1[i] == s0[i]);
                } else {
                    assert(s1[i] == s0[i]);
                    assert(s1[j] == s0[j]);
                }
            } else {
                if j < pos {
                    assert(s1[i] == s0[i]);
                    assert(s1[j] == s0[j]);
                } else if j == pos {
                    assert(s1[i] == s0[i]);
                } else if i < pos {
                    assert(s1[i] == s0[i]);
                    assert(s1[j] == s0[j - 1]);
                    lemma_key_lt_transitive(entry_key(s1[i]), k, entry_key(s1[j]));
                } else if i == pos {
                    assert(s1[j] == s0[j - 1]);
                } else {
                    assert(s1[i] == s0[i - 1]);
                    assert(s1[j] == s0[j - 1]);
                }
            }
        }
        let m0 = entries_map(s0);
        let m1 = entries_map(s1);
        let want = m0.insert(k, store);
        assert forall|q: StoreKey| #[trigger] m1.dom().contains(q) <==> want.dom().contains(q) by {
            if m1.dom().contains(q) {
                let i = choose|i: int| 0 <= i < s1.len() && entry_key(#[trigger] s1[i]) == q;
                if q != k {
                    let i0 = if found || i < pos {
                        i
                    } else {
                        i - 1
                    };
                    assert(s1[i] == s0[i0]);
                    assert(entry_key(s0[i0]) == q);
                }
            }
            if want.dom().contains(q) && q != k {
                let i0 = choose|i: int| 0 <= i < s0.len() && entry_key(#[trigger] s0[i]) == q;
                let i1 = if found || i0 < pos {
                    i0
                } else {
                    i0 + 1
                };
                assert(s1[i1] == s0[i0]);
                assert(entry_key(s1[i1]) == q);
            }
            if q == k {
                assert(entry_key(s1[pos as int]) == q);
            }
        }
        assert forall|q: StoreKey| #[trigger] m1.dom().contains(q) implies m1[q] == want[q] by {
            let i = choose|i: int| 0 <= i < s1.len() && entry_key(#[trigger] s1[i]) == q;
            lemma_entries_map_at(s1, i);
            if q == k {
                lemma_entries_map_at(s1, pos as int);
            } else {
                let i0 = if found || i < pos {
                    i
                } else {
                    i - 1
                };
                assert(s1[i] == s0[i0]);
                lemma_entries_map_at(s0, i0);
            }
        }
        assert(m1 =~= want);
    }
}

/// The store under `(label, instance)`, if any.
fn lookup<'a, T>(v: &'a Vec<RegistryEntry<T>>, label: &str, instance: &str) -> (r: Option<&'a T>)
    requires
        entries_sorted(v@),
    ensures
        r == if entries_map(v@).dom().contains((label@, instance@)) {
            Some(&entries_map(v@)[(label@, instance@)])
        } else {
            None::<&T>
        },
{
    let (pos, found) = locate(v, label, instance);
    if found {
        proof {
            lemma_entries_map_at(v@, pos as int);
        }
        Some(&v[pos].store)
    } else {
        proof {
            if entries_map(v@).dom().contains((label@, instance@)) {
                let i = choose|i: int|
                    0 <= i < v@.len() && entry_key(#[trigger] v@[i]) == (label@, instance@);
                lemma_key_lt_irreflexive((label@, instance@));
                if i < pos {
                    assert(key_lt(entry_key(v@[i]), (label@, instance@)));
                } else {
                    assert(key_lt((label@, instance@), entry_key(v@[i])));
                }
            }
        }
        None
    }
}

// ── The registry ────────────────────────────────────────────────────────────

/// Registry of open stores. `C` is the handle of a store's durability and
/// outbox surface; `F` the handle of the same store's full set of system
/// contracts, kept for stores registered with [`Self::register_full`].
pub struct CanonicalStoreRegistry<C, F> {
    by_key: Vec<RegistryEntry<C>>,
    system_stores: Vec<RegistryEntry<F>>,
    default_key: Option<(String, String)>,
}

impl<C, F> CanonicalStoreRegistry<C, F> {
    /// Both tables in key order.
    pub closed spec fn wf(&self) -> bool {
        entries_sorted(self.by_key@) && entries_sorted(self.system_stores@)
    }

    /// Registered stores by key.
    pub closed spec fn stores(&self) -> Map<StoreKey, C> {
        entries_map(self.by_key@)
    }

    /// Stores registered with their full system contracts, by key.
    pub closed spec fn full_stores(&self) -> Map<StoreKey, F> {
        entries_map(self.system_stores@)
    }

    /// The default key, if one was chosen.
    pub closed spec fn default_key(&self) -> Option<StoreKey> {
        match self.default_key {
            Some((l, i)) => Some((l@, i@)),
            None => None,
        }
    }

    /// The registered keys in key order.
    pub closed spec fn keys(&self) -> Seq<StoreKey> {
        entry_keys(self.by_key@)
    }

    /// An empty registry with no default.
    pub fn new() -> (r: Self)
        ensures
            r.wf(),
            r.stores() == Map::<StoreKey, C>::empty(),
            r.full_stores() == Map::<StoreKey, F>::empty(),
            r.default_key() is None,
    {
        let r = CanonicalStoreRegistry {
            by_key: Vec::new(),
            system_stores: Vec::new(),
            default_key: None,
        };
        assert(r.stores() =~= Map::<StoreKey, C>::empty());
        assert(r.full_stores() =~= Map::<StoreKey, F>::empty());
        r
    }

    /// Register a store under its backend label and instance name,
    /// replacing an earlier store with the same key. The default is left as
    /// it was: only `set_default` chooses it.
    pub fn register(&mut self, backend_label: &str, instance_name: &str, store: C)
        requires
            old(self).wf(),
        ensures
            final(self).wf(),
            final(self).stores() == old(self).stores().insert(
                store_key(backend_label@, instance_name@),
                store,
            ),
            final(self).full_stores() == old(self).full_stores(),
            final(self).default_key() == old(self).default_key(),
    {
        let label = to_ascii_lowercase(backend_label);
        let instance = String::from_str(instance_name);
        upsert(&mut self.by_key, label, instance, store);
    }

    /// Register a store with its full system contracts: `store` is the
    /// durability/outbox handle and `full` the handle of the same store's
    /// system contracts. Both views then find it; the default is left as it
    /// was.
    pub fn register_full(&mut self, backend_label: &str, instance_name: &str, store: C, full: F)
        requires
            old(self).wf(),
        ensures
            final(self).wf(),
            final(self).stores() == old(self).stores().insert(
                store_key(backend_label@, instance_name@),
                store,
            ),
            final(self).full_stores() == old(self).full_stores().insert(
                store_key(backend_label@, instance_name@),
                full,
            ),
            final(self).default_key() == old(self).default_key(),
    {
        let label = to_ascii_lowercase(backend_label);
        let instance = String::from_str(instance_name);
        upsert(&mut self.by_key, label.clone(), instance.clone(), store);
        upsert(&mut self.system_stores, label, instance, full);
    }

    /// Make the registered store under `(backend_label, instance_name)` the
    /// default; an unregistered key is refused.
    pub fn set_default(&mut self, backend_label: &str, instance_name: &str) -> (r: Result<(), String>)
        requires
            old(self).wf(),
        ensures
            final(self).wf(),
            final(self).stores() == old(self).stores(),
            final(self).full_stores() == old(self).full_stores(),
            r is Ok <==> old(self).stores().dom().contains(store_key(backend_label@, instance_name@)),
            r is Ok ==> final(self).default_key() == Some(store_key(backend_label@, instance_name@)),
            r is Err ==> final(self).default_key() == old(self).default_key(),
            r matches Err(m) ==> m@ == "canonical store '"@ + backend_label@ + ":"@ + instance_name@
                + "' is not registered"@,
    {
        let label = to_ascii_lowercase(backend_label);
        if lookup(&self.by_key, label.as_str(), instance_name).is_none() {
            return Err(
                String::from_str("canonical store '").concat(backend_label).concat(":").concat(
                    instance_name,
                ).concat("' is not registered"),
            );
        }
        self.default_key = Some((label, String::from_str(instance_name)));
        Ok(())
    }

    /// The store registered under `(backend_label, instance_name)`; the
    /// label matches in any ASCII case.
    pub fn get(&self, backend_label: &str, instance_name: &str) -> (r: Option<&C>)
        requires
            self.wf(),
        ensures
            r == if self.stores().dom().contains(store_key(backend_label@, instance_name@)) {
                Some(&self.stores()[store_key(backend_label@, instance_name@)])
            } else {
                None::<&C>
            },
    {
        let label = to_ascii_lowercase(backend_label);
        lookup(&self.by_key, label.as_str(), instance_name)
    }

    /// The full system-contract handle registered under
    /// `(backend_label, instance_name)`.
    pub fn get_full(&self, backend_label: &str, instance_name: &str) -> (r: Option<&F>)
        requires
            self.wf(),
        ensures
            r == if self.full_stores().dom().contains(store_key(backend_label@, instance_name@)) {
                Some(&self.full_stores()[store_key(backend_label@, instance_name@)])
            } else {
                None::<&F>
            },
    {
        let label = to_ascii_lowercase(backend_label);
        lookup(&self.system_stores, label.as_str(), instance_name)
    }

    /// The store the runtime falls back to: the one under the default key.
    pub fn default_store(&self) -> (r: Option<&C>)
        requires
            self.wf(),
        ensures
            r == match self.default_key() {
                Some(k) => if self.stores().dom().contains(k) {
                    Some(&self.stores()[k])
                } else {
                    None::<&C>
                },
                None => None::<&C>,
            },
    {
        match &self.default_key {
            Some((l, i)) => lookup(&self.by_key, l.as_str(), i.as_str()),
            None => None,
        }
    }

    /// The full system-contract handle under the default key.
    pub fn default_full_store(&self) -> (r: Option<&F>)
        requires
            self.wf(),
        ensures
            r == match self.default_key() {
                Some(k) => if self.full_stores().dom().contains(k) {
                    Some(&self.full_stores()[k])
                } else {
                    None::<&F>
                },
                None => None::<&F>,
            },
    {
        match &self.default_key {
            Some((l, i)) => lookup(&self.system_stores, l.as_str(), i.as_str()),
            None => None,
        }
    }

    /// Every registered store, in key order.
    pub fn all(&self) -> (r: Vec<&C>)
        requires
            self.wf(),
        ensures
            r@.len() == self.keys().len(),
            forall|i: int|
                0 <= i < r@.len() ==> self.stores().dom().contains(#[trigger] self.keys()[i])
                    && *r@[i] == self.stores()[self.keys()[i]],
    {
        let n = self.by_key.len();
        let mut out: Vec<&C> = Vec::new();
        let mut i: usize = 0;
        while i < n
            invariant
                n == self.by_key@.len(),
                i <= n,
                entries_sorted(self.by_key@),
                out@.len() == i,
                forall|j: int| 0 <= j < i ==> *(#[trigger] out@[j]) == self.by_key@[j].store,
            decreases n - i,
        {
            out.push(&self.by_key[i].store);
            i = i + 1;
        }
        proof {
            assert forall|j: int| 0 <= j < out@.len() implies self.stores().dom().contains(
                #[trigger] self.keys()[j],
            ) && *out@[j] == self.stores()[self.keys()[j]] by {
                assert(self.keys()[j] == entry_key(self.by_key@[j]));
                lemma_entries_map_at(self.by_key@, j);
            }
        }
        out
    }

    /// The registered keys in key order (label, then instance).
    pub fn registered_keys(&self) -> (r: Vec<(String, String)>)
        requires
            self.wf(),
        ensures
            r@.len() == self.keys().len(),
            forall|i: int| 0 <= i < r@.len() ==> (#[trigger] r@[i].0@, r@[i].1@) == self.keys()[i],
    {
        let n = self.by_key.len();
        let mut out: Vec<(String, String)> = Vec::new();
        let mut i: usize = 0;
        while i < n
            invariant
                n == self.by_key@.len(),
                i <= n,
                out@.len() == i,
                forall|j: int|
                    0 <= j < i ==> (#[trigger] out@[j].0@, out@[j].1@) == entry_key(self.by_key@[j]),
            decreases n - i,
        {
            let e = &self.by_key[i];
            out.push((e.backend_label.clone(), e.instance_name.clone()));
            i = i + 1;
        }
        out
    }
}

// ── Laws ────────────────────────────────────────────────────────────────────

/// The registered keys are listed in strictly increasing order: sorted,
/// and no key twice.
pub proof fn lemma_keys_sorted_and_unique<C, F>(r: CanonicalStoreRegistry<C, F>)
    requires
        r.wf(),
    ensures
        forall|i: int, j: int|
            0 <= i < j < r.keys().len() ==> key_lt(#[trigger] r.keys()[i], #[trigger] r.keys()[j]),
        forall|i: int, j: int|
            0 <= i < j < r.keys().len() ==> #[trigger] r.keys()[i] != #[trigger] r.keys()[j],
        forall|k: StoreKey| r.stores().dom().contains(k) <==> r.keys().contains(k),
{
    let s = r.by_key@;
    assert forall|i: int, j: int| 0 <= i < j < r.keys().len() implies key_lt(
        #[trigger] r.keys()[i],
        #[trigger] r.keys()[j],
    ) by {
        assert(r.keys()[i] == entry_key(s[i]));
        assert(r.keys()[j] == entry_key(s[j]));
    }
    assert forall|i: int, j: int| 0 <= i < j < r.keys().len() implies #[trigger] r.keys()[i]
        != #[trigger] r.keys()[j] by {
        assert(r.keys()[i] == entry_key(s[i]));
        assert(r.keys()[j] == entry_key(s[j]));
        lemma_key_lt_irreflexive(r.keys()[i]);
    }
    assert forall|k: StoreKey| r.stores().dom().contains(k) <==> r.keys().contains(k) by {
        if r.stores().dom().contains(k) {
            let i = choose|i: int| 0 <= i < s.len() && entry_key(#[trigger] s[i]) == k;
            assert(r.keys()[i] == k);
        }
        if r.keys().contains(k) {
            let i = choose|i: int| 0 <= i < r.keys().len() && r.keys()[i] == k;
            assert(entry_key(s[i]) == k);
        }
    }
}

/// What a lookup gives back after a registration: the store just
/// registered, under any ASCII case of its label; every other key keeps
/// what it had.
pub proof fn lemma_registered_store_is_found<C>(
    before: Map<StoreKey, C>,
    backend_label: Seq<char>,
    instance_name: Seq<char>,
    store: C,
    lookup_label: Seq<char>,
    other: StoreKey,
)
    requires
        ascii_lower(lookup_label) == ascii_lower(backend_label),
        other != store_key(backend_label, instance_name),
    ensures
        ({
            let after = before.insert(store_key(backend_label, instance_name), store);
            &&& after.dom().contains(store_key(lookup_label, instance_name))
            &&& after[store_key(lookup_label, instance_name)] == store
            &&& after.dom().contains(other) == before.dom().contains(other)
            &&& before.dom().contains(other) ==> after[other] == before[other]
        }),
{
}

/// Registering again under the same key replaces the earlier store.
pub proof fn lemma_reregistration_replaces<C>(
    before: Map<StoreKey, C>,
    backend_label: Seq<char>,
    instance_name: Seq<char>,
    first: C,
    second: C,
)
    ensures
        before.insert(store_key(backend_label, instance_name), first).insert(
            store_key(backend_label, instance_name),
            second,
        ) == before.insert(store_key(backend_label, instance_name), second),
{
    assert(before.insert(store_key(backend_label, instance_name), first).insert(
        store_key(backend_label, instance_name),
        second,
    ) =~= before.insert(store_key(backend_label, instance_name), second));
}

/// A label differing only in ASCII case names the same store.
pub proof fn lemma_label_case_is_ignored(a: Seq<char>, b: Seq<char>, instance_name: Seq<char>)
    requires
        ascii_lower(a) == ascii_lower(b),
    ensures
        store_key(a, instance_name) == store_key(b, instance_name),
{
}

} // verus!
