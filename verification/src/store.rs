//! The persisted state store: a mapping from (widget kind, identifier) to the
//! widget's last committed result value.
//!
//! Entries are created on a stateful widget's first invocation, overwritten
//! on every later one, and removable on demand with `forget`. A stored value
//! is read back as the exact result type the widget kind produces; on a
//! kind/type mismatch (a host-level identifier-reuse bug) the reader falls
//! back to the type's default value, as if no prior state existed.

use vstd::prelude::*;

use crate::ids::str_eq;

verus! {

/// The kind tag of a widget, one per widget type; together with the
/// identifier it forms the store's composite key.
#[derive(Clone, Copy, Debug, PartialEq, Eq, Structural)]
pub enum WidgetKind {
    Button,
    ToggleButton,
}

/// A widget result at rest in the store, as a closed tagged variant.
#[derive(Clone, Copy, Debug, PartialEq, Eq, Structural)]
pub enum StoredValue {
    Bool(bool),
}

/// One store entry: a composite key and the last committed result.
#[derive(Clone, Copy, Debug)]
pub struct StoreEntry {
    pub kind: WidgetKind,
    pub id: &'static str,
    pub value: StoredValue,
}

/// The mathematical shape of a store entry: the identifier is its character
/// contents.
#[verifier::ext_equal]
pub ghost struct StoreRecord {
    pub kind: WidgetKind,
    pub id: Seq<char>,
    pub value: StoredValue,
}

/// The record a store entry denotes.
pub open spec fn record_of(e: StoreEntry) -> StoreRecord {
    StoreRecord { kind: e.kind, id: e.id@, value: e.value }
}

/// The store's contents as records, in entry order.
pub open spec fn store_view(s: Seq<StoreEntry>) -> Seq<StoreRecord> {
    s.map_values(|e: StoreEntry| record_of(e))
}

/// Whether a record carries the given composite key.
pub open spec fn record_matches(r: StoreRecord, kind: WidgetKind, id: Seq<char>) -> bool {
    r.kind == kind && r.id == id
}

/// The first value stored under `(kind, id)` at or after position `k`.
pub open spec fn lookup_from(
    s: Seq<StoreRecord>,
    kind: WidgetKind,
    id: Seq<char>,
    k: int,
) -> Option<StoredValue>
    decreases s.len() - k,
{
    if k < 0 || k >= s.len() {
        Option::None
    } else if record_matches(s[k], kind, id) {
        Option::Some(s[k].value)
    } else {
        lookup_from(s, kind, id, k + 1)
    }
}

/// The value stored under `(kind, id)`, if any.
pub open spec fn spec_lookup(s: Seq<StoreRecord>, kind: WidgetKind, id: Seq<char>) -> Option<
    StoredValue,
> {
    lookup_from(s, kind, id, 0)
}

/// The store after committing `v` under `(kind, id)`, scanning from `k`: the
/// first entry with that key is overwritten, or a fresh entry is appended.
pub open spec fn commit_from(
    s: Seq<StoreRecord>,
    kind: WidgetKind,
    id: Seq<char>,
    v: StoredValue,
    k: int,
) -> Seq<StoreRecord>
    decreases s.len() - k,
{
    if k < 0 {
        s
    } else if k >= s.len() {
        s.push(StoreRecord { kind, id, value: v })
    } else if record_matches(s[k], kind, id) {
        s.update(k, StoreRecord { kind, id, value: v })
    } else {
        commit_from(s, kind, id, v, k + 1)
    }
}

/// The store after committing `v` under `(kind, id)`.
pub open spec fn spec_commit(
    s: Seq<StoreRecord>,
    kind: WidgetKind,
    id: Seq<char>,
    v: StoredValue,
) -> Seq<StoreRecord> {
    commit_from(s, kind, id, v, 0)
}

/// The store after forgetting `id`, scanning from `k`: the first entry whose
/// identifier matches is removed, whatever its kind; absent, nothing changes.
pub open spec fn forget_from(s: Seq<StoreRecord>, id: Seq<char>, k: int) -> Seq<StoreRecord>
    decreases s.len() - k,
{
    if k < 0 || k >= s.len() {
        s
    } else if s[k].id == id {
        s.remove(k)
    } else {
        forget_from(s, id, k + 1)
    }
}

/// The store after forgetting `id`.
pub open spec fn spec_forget(s: Seq<StoreRecord>, id: Seq<char>) -> Seq<StoreRecord> {
    forget_from(s, id, 0)
}

/// How many records at or after position `k` carry identifier `id`.
pub open spec fn count_id_from(s: Seq<StoreRecord>, id: Seq<char>, k: int) -> nat
    decreases s.len() - k,
{
    if k < 0 || k >= s.len() {
        0
    } else if s[k].id == id {
        1 + count_id_from(s, id, k + 1)
    } else {
        count_id_from(s, id, k + 1)
    }
}

/// How many records of the store carry identifier `id`.
pub open spec fn count_id(s: Seq<StoreRecord>, id: Seq<char>) -> nat {
    count_id_from(s, id, 0)
}

/// A result type a stateful widget may persist: how it is written to and
/// read back from the store, and the default that stands in when nothing
/// (or a mismatched value) is found.
pub trait Stored: Sized {
    /// The stored shape of this value.
    spec fn stored_of(&self) -> StoredValue;

    /// The value a stored shape reads back as, if its type matches.
    spec fn spec_from_stored(v: StoredValue) -> Option<Self>;

    /// The default standing in for "no prior state".
    spec fn spec_default() -> Self;

    /// Writes the value into its stored shape; reading that shape back
    /// recovers the value.
    fn to_stored(&self) -> (v: StoredValue)
        ensures
            v == self.stored_of(),
            Self::spec_from_stored(v) == Option::Some(*self),
    ;

    /// Reads a stored shape back, or nothing on a type mismatch.
    fn from_stored(v: &StoredValue) -> (r: Option<Self>)
        ensures
            r == Self::spec_from_stored(*v),
    ;

    /// The default value.
    fn default_value() -> (r: Self)
        ensures
            r == Self::spec_default(),
    ;
}

impl Stored for bool {
    open spec fn stored_of(&self) -> StoredValue {
        StoredValue::Bool(*self)
    }

    open spec fn spec_from_stored(v: StoredValue) -> Option<bool> {
        match v {
            StoredValue::Bool(b) => Option::Some(b),
        }
    }

    open spec fn spec_default() -> bool {
        false
    }

    fn to_stored(&self) -> StoredValue {
        StoredValue::Bool(*self)
    }

    fn from_stored(v: &StoredValue) -> Option<bool> {
        match v {
            StoredValue::Bool(b) => Option::Some(*b),
        }
    }

    fn default_value() -> bool {
        false
    }
}

/// The value a stateful widget is seeded with, given what the store held
/// under its key: the stored value if it reads back, else the default.
pub open spec fn spec_seed<R: Stored>(found: Option<StoredValue>) -> R {
    match found {
        Option::Some(v) => match R::spec_from_stored(v) {
            Option::Some(r) => r,
            Option::None => R::spec_default(),
        },
        Option::None => R::spec_default(),
    }
}

/// Finds the first value stored under `(kind, id)`.
pub(crate) fn store_lookup(stored: &Vec<StoreEntry>, kind: WidgetKind, id: &str) -> (r: Option<
    StoredValue,
>)
    ensures
        r == spec_lookup(store_view(stored@), kind, id@),
{
    let ghost recs: Seq<StoreRecord> = store_view(stored@);
    let mut k: usize = 0;
    while k < stored.len()
        invariant
            0 <= k <= stored@.len(),
            recs == store_view(stored@),
            lookup_from(recs, kind, id@, k as int) == spec_lookup(recs, kind, id@),
        decreases stored@.len() - k,
    {
        let e = stored[k];
        if e.kind == kind && str_eq(e.id, id) {
            assert(record_matches(recs[k as int], kind, id@));
            return Some(e.value);
        }
        assert(!record_matches(recs[k as int], kind, id@));
        k = k + 1;
    }
    None
}

/// Overwrites the first entry keyed `(kind, id)` with `value`, or appends a
/// fresh entry when the key is absent.
pub(crate) fn store_commit(
    stored: &mut Vec<StoreEntry>,
    kind: WidgetKind,
    id: &'static str,
    value: StoredValue,
)
    ensures
        store_view(final(stored)@) == spec_commit(store_view(old(stored)@), kind, id@, value),
{
    let ghost recs: Seq<StoreRecord> = store_view(stored@);
    let mut k: usize = 0;
    while k < stored.len()
        invariant
            0 <= k <= stored@.len(),
            recs == store_view(stored@),
            stored@ == old(stored)@,
            commit_from(recs, kind, id@, value, k as int) == spec_commit(recs, kind, id@, value),
        decreases stored@.len() - k,
    {
        let e = stored[k];
        if e.kind == kind && str_eq(e.id, id) {
            assert(record_matches(recs[k as int], kind, id@));
            stored[k] = StoreEntry { kind, id, value };
            assert(store_view(stored@) =~= recs.update(
                k as int,
                StoreRecord { kind, id: id@, value },
            ));
            return ;
        }
        assert(!record_matches(recs[k as int], kind, id@));
        k = k + 1;
    }
    stored.push(StoreEntry { kind, id, value });
    assert(store_view(stored@) =~= recs.push(StoreRecord { kind, id: id@, value }));
}

/// Committing leaves every record before the scan position unchanged and
/// grows the store by at most the one appended entry.
proof fn lemma_commit_frame(
    s: Seq<StoreRecord>,
    kind: WidgetKind,
    id: Seq<char>,
    v: StoredValue,
    k: int,
)
    requires
        0 <= k <= s.len(),
    ensures
        ({
            let c = commit_from(s, kind, id, v, k);
            &&& s.len() <= c.len() <= s.len() + 1
            &&& forall|i: int| 0 <= i < k ==> c[i] == s[i]
        }),
    decreases s.len() - k,
{
    if k < s.len() && !record_matches(s[k], kind, id) {
        lemma_commit_frame(s, kind, id, v, k + 1);
    }
}

/// A committed value is the one a lookup of its key then finds.
pub proof fn lemma_commit_lookup_from(
    s: Seq<StoreRecord>,
    kind: WidgetKind,
    id: Seq<char>,
    v: StoredValue,
    k: int,
)
    requires
        0 <= k <= s.len(),
    ensures
        lookup_from(commit_from(s, kind, id, v, k), kind, id, k) == Option::Some(v),
    decreases s.len() - k,
{
    let c = commit_from(s, kind, id, v, k);
    if k >= s.len() {
        assert(record_matches(c[k], kind, id));
    } else if record_matches(s[k], kind, id) {
        assert(record_matches(c[k], kind, id));
    } else {
        lemma_commit_lookup_from(s, kind, id, v, k + 1);
        lemma_commit_frame(s, kind, id, v, k + 1);
        assert(c[k] == s[k]);
    }
}

/// After a commit under `(kind, id)`, looking that key up yields exactly the
/// committed value.
pub proof fn lemma_commit_lookup(s: Seq<StoreRecord>, kind: WidgetKind, id: Seq<char>, v: StoredValue)
    ensures
        spec_lookup(spec_commit(s, kind, id, v), kind, id) == Option::Some(v),
{
    lemma_commit_lookup_from(s, kind, id, v, 0);
}

/// With no record carrying `id` at or after `k`, no lookup of `id` from `k`
/// finds anything, whatever the kind.
proof fn lemma_count_zero_lookup_none(s: Seq<StoreRecord>, kind: WidgetKind, id: Seq<char>, k: int)
    requires
        count_id_from(s, id, k) == 0,
    ensures
        lookup_from(s, kind, id, k) is None,
    decreases s.len() - k,
{
    if 0 <= k < s.len() {
        lemma_count_zero_lookup_none(s, kind, id, k + 1);
    }
}

/// Removing the record at `k` shifts the identifier count: counting the
/// shortened store from any `j >= k` counts the original from `j + 1`.
proof fn lemma_count_after_remove(s: Seq<StoreRecord>, id: Seq<char>, k: int, j: int)
    requires
        0 <= k < s.len(),
        k <= j <= s.len() - 1,
    ensures
        count_id_from(s.remove(k), id, j) == count_id_from(s, id, j + 1),
    decreases s.len() - j,
{
    if j < s.len() - 1 {
        lemma_count_after_remove(s, id, k, j + 1);
    }
}

/// Forgetting leaves every record before the scan position unchanged and
/// shrinks the store by at most one entry.
proof fn lemma_forget_frame(s: Seq<StoreRecord>, id: Seq<char>, k: int)
    requires
        0 <= k <= s.len(),
    ensures
        ({
            let f = forget_from(s, id, k);
            &&& s.len() - 1 <= f.len() <= s.len()
            &&& forall|i: int| 0 <= i < k ==> f[i] == s[i]
        }),
    decreases s.len() - k,
{
    if k < s.len() && s[k].id != id {
        lemma_forget_frame(s, id, k + 1);
    }
}

proof fn lemma_forget_from_removes(s: Seq<StoreRecord>, kind: WidgetKind, id: Seq<char>, k: int)
    requires
        0 <= k <= s.len(),
        count_id_from(s, id, k) <= 1,
    ensures
        lookup_from(forget_from(s, id, k), kind, id, k) is None,
    decreases s.len() - k,
{
    let f = forget_from(s, id, k);
    if k >= s.len() {
    } else if s[k].id == id {
        assert(count_id_from(s, id, k + 1) == 0);
        if k <= s.len() - 1 {
            if k < s.len() - 1 {
                lemma_count_after_remove(s, id, k, k);
            }
            assert(count_id_from(f, id, k) == 0);
            lemma_count_zero_lookup_none(f, kind, id, k);
        }
    } else {
        lemma_forget_from_removes(s, kind, id, k + 1);
        lemma_forget_frame(s, id, k + 1);
        if k < f.len() {
            assert(f[k] == s[k]);
            assert(!record_matches(f[k], kind, id));
        }
    }
}

/// Forgetting an identifier that at most one record carries leaves the store
/// with no record under that identifier at all: a later invocation with that
/// identifier starts from the default seed, exactly as a never-seen one.
pub proof fn lemma_forget_removes_identifier(s: Seq<StoreRecord>, id: Seq<char>)
    requires
        count_id(s, id) <= 1,
    ensures
        forall|kind: WidgetKind| spec_lookup(spec_forget(s, id), kind, id) is None,
{
    assert forall|kind: WidgetKind| spec_lookup(spec_forget(s, id), kind, id) is None by {
        lemma_forget_from_removes(s, kind, id, 0);
    }
}

/// Removes the first entry whose identifier is `id`, whatever its kind; does
/// nothing when no identifier matches.
pub(crate) fn store_forget(stored: &mut Vec<StoreEntry>, id: &str)
    ensures
        store_view(final(stored)@) == spec_forget(store_view(old(stored)@), id@),
{
    let ghost recs: Seq<StoreRecord> = store_view(stored@);
    let mut k: usize = 0;
    while k < stored.len()
        invariant
            0 <= k <= stored@.len(),
            recs == store_view(stored@),
            stored@ == old(stored)@,
            forget_from(recs, id@, k as int) == spec_forget(recs, id@),
        decreases stored@.len() - k,
    {
        let e = stored[k];
        if str_eq(e.id, id) {
            assert(recs[k as int].id == id@);
            stored.remove(k);
            assert(store_view(stored@) =~= recs.remove(k as int));
            return ;
        }
        assert(recs[k as int].id != id@);
        k = k + 1;
    }
}

} // verus!
