//! The local replica that the engine reads and writes: per-category record
//! tables, the persisted sync cursor, and the stored server endpoint.
//!
//! The collector selects the records whose last-modified timestamp lies
//! strictly after a reference point; the applier upserts a received batch by
//! stable identifier, all-or-nothing. Both are specified here over plain
//! record sequences.

use vstd::prelude::*;
use vstd::pervasive::VecAdditionalExecFns;

use crate::model::{ChangeSet, ConfigSnapshot, Record, SyncError, SyncSummary, summary_of, ts_in_range};

verus! {

// ---------------------------------------------------------------------------
// Selecting changes since a reference point
// ---------------------------------------------------------------------------

/// A record modified at `t` belongs to the window that starts right after
/// `since`; an absent `since` (first-ever sync) takes everything.
pub open spec fn newer_than(t: i64, since: Option<i64>) -> bool {
    match since {
        None => true,
        Some(c) => t > c,
    }
}

/// The subsequence of `s` whose records were modified strictly after `since`,
/// in their original order.
pub open spec fn changed_records(s: Seq<Record>, since: Option<i64>) -> Seq<Record>
    decreases s.len(),
{
    if s.len() == 0 {
        Seq::empty()
    } else {
        let prefix = changed_records(s.drop_last(), since);
        if newer_than(s.last().modified_at, since) {
            prefix.push(s.last())
        } else {
            prefix
        }
    }
}

/// Nothing is selected from a table whose records all predate the cursor.
pub proof fn lemma_changed_records_empty(s: Seq<Record>, c: i64)
    requires
        forall|i: int| 0 <= i < s.len() ==> #[trigger] s[i].modified_at <= c,
    ensures
        changed_records(s, Some(c)) == Seq::<Record>::empty(),
    decreases s.len(),
{
    if s.len() > 0 {
        lemma_changed_records_empty(s.drop_last(), c);
    }
}

// ---------------------------------------------------------------------------
// Upsert-by-identifier
// ---------------------------------------------------------------------------

/// Some record of `s` carries the identifier `id`.
pub open spec fn id_present(s: Seq<Record>, id: u64) -> bool {
    exists|i: int| 0 <= i < s.len() && s[i].id == id
}

/// The first position of `s` holding `id`, or `-1` when absent.
pub open spec fn index_of_id(s: Seq<Record>, id: u64) -> int
    decreases s.len(),
{
    if s.len() == 0 {
        -1
    } else if s[0].id == id {
        0
    } else if index_of_id(s.drop_first(), id) < 0 {
        -1
    } else {
        index_of_id(s.drop_first(), id) + 1
    }
}

/// No two records of `s` share an identifier.
pub open spec fn unique_ids(s: Seq<Record>) -> bool {
    forall|i: int, j: int| 0 <= i < j < s.len() ==> s[i].id != s[j].id
}

/// One upsert: a record whose identifier already occurs overwrites the first
/// record carrying it, in place; a fresh identifier is appended.
pub open spec fn upsert_one(s: Seq<Record>, r: Record) -> Seq<Record> {
    if id_present(s, r.id) {
        s.update(index_of_id(s, r.id), r)
    } else {
        s.push(r)
    }
}

/// A whole incoming batch, upserted in its order.
pub open spec fn upsert_all(s: Seq<Record>, incoming: Seq<Record>) -> Seq<Record>
    decreases incoming.len(),
{
    if incoming.len() == 0 {
        s
    } else {
        upsert_all(upsert_one(s, incoming.first()), incoming.drop_first())
    }
}

/// The last record of `c` carrying `id`: the value that wins when a batch
/// writes the same identifier more than once. Meaningful only when
/// `id_present(c, id)`.
pub open spec fn last_write(c: Seq<Record>, id: u64) -> Record
    decreases c.len(),
{
    if c.len() == 0 {
        vstd::pervasive::arbitrary()
    } else if id_present(c.drop_first(), id) {
        last_write(c.drop_first(), id)
    } else {
        c.first()
    }
}

// ---------------------------------------------------------------------------
// Facts about index_of_id and presence
// ---------------------------------------------------------------------------

/// `index_of_id` agrees with presence, lands on `id`, and is the first such
/// position.
pub proof fn lemma_index_of_id(s: Seq<Record>, id: u64)
    ensures
        id_present(s, id) <==> index_of_id(s, id) >= 0,
        index_of_id(s, id) >= 0 ==> {
            &&& index_of_id(s, id) < s.len()
            &&& s[index_of_id(s, id)].id == id
            &&& forall|k: int| 0 <= k < index_of_id(s, id) ==> s[k].id != id
        },
    decreases s.len(),
{
    if s.len() == 0 {
        assert(!id_present(s, id));
    } else {
        let rest = s.drop_first();
        lemma_index_of_id(rest, id);
        if s[0].id == id {
            assert(id_present(s, id));
        } else {
            if id_present(rest, id) {
                let i = choose|i: int| 0 <= i < rest.len() && rest[i].id == id;
                assert(s[i + 1].id == id);
                assert(id_present(s, id));
            }
            if id_present(s, id) {
                let i = choose|i: int| 0 <= i < s.len() && s[i].id == id;
                assert(rest[i - 1].id == id);
                assert(id_present(rest, id));
            }
            if index_of_id(s, id) >= 0 {
                let n = index_of_id(s, id);
                assert(s[n].id == id);
                assert forall|k: int| 0 <= k < n implies s[k].id != id by {
                    if k > 0 {
                        assert(rest[k - 1].id != id);
                    }
                }
            }
        }
    }
}

/// The first occurrence determines `index_of_id`.
pub proof fn lemma_index_of_id_at(s: Seq<Record>, id: u64, i: int)
    requires
        0 <= i < s.len(),
        s[i].id == id,
        forall|k: int| 0 <= k < i ==> s[k].id != id,
    ensures
        index_of_id(s, id) == i,
    decreases s.len(),
{
    if i == 0 {
    } else {
        let rest = s.drop_first();
        assert forall|k: int| 0 <= k < i - 1 implies rest[k].id != id by {
            assert(s[k + 1].id != id);
        }
        lemma_index_of_id_at(rest, id, i - 1);
        lemma_index_of_id(rest, id);
        assert(id_present(rest, id));
    }
}

/// Presence in a non-empty sequence is presence at the head or in the tail.
pub proof fn lemma_presence_unfold(c: Seq<Record>, id: u64)
    requires
        c.len() > 0,
    ensures
        id_present(c, id) <==> (c.first().id == id || id_present(c.drop_first(), id)),
{
    let rest = c.drop_first();
    if id_present(rest, id) {
        let i = choose|i: int| 0 <= i < rest.len() && rest[i].id == id;
        assert(c[i + 1].id == id);
        assert(id_present(c, id));
    }
    if id_present(c, id) && c.first().id != id {
        let i = choose|i: int| 0 <= i < c.len() && c[i].id == id;
        assert(rest[i - 1].id == id);
        assert(id_present(rest, id));
    }
}

// ---------------------------------------------------------------------------
// Facts about one upsert
// ---------------------------------------------------------------------------

/// Upserting keeps identifiers unique and never shrinks the table.
pub proof fn lemma_upsert_one_unique(s: Seq<Record>, r: Record)
    requires
        unique_ids(s),
    ensures
        unique_ids(upsert_one(s, r)),
        s.len() <= upsert_one(s, r).len() <= s.len() + 1,
{
    lemma_index_of_id(s, r.id);
    if id_present(s, r.id) {
        let j = index_of_id(s, r.id);
        let u = s.update(j, r);
        assert forall|i: int, k: int| 0 <= i < k < u.len() implies u[i].id != u[k].id by {
            assert(s[i].id != s[k].id);
            assert(s[j].id == r.id);
        }
    } else {
        let u = s.push(r);
        assert forall|i: int, k: int| 0 <= i < k < u.len() implies u[i].id != u[k].id by {
            if k < s.len() {
                assert(s[i].id != s[k].id);
            } else {
                assert(u[k] == r);
                assert(s[i].id != r.id);
            }
        }
    }
}

/// The identifiers of an upserted table are the old ones plus the new
/// record's.
pub proof fn lemma_upsert_one_presence(s: Seq<Record>, r: Record, x: u64)
    ensures
        id_present(upsert_one(s, r), x) <==> (id_present(s, x) || x == r.id),
{
    lemma_index_of_id(s, r.id);
    let u = upsert_one(s, r);
    if id_present(s, r.id) {
        let j = index_of_id(s, r.id);
        assert(s[j].id == r.id);
        if id_present(u, x) {
            let i = choose|i: int| 0 <= i < u.len() && u[i].id == x;
            if i == j {
                assert(x == r.id);
            } else {
                assert(s[i].id == x);
            }
        }
        if id_present(s, x) {
            let i = choose|i: int| 0 <= i < s.len() && s[i].id == x;
            if i == j {
                assert(u[j].id == r.id && x == r.id);
            } else {
                assert(u[i].id == x);
            }
            assert(id_present(u, x));
        }
        if x == r.id {
            assert(u[j].id == x);
            assert(id_present(u, x));
        }
    } else {
        if id_present(u, x) {
            let i = choose|i: int| 0 <= i < u.len() && u[i].id == x;
            if i == s.len() {
                assert(x == r.id);
            } else {
                assert(s[i].id == x);
            }
        }
        if id_present(s, x) {
            let i = choose|i: int| 0 <= i < s.len() && s[i].id == x;
            assert(u[i].id == x);
            assert(id_present(u, x));
        }
        if x == r.id {
            assert(u[s.len() as int].id == x);
            assert(id_present(u, x));
        }
    }
}

/// Appending one more record to a batch is one more upsert at the end.
pub proof fn lemma_upsert_all_push(s: Seq<Record>, c: Seq<Record>, r: Record)
    ensures
        upsert_all(s, c.push(r)) == upsert_one(upsert_all(s, c), r),
    decreases c.len(),
{
    if c.len() == 0 {
        assert(c.push(r).first() == r);
        assert(c.push(r).drop_first() =~= Seq::<Record>::empty());
        assert(upsert_all(s, c.push(r)) == upsert_all(
            upsert_one(s, r),
            Seq::<Record>::empty(),
        ));
        assert(upsert_all(upsert_one(s, r), Seq::<Record>::empty()) == upsert_one(s, r));
        assert(upsert_all(s, c) == s);
    } else {
        assert(c.push(r).first() == c.first());
        assert(c.push(r).drop_first() =~= c.drop_first().push(r));
        assert(upsert_all(s, c.push(r)) == upsert_all(
            upsert_one(s, c.first()),
            c.drop_first().push(r),
        ));
        lemma_upsert_all_push(upsert_one(s, c.first()), c.drop_first(), r);
        assert(upsert_all(s, c) == upsert_all(upsert_one(s, c.first()), c.drop_first()));
    }
}

// ---------------------------------------------------------------------------
// Facts about a whole batch
// ---------------------------------------------------------------------------

/// A whole batch keeps identifiers unique and never shrinks the table.
pub proof fn lemma_upsert_all_unique(s: Seq<Record>, c: Seq<Record>)
    requires
        unique_ids(s),
    ensures
        unique_ids(upsert_all(s, c)),
        upsert_all(s, c).len() >= s.len(),
    decreases c.len(),
{
    if c.len() > 0 {
        lemma_upsert_one_unique(s, c.first());
        lemma_upsert_all_unique(upsert_one(s, c.first()), c.drop_first());
    }
}

/// The identifiers after a batch are the old ones plus the batch's.
pub proof fn lemma_upsert_all_presence(s: Seq<Record>, c: Seq<Record>, x: u64)
    ensures
        id_present(upsert_all(s, c), x) <==> (id_present(s, x) || id_present(c, x)),
    decreases c.len(),
{
    if c.len() == 0 {
        assert(!id_present(c, x));
    } else {
        lemma_upsert_one_presence(s, c.first(), x);
        lemma_presence_unfold(c, x);
        lemma_upsert_all_presence(upsert_one(s, c.first()), c.drop_first(), x);
    }
}

/// A record already in the table stays at its position through a batch, and
/// keeps its value when the batch never writes its identifier.
pub proof fn lemma_upsert_all_index(s: Seq<Record>, c: Seq<Record>, id: u64)
    requires
        unique_ids(s),
        id_present(s, id),
    ensures
        id_present(upsert_all(s, c), id),
        index_of_id(upsert_all(s, c), id) == index_of_id(s, id),
        !id_present(c, id) ==> upsert_all(s, c)[index_of_id(s, id)] == s[index_of_id(s, id)],
    decreases c.len(),
{
    if c.len() == 0 {
    } else {
        let r = c.first();
        let s1 = upsert_one(s, r);
        lemma_upsert_one_unique(s, r);
        lemma_upsert_one_presence(s, r, id);
        lemma_index_of_id(s, id);
        lemma_index_of_id(s, r.id);
        lemma_presence_unfold(c, id);
        let i = index_of_id(s, id);
        if id_present(s, r.id) {
            let j = index_of_id(s, r.id);
            assert(s1 == s.update(j, r));
            if i == j {
                assert(id == s[j].id && s[j].id == r.id);
                assert(s1[i].id == id);
            } else {
                assert(s1[i] == s[i]);
            }
            assert forall|k: int| 0 <= k < i implies s1[k].id != id by {
                if k == j {
                    if id == r.id {
                        assert(s[j].id == id);
                        assert(j == i);
                    }
                } else {
                    assert(s1[k] == s[k]);
                }
            }
            lemma_index_of_id_at(s1, id, i);
        } else {
            assert(s1 == s.push(r));
            assert(s1[i] == s[i]);
            assert forall|k: int| 0 <= k < i implies s1[k].id != id by {
                assert(s1[k] == s[k]);
            }
            lemma_index_of_id_at(s1, id, i);
        }
        assert(id_present(s1, id));
        assert(index_of_id(s1, id) == i);
        lemma_upsert_all_index(s1, c.drop_first(), id);
        if !id_present(c, id) {
            assert(r.id != id);
            assert(s1[i] == s[i]);
        }
    }
}

/// Every identifier a batch writes ends up holding the batch's last write for
/// it.
pub proof fn lemma_upsert_all_settle(s: Seq<Record>, c: Seq<Record>, id: u64)
    requires
        unique_ids(s),
        id_present(c, id),
    ensures
        id_present(upsert_all(s, c), id),
        upsert_all(s, c)[index_of_id(upsert_all(s, c), id)] == last_write(c, id),
    decreases c.len(),
{
    let r = c.first();
    let s1 = upsert_one(s, r);
    lemma_upsert_one_unique(s, r);
    lemma_presence_unfold(c, id);
    if id_present(c.drop_first(), id) {
        lemma_upsert_all_settle(s1, c.drop_first(), id);
    } else {
        assert(r.id == id);
        lemma_index_of_id(s, id);
        lemma_upsert_one_presence(s, r, id);
        // After this one upsert, `id` is present and holds `r`.
        if id_present(s, id) {
            let j = index_of_id(s, id);
            assert(s1 == s.update(j, r));
            assert(s1[j] == r);
            assert forall|k: int| 0 <= k < j implies s1[k].id != id by {
                assert(s1[k] == s[k]);
            }
            lemma_index_of_id_at(s1, id, j);
            lemma_upsert_all_index(s1, c.drop_first(), id);
        } else {
            assert(s1 == s.push(r));
            assert(s1[s.len() as int] == r);
            assert forall|k: int| 0 <= k < s.len() implies s1[k].id != id by {
                assert(s1[k] == s[k]);
            }
            lemma_index_of_id_at(s1, id, s.len() as int);
            lemma_upsert_all_index(s1, c.drop_first(), id);
        }
        assert(last_write(c, id) == r);
    }
}

/// A batch whose identifiers all exist already only overwrites: the table
/// keeps its length.
pub proof fn lemma_upsert_all_len_when_present(s: Seq<Record>, c: Seq<Record>)
    requires
        unique_ids(s),
        forall|k: int| 0 <= k < c.len() ==> id_present(s, #[trigger] c[k].id),
    ensures
        upsert_all(s, c).len() == s.len(),
    decreases c.len(),
{
    if c.len() > 0 {
        let r = c.first();
        let s1 = upsert_one(s, r);
        lemma_index_of_id(s, r.id);
        assert(id_present(s, r.id));
        assert(s1.len() == s.len());
        lemma_upsert_one_unique(s, r);
        assert forall|k: int| 0 <= k < c.drop_first().len() implies id_present(
            s1,
            #[trigger] c.drop_first()[k].id,
        ) by {
            assert(c.drop_first()[k] == c[k + 1]);
            lemma_upsert_one_presence(s, r, c[k + 1].id);
        }
        lemma_upsert_all_len_when_present(s1, c.drop_first());
    }
}

// ---------------------------------------------------------------------------
// Referential integrity of an incoming batch
// ---------------------------------------------------------------------------

/// A workout record's exercise reference, when it carries one, must resolve
/// in the exercise table.
pub open spec fn ref_ok(w: Record, exercises: Seq<Record>) -> bool {
    w.exercise_ref matches Some(eid) ==> id_present(exercises, eid)
}

/// Every workout of the batch resolves against the exercise table.
pub open spec fn refs_resolve(workouts: Seq<Record>, exercises: Seq<Record>) -> bool {
    forall|i: int| 0 <= i < workouts.len() ==> ref_ok(#[trigger] workouts[i], exercises)
}

/// The position of the first workout whose reference dangles, or `-1`.
pub open spec fn first_dangling(workouts: Seq<Record>, exercises: Seq<Record>) -> int
    decreases workouts.len(),
{
    if workouts.len() == 0 {
        -1
    } else if !ref_ok(workouts.first(), exercises) {
        0
    } else if first_dangling(workouts.drop_first(), exercises) < 0 {
        -1
    } else {
        first_dangling(workouts.drop_first(), exercises) + 1
    }
}

/// The first dangling reference determines `first_dangling`.
pub proof fn lemma_first_dangling_at(workouts: Seq<Record>, exercises: Seq<Record>, i: int)
    requires
        0 <= i < workouts.len(),
        !ref_ok(workouts[i], exercises),
        forall|k: int| 0 <= k < i ==> ref_ok(#[trigger] workouts[k], exercises),
    ensures
        first_dangling(workouts, exercises) == i,
    decreases workouts.len(),
{
    if i == 0 {
    } else {
        let rest = workouts.drop_first();
        assert forall|k: int| 0 <= k < i - 1 implies ref_ok(#[trigger] rest[k], exercises) by {
            assert(rest[k] == workouts[k + 1]);
        }
        assert(rest[i - 1] == workouts[i]);
        lemma_first_dangling_at(rest, exercises, i - 1);
    }
}

// ---------------------------------------------------------------------------
// Executable helpers
// ---------------------------------------------------------------------------

/// Linear search for the first record carrying `id`.
fn find_index(records: &Vec<Record>, id: u64) -> (r: Option<usize>)
    ensures
        match r {
            Some(j) => {
                &&& j < records@.len()
                &&& records@[j as int].id == id
                &&& index_of_id(records@, id) == j as int
                &&& id_present(records@, id)
            },
            None => !id_present(records@, id),
        },
{
    let mut i: usize = 0;
    while i < records.len()
        invariant
            i <= records@.len(),
            forall|k: int| 0 <= k < i ==> records@[k].id != id,
        decreases records@.len() - i,
    {
        if records[i].id == id {
            proof {
                lemma_index_of_id_at(records@, id, i as int);
            }
            return Some(i);
        }
        i += 1;
    }
    None
}

/// An exact copy of a record table.
fn duplicate_records(records: &Vec<Record>) -> (r: Vec<Record>)
    ensures
        r@ == records@,
{
    let mut out: Vec<Record> = Vec::new();
    let mut i: usize = 0;
    while i < records.len()
        invariant
            i <= records@.len(),
            out@ =~= records@.take(i as int),
        decreases records@.len() - i,
    {
        out.push(records[i].duplicate());
        proof {
            assert(out@ =~= records@.take(i as int + 1));
        }
        i += 1;
    }
    proof {
        assert(records@.take(records@.len() as int) =~= records@);
    }
    out
}

/// The records of `records` modified strictly after `since`, in order.
fn collect_newer(records: &Vec<Record>, since: Option<i64>) -> (r: Vec<Record>)
    ensures
        r@ == changed_records(records@, since),
{
    let mut out: Vec<Record> = Vec::new();
    let mut i: usize = 0;
    while i < records.len()
        invariant
            i <= records@.len(),
            out@ == changed_records(records@.take(i as int), since),
        decreases records@.len() - i,
    {
        let keep = match since {
            None => true,
            Some(c) => records[i].modified_at > c,
        };
        if keep {
            out.push(records[i].duplicate());
        }
        proof {
            let t1 = records@.take(i as int + 1);
            assert(t1.drop_last() =~= records@.take(i as int));
            assert(t1.last() == records@[i as int]);
        }
        i += 1;
    }
    proof {
        assert(records@.take(records@.len() as int) =~= records@);
    }
    out
}

/// Upserts the whole incoming batch into `base`, in batch order.
fn upsert_records(base: Vec<Record>, incoming: &Vec<Record>) -> (r: Vec<Record>)
    ensures
        r@ == upsert_all(base@, incoming@),
{
    let ghost orig = base@;
    let mut out = base;
    let mut i: usize = 0;
    while i < incoming.len()
        invariant
            i <= incoming@.len(),
            out@ == upsert_all(orig, incoming@.take(i as int)),
        decreases incoming@.len() - i,
    {
        let ghost before = out@;
        let rec = &incoming[i];
        match find_index(&out, rec.id) {
            Some(j) => {
                out.set(j, rec.duplicate());
            },
            None => {
                out.push(rec.duplicate());
            },
        }
        proof {
            assert(out@ == upsert_one(before, incoming@[i as int]));
            assert(incoming@.take(i as int + 1) =~= incoming@.take(i as int).push(
                incoming@[i as int],
            ));
            lemma_upsert_all_push(orig, incoming@.take(i as int), incoming@[i as int]);
        }
        i += 1;
    }
    proof {
        assert(incoming@.take(incoming@.len() as int) =~= incoming@);
    }
    out
}

/// Decides `unique_ids` by a pairwise scan.
fn unique_ids_check(records: &Vec<Record>) -> (r: bool)
    ensures
        r == unique_ids(records@),
{
    let mut i: usize = 0;
    while i < records.len()
        invariant
            i <= records@.len(),
            forall|a: int, b: int| 0 <= a < b < records@.len() && a < i ==> records@[a].id
                != records@[b].id,
        decreases records@.len() - i,
    {
        let mut j: usize = i + 1;
        while j < records.len()
            invariant
                i < j,
                i < records@.len(),
                forall|b: int| i < b < j ==> records@[i as int].id != records@[b].id,
            decreases records@.len() - j,
        {
            if records[i].id == records[j].id {
                return false;
            }
            j += 1;
        }
        i += 1;
    }
    true
}

/// Scans an incoming workout batch for the first reference that does not
/// resolve in the given exercise table; returns that record's identifier.
fn check_refs(workouts: &Vec<Record>, exercises: &Vec<Record>) -> (r: Option<u64>)
    ensures
        r is None <==> refs_resolve(workouts@, exercises@),
        r matches Some(id) ==> {
            let fd = first_dangling(workouts@, exercises@);
            &&& 0 <= fd < workouts@.len()
            &&& workouts@[fd].id == id
        },
{
    let mut i: usize = 0;
    while i < workouts.len()
        invariant
            i <= workouts@.len(),
            forall|k: int| 0 <= k < i ==> ref_ok(#[trigger] workouts@[k], exercises@),
        decreases workouts@.len() - i,
    {
        let resolved = match workouts[i].exercise_ref {
            None => true,
            Some(eid) => find_index(exercises, eid).is_some(),
        };
        if !resolved {
            proof {
                lemma_first_dangling_at(workouts@, exercises@, i as int);
            }
            return Some(workouts[i].id);
        }
        i += 1;
    }
    None
}

// ---------------------------------------------------------------------------
// The local store
// ---------------------------------------------------------------------------

/// The local replica: one table per entity category, the configuration
/// snapshot, the persisted sync cursor and the stored server endpoint. The
/// surrounding application owns durable persistence and hands the engine this
/// in-memory image of it, one exclusive-access scope per phase.
#[derive(Clone, Debug, PartialEq, Eq)]
pub struct LocalStore {
    pub config: ConfigSnapshot,
    pub exercises: Vec<Record>,
    pub workouts: Vec<Record>,
    pub aliases: Vec<Record>,
    pub bodyweights: Vec<Record>,
    /// The last-synced timestamp; `None` before the first ever sync.
    pub cursor: Option<i64>,
    /// The persisted remote endpoint, if one was configured.
    pub server_url: Option<String>,
}

/// Which endpoint a sync run uses: a non-empty per-call override wins, else a
/// non-empty stored URL; an empty string is never silently accepted.
pub open spec fn resolved_endpoint(
    override_url: Option<String>,
    stored: Option<String>,
) -> Option<Seq<char>> {
    match override_url {
        Some(u) => if u@.len() > 0 {
            Some(u@)
        } else {
            usable_stored(stored)
        },
        None => usable_stored(stored),
    }
}

/// The stored URL's text when it is usable (present and non-empty).
pub open spec fn usable_stored(stored: Option<String>) -> Option<Seq<char>> {
    match stored {
        Some(t) => if t@.len() > 0 {
            Some(t@)
        } else {
            None
        },
        None => None,
    }
}

impl LocalStore {
    /// Well-formedness: identifiers are unique within each category and the
    /// cursor, when set, is a timestamp the wire encoding can carry.
    pub open spec fn wf(&self) -> bool {
        &&& unique_ids(self.exercises@)
        &&& unique_ids(self.workouts@)
        &&& unique_ids(self.aliases@)
        &&& unique_ids(self.bodyweights@)
        &&& (self.cursor matches Some(c) ==> ts_in_range(c))
    }

    /// A fresh, empty replica that has never synced.
    pub fn new() -> (r: LocalStore)
        ensures
            r.wf(),
            r.config.modified_at == 0,
            r.config.payload@ == Seq::<char>::empty(),
            r.exercises@ == Seq::<Record>::empty(),
            r.workouts@ == Seq::<Record>::empty(),
            r.aliases@ == Seq::<Record>::empty(),
            r.bodyweights@ == Seq::<Record>::empty(),
            r.cursor is None,
            r.server_url is None,
    {
        LocalStore {
            config: ConfigSnapshot { modified_at: 0, payload: String::new() },
            exercises: Vec::new(),
            workouts: Vec::new(),
            aliases: Vec::new(),
            bodyweights: Vec::new(),
            cursor: None,
            server_url: None,
        }
    }

    /// The read phase's selection: everything modified strictly after
    /// `since`, per category, in table order; the configuration snapshot is
    /// included exactly when it changed. A pure read — the store is not
    /// touched, and the same `since` against the same store always yields the
    /// same set.
    pub fn collect_changes(&self, since: Option<i64>) -> (r: ChangeSet)
        ensures
            r.exercises@ == changed_records(self.exercises@, since),
            r.workouts@ == changed_records(self.workouts@, since),
            r.aliases@ == changed_records(self.aliases@, since),
            r.bodyweights@ == changed_records(self.bodyweights@, since),
            r.config == (if newer_than(self.config.modified_at, since) {
                Some(self.config)
            } else {
                None::<ConfigSnapshot>
            }),
    {
        let include_config = match since {
            None => true,
            Some(c) => self.config.modified_at > c,
        };
        ChangeSet {
            config: if include_config {
                Some(self.config.duplicate())
            } else {
                None
            },
            exercises: collect_newer(&self.exercises, since),
            workouts: collect_newer(&self.workouts, since),
            aliases: collect_newer(&self.aliases, since),
            bodyweights: collect_newer(&self.bodyweights, since),
        }
    }

    /// The write phase's merge: upserts the received batch by stable
    /// identifier, category by category, in batch order. Referential
    /// dependency is respected by merging the exercise definitions first and
    /// holding every incoming workout's reference against that merged table;
    /// the configuration snapshot, when present, replaces the stored one
    /// wholesale. The merge is all-or-nothing: a workout whose exercise
    /// reference resolves neither among the stored exercises nor among the
    /// incoming ones is refused, the first such record is named in the
    /// error, and the store — cursor included — is left exactly as it was.
    pub fn apply_changes(&mut self, incoming: &ChangeSet) -> (r: Result<SyncSummary, SyncError>)
        requires
            old(self).wf(),
        ensures
            final(self).wf(),
            r is Ok <==> refs_resolve(
                incoming.workouts@,
                upsert_all(old(self).exercises@, incoming.exercises@),
            ),
            r matches Ok(sum) ==> {
                &&& final(self).exercises@ == upsert_all(old(self).exercises@, incoming.exercises@)
                &&& final(self).workouts@ == upsert_all(old(self).workouts@, incoming.workouts@)
                &&& final(self).aliases@ == upsert_all(old(self).aliases@, incoming.aliases@)
                &&& final(self).bodyweights@ == upsert_all(
                    old(self).bodyweights@,
                    incoming.bodyweights@,
                )
                &&& final(self).config == (if incoming.config is Some {
                    incoming.config.unwrap()
                } else {
                    old(self).config
                })
                &&& final(self).cursor == old(self).cursor
                &&& final(self).server_url == old(self).server_url
                &&& sum == summary_of(*incoming)
            },
            r matches Err(e) ==> {
                let new_ex = upsert_all(old(self).exercises@, incoming.exercises@);
                let fd = first_dangling(incoming.workouts@, new_ex);
                &&& *final(self) == *old(self)
                &&& 0 <= fd < incoming.workouts@.len()
                &&& e == (SyncError::Apply { record_id: incoming.workouts@[fd].id })
            },
    {
        let new_exercises = upsert_records(duplicate_records(&self.exercises), &incoming.exercises);
        if let Some(bad_id) = check_refs(&incoming.workouts, &new_exercises) {
            return Err(SyncError::Apply { record_id: bad_id });
        }
        let new_workouts = upsert_records(duplicate_records(&self.workouts), &incoming.workouts);
        let new_aliases = upsert_records(duplicate_records(&self.aliases), &incoming.aliases);
        let new_bodyweights = upsert_records(
            duplicate_records(&self.bodyweights),
            &incoming.bodyweights,
        );
        proof {
            lemma_upsert_all_unique(old(self).exercises@, incoming.exercises@);
            lemma_upsert_all_unique(old(self).workouts@, incoming.workouts@);
            lemma_upsert_all_unique(old(self).aliases@, incoming.aliases@);
            lemma_upsert_all_unique(old(self).bodyweights@, incoming.bodyweights@);
        }
        self.exercises = new_exercises;
        self.workouts = new_workouts;
        self.aliases = new_aliases;
        self.bodyweights = new_bodyweights;
        if let Some(c) = &incoming.config {
            self.config = c.duplicate();
        }
        Ok(incoming.summarize())
    }

    /// Resolves the endpoint for one sync run: the per-call override when it
    /// is a non-empty string, else the stored URL when that is non-empty,
    /// else a configuration error — before anything else happens.
    pub fn resolve_endpoint(&self, override_url: Option<String>) -> (r: Result<String, SyncError>)
        ensures
            r is Ok <==> resolved_endpoint(override_url, self.server_url) is Some,
            r matches Ok(u) ==> resolved_endpoint(override_url, self.server_url) == Some(u@),
            r matches Err(e) ==> e == SyncError::Configuration,
    {
        match override_url {
            Some(u) => {
                if !u.as_str().is_empty() {
                    return Ok(u);
                }
                self.stored_endpoint()
            },
            None => self.stored_endpoint(),
        }
    }

    /// The stored URL when it is usable, else a configuration error.
    fn stored_endpoint(&self) -> (r: Result<String, SyncError>)
        ensures
            r is Ok <==> (self.server_url matches Some(t) && t@.len() > 0),
            r matches Ok(u) ==> self.server_url matches Some(t) && t@ == u@,
            r matches Err(e) ==> e == SyncError::Configuration,
    {
        match &self.server_url {
            Some(t) => {
                if !t.as_str().is_empty() {
                    Ok(t.clone())
                } else {
                    Err(SyncError::Configuration)
                }
            },
            None => Err(SyncError::Configuration),
        }
    }

    /// Decides well-formedness at run time, for callers outside the
    /// verifier's reach that assemble a store by hand.
    pub fn check_wf(&self) -> (r: bool)
        ensures
            r == self.wf(),
    {
        let cursor_ok = match self.cursor {
            None => true,
            Some(c) => crate::model::TS_MIN_MS <= c && c <= crate::model::TS_MAX_MS,
        };
        cursor_ok && unique_ids_check(&self.exercises) && unique_ids_check(&self.workouts)
            && unique_ids_check(&self.aliases) && unique_ids_check(&self.bodyweights)
    }

    /// Stores (or clears) the persisted remote endpoint that later runs
    /// resolve against when no per-call override is given.
    pub fn set_sync_server_url(&mut self, url: Option<String>)
        requires
            old(self).wf(),
        ensures
            final(self).wf(),
            final(self).server_url == url,
            final(self).config == old(self).config,
            final(self).exercises == old(self).exercises,
            final(self).workouts == old(self).workouts,
            final(self).aliases == old(self).aliases,
            final(self).bodyweights == old(self).bodyweights,
            final(self).cursor == old(self).cursor,
    {
        self.server_url = url;
    }

    /// Persists a new cursor; only the write phase calls this, after a
    /// successful apply.
    pub fn set_cursor(&mut self, ts: i64)
        requires
            old(self).wf(),
            ts_in_range(ts),
        ensures
            final(self).wf(),
            final(self).cursor == Some(ts),
            final(self).config == old(self).config,
            final(self).exercises == old(self).exercises,
            final(self).workouts == old(self).workouts,
            final(self).aliases == old(self).aliases,
            final(self).bodyweights == old(self).bodyweights,
            final(self).server_url == old(self).server_url,
    {
        self.cursor = Some(ts);
    }
}

} // verus!
