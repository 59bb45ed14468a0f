//! The engine's cross-cutting guarantees, stated once and proved against the
//! same specifications the executable functions are verified against.

use vstd::prelude::*;

use crate::model::{Record, SyncSummary};
use crate::orchestrator::{cursor_advanced, sent_summary};
use crate::store::{
    LocalStore, changed_records, id_present, index_of_id, last_write, lemma_changed_records_empty,
    lemma_index_of_id_at, lemma_upsert_all_index, lemma_upsert_all_len_when_present,
    lemma_upsert_all_presence, lemma_upsert_all_settle, lemma_upsert_all_unique, unique_ids,
    upsert_all,
};

verus! {

/// Re-applying a batch changes nothing: upserting the same batch into a
/// table twice leaves the table exactly as upserting it once — the
/// upsert-by-identifier semantics make the write phase safe to repeat. (The
/// other effects of an apply repeat just as harmlessly: the configuration
/// snapshot replaces wholesale, and the cursor is set to the same server
/// timestamp.)
pub proof fn lemma_reapply_batch_idempotent(s: Seq<Record>, c: Seq<Record>)
    requires
        unique_ids(s),
    ensures
        upsert_all(upsert_all(s, c), c) == upsert_all(s, c),
{
    let u = upsert_all(s, c);
    let w = upsert_all(u, c);
    lemma_upsert_all_unique(s, c);
    assert forall|k: int| 0 <= k < c.len() implies id_present(u, #[trigger] c[k].id) by {
        lemma_upsert_all_presence(s, c, c[k].id);
        assert(id_present(c, c[k].id));
    }
    lemma_upsert_all_len_when_present(u, c);
    assert forall|i: int| 0 <= i < u.len() implies w[i] == u[i] by {
        let x = u[i].id;
        assert forall|k: int| 0 <= k < i implies u[k].id != x by {
            assert(u[k].id != u[i].id);
        }
        lemma_index_of_id_at(u, x, i);
        assert(id_present(u, x));
        if id_present(c, x) {
            lemma_upsert_all_settle(s, c, x);
            lemma_upsert_all_settle(u, c, x);
            lemma_upsert_all_index(u, c, x);
            assert(u[i] == last_write(c, x));
            assert(w[index_of_id(w, x)] == last_write(c, x));
            assert(index_of_id(w, x) == i);
        } else {
            lemma_upsert_all_index(u, c, x);
        }
    }
    assert(w =~= u);
}

/// No-op on an empty window: when every record and the configuration
/// snapshot predate the cursor — as right after a successful sync whose
/// server timestamp is current — the collector selects nothing in any
/// category, and the read phase reports all-zero counts.
pub proof fn lemma_no_op_on_empty_window(store: LocalStore, c: i64)
    requires
        store.cursor == Some(c),
        forall|i: int| 0 <= i < store.exercises@.len() ==> #[trigger] store.exercises@[i].modified_at
            <= c,
        forall|i: int| 0 <= i < store.workouts@.len() ==> #[trigger] store.workouts@[i].modified_at
            <= c,
        forall|i: int| 0 <= i < store.aliases@.len() ==> #[trigger] store.aliases@[i].modified_at
            <= c,
        forall|i: int| 0 <= i < store.bodyweights@.len()
            ==> #[trigger] store.bodyweights@[i].modified_at <= c,
        store.config.modified_at <= c,
    ensures
        changed_records(store.exercises@, store.cursor) == Seq::<Record>::empty(),
        changed_records(store.workouts@, store.cursor) == Seq::<Record>::empty(),
        changed_records(store.aliases@, store.cursor) == Seq::<Record>::empty(),
        changed_records(store.bodyweights@, store.cursor) == Seq::<Record>::empty(),
        sent_summary(store) == (SyncSummary {
            config: false,
            exercises: 0,
            workouts: 0,
            aliases: 0,
            bodyweights: 0,
        }),
{
    lemma_changed_records_empty(store.exercises@, c);
    lemma_changed_records_empty(store.workouts@, c);
    lemma_changed_records_empty(store.aliases@, c);
    lemma_changed_records_empty(store.bodyweights@, c);
}

/// Monotonic cursor: a successful write phase persists the server timestamp,
/// so as long as the server never hands back an instant behind the cursor it
/// was shown, the cursor after a successful sync is at or ahead of the
/// cursor before it — it never regresses.
pub proof fn lemma_cursor_monotonic(before: Option<i64>, server_ts: i64)
    requires
        before matches Some(b) ==> b <= server_ts,
    ensures
        cursor_advanced(before, Some(server_ts)),
{
}

/// Uniqueness of identifiers is not special to a freshly built store: any
/// table with unique identifiers keeps them unique through any batch, which
/// is what lets the overwrite-in-full reading of an upsert make sense.
pub proof fn lemma_unique_ids_preserved(s: Seq<Record>, c: Seq<Record>)
    requires
        unique_ids(s),
    ensures
        unique_ids(upsert_all(s, c)),
{
    lemma_upsert_all_unique(s, c);
}

} // verus!
