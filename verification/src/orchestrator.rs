//! The sync orchestrator: sequences the three phases of one synchronization
//! run. The read phase and the write phase are each one short exclusive
//! scope against the local store; the network exchange between them runs
//! with no store access held, so concurrent local work is never blocked for
//! a network round-trip. The exchange itself is outside work: the
//! surrounding application performs it and hands its outcome back, and the
//! engine decides everything else.

use vstd::prelude::*;

use crate::model::{ChangeSet, SyncError, SyncSummary, summary_of, ts_in_range};
use crate::store::{
    LocalStore, changed_records, first_dangling, newer_than, refs_resolve, resolved_endpoint,
    upsert_all,
};
use crate::wire::{cursor_wire_text, parse_server_timestamp, parsed_ms_of, rfc3339_of};

verus! {

/// What the read phase hands to the exchange: the resolved endpoint, the
/// cursor (raw and in wire form), the collected outgoing changes and their
/// summary. It borrows nothing from the store — the lock is free once this
/// value exists.
pub struct SyncPrelude {
    /// The resolved remote endpoint.
    pub endpoint: String,
    /// The cursor at the start of the run; sent along with the changes.
    pub since: Option<i64>,
    /// The cursor in wire form (RFC 3339); absent on a first-ever sync.
    pub since_text: Option<String>,
    /// Everything that changed locally since `since`.
    pub outgoing: ChangeSet,
    /// The count summary of `outgoing`, reported when the run completes.
    pub sent: SyncSummary,
}

/// How a network exchange can fail. The orchestrator does not distinguish
/// them for recovery: each one means "sync did not complete, nothing changed
/// locally, retry later".
#[derive(Clone, Copy, Debug, PartialEq, Eq, Structural)]
pub enum TransportFault {
    Timeout,
    Connection,
    BadStatus,
    MalformedPayload,
}

/// What a completed exchange brings back: the server-current timestamp in
/// wire form and the server's own changes for this client.
#[derive(Clone, Debug, PartialEq, Eq)]
pub struct WireReply {
    /// The server-authoritative timestamp, RFC 3339; it becomes the next
    /// cursor. The client never derives a cursor from its own clock.
    pub server_ts_text: String,
    /// The server's changes for this client.
    pub incoming: ChangeSet,
}

/// The report of a completed run: what was sent and what was received.
#[derive(Clone, Copy, Debug, PartialEq, Eq, Structural)]
pub struct SyncOutcome {
    pub sent: SyncSummary,
    pub received: SyncSummary,
}

/// The summary the read phase reports for a store: counts of everything
/// modified since its cursor.
pub open spec fn sent_summary(store: LocalStore) -> SyncSummary {
    SyncSummary {
        config: newer_than(store.config.modified_at, store.cursor),
        exercises: changed_records(store.exercises@, store.cursor).len() as usize,
        workouts: changed_records(store.workouts@, store.cursor).len() as usize,
        aliases: changed_records(store.aliases@, store.cursor).len() as usize,
        bodyweights: changed_records(store.bodyweights@, store.cursor).len() as usize,
    }
}

/// The write phase accepts a batch exactly when every incoming workout's
/// exercise reference resolves, against the stored exercises merged with the
/// incoming ones.
pub open spec fn apply_accepted(store: LocalStore, incoming: ChangeSet) -> bool {
    refs_resolve(incoming.workouts@, upsert_all(store.exercises@, incoming.exercises@))
}

/// The server timestamp a reply carries, when its text parses and the
/// instant is one the engine accepts.
pub open spec fn reply_ts(w: WireReply) -> Option<i64> {
    match parsed_ms_of(w.server_ts_text@) {
        Some(ts) => if ts_in_range(ts) {
            Some(ts)
        } else {
            None
        },
        None => None,
    }
}

/// The cursor moved forward: it is set after the run, and not behind where
/// it was before.
pub open spec fn cursor_advanced(before: Option<i64>, after: Option<i64>) -> bool {
    &&& after is Some
    &&& (before matches Some(b) ==> (after matches Some(a) && b <= a))
}

/// Everything one run of the orchestrator guarantees, relating the store
/// before (`s0`) and after (`s1`) to the run's inputs and its result.
pub open spec fn round_post(
    s0: LocalStore,
    override_url: Option<String>,
    exchange: Result<WireReply, TransportFault>,
    s1: LocalStore,
    r: Result<SyncOutcome, SyncError>,
) -> bool {
    let ep = resolved_endpoint(override_url, s0.server_url);
    &&& (r is Err ==> s1 == s0)
    &&& (ep is None ==> r == Err::<SyncOutcome, SyncError>(SyncError::Configuration))
    &&& (ep is Some ==> match exchange {
        Err(_) => r == Err::<SyncOutcome, SyncError>(SyncError::Communication),
        Ok(w) => match reply_ts(w) {
            None => r == Err::<SyncOutcome, SyncError>(SyncError::Communication),
            Some(ts) => if !apply_accepted(s0, w.incoming) {
                let fd = first_dangling(
                    w.incoming.workouts@,
                    upsert_all(s0.exercises@, w.incoming.exercises@),
                );
                &&& 0 <= fd < w.incoming.workouts@.len()
                &&& r == Err::<SyncOutcome, SyncError>(
                    SyncError::Apply { record_id: w.incoming.workouts@[fd].id },
                )
            } else {
                &&& r == Ok::<SyncOutcome, SyncError>(
                    SyncOutcome { sent: sent_summary(s0), received: summary_of(w.incoming) },
                )
                &&& s1.exercises@ == upsert_all(s0.exercises@, w.incoming.exercises@)
                &&& s1.workouts@ == upsert_all(s0.workouts@, w.incoming.workouts@)
                &&& s1.aliases@ == upsert_all(s0.aliases@, w.incoming.aliases@)
                &&& s1.bodyweights@ == upsert_all(s0.bodyweights@, w.incoming.bodyweights@)
                &&& s1.config == (if w.incoming.config is Some {
                    w.incoming.config.unwrap()
                } else {
                    s0.config
                })
                &&& s1.cursor == Some(ts)
                &&& s1.server_url == s0.server_url
            },
        },
    })
}

/// The read phase: resolves the endpoint, reads the cursor, collects every
/// local change since it and summarizes what will be sent. A pure read; when
/// no usable endpoint exists it fails with a configuration error before
/// anything else happens.
pub fn begin_sync(store: &LocalStore, override_url: Option<String>) -> (r: Result<
    SyncPrelude,
    SyncError,
>)
    requires
        store.wf(),
    ensures
        r is Ok <==> resolved_endpoint(override_url, store.server_url) is Some,
        r matches Err(e) ==> e == SyncError::Configuration,
        r matches Ok(p) ==> {
            &&& Some(p.endpoint@) == resolved_endpoint(override_url, store.server_url)
            &&& p.since == store.cursor
            &&& (p.since_text is Some <==> store.cursor is Some)
            &&& (p.since_text matches Some(t) ==> (store.cursor matches Some(ms) && t@
                == rfc3339_of(ms)))
            &&& p.outgoing.exercises@ == changed_records(store.exercises@, store.cursor)
            &&& p.outgoing.workouts@ == changed_records(store.workouts@, store.cursor)
            &&& p.outgoing.aliases@ == changed_records(store.aliases@, store.cursor)
            &&& p.outgoing.bodyweights@ == changed_records(store.bodyweights@, store.cursor)
            &&& p.outgoing.config == (if newer_than(store.config.modified_at, store.cursor) {
                Some(store.config)
            } else {
                None::<crate::model::ConfigSnapshot>
            })
            &&& p.sent == summary_of(p.outgoing)
            &&& p.sent == sent_summary(*store)
        },
{
    let endpoint = match store.resolve_endpoint(override_url) {
        Ok(u) => u,
        Err(e) => {
            return Err(e);
        },
    };
    let since = store.cursor;
    let since_text = cursor_wire_text(since);
    let outgoing = store.collect_changes(since);
    let sent = outgoing.summarize();
    Ok(SyncPrelude { endpoint, since, since_text, outgoing, sent })
}

/// The write phase: merges the received batch and, only when the whole merge
/// succeeded, persists the server timestamp as the new cursor. On failure
/// the store — cursor included — is left exactly as it was, so nothing is
/// marked synced without being durably applied.
pub fn finish_sync(store: &mut LocalStore, incoming: &ChangeSet, server_ts: i64) -> (r: Result<
    SyncSummary,
    SyncError,
>)
    requires
        old(store).wf(),
        ts_in_range(server_ts),
    ensures
        final(store).wf(),
        r is Ok <==> apply_accepted(*old(store), *incoming),
        r matches Ok(sum) ==> {
            &&& final(store).exercises@ == upsert_all(old(store).exercises@, incoming.exercises@)
            &&& final(store).workouts@ == upsert_all(old(store).workouts@, incoming.workouts@)
            &&& final(store).aliases@ == upsert_all(old(store).aliases@, incoming.aliases@)
            &&& final(store).bodyweights@ == upsert_all(
                old(store).bodyweights@,
                incoming.bodyweights@,
            )
            &&& final(store).config == (if incoming.config is Some {
                incoming.config.unwrap()
            } else {
                old(store).config
            })
            &&& final(store).cursor == Some(server_ts)
            &&& final(store).server_url == old(store).server_url
            &&& sum == summary_of(*incoming)
        },
        (r is Ok && (old(store).cursor matches Some(c0) ==> c0 <= server_ts)) ==> cursor_advanced(
            old(store).cursor,
            final(store).cursor,
        ),
        r matches Err(e) ==> {
            let fd = first_dangling(
                incoming.workouts@,
                upsert_all(old(store).exercises@, incoming.exercises@),
            );
            &&& *final(store) == *old(store)
            &&& 0 <= fd < incoming.workouts@.len()
            &&& e == (SyncError::Apply { record_id: incoming.workouts@[fd].id })
        },
{
    let sum = match store.apply_changes(incoming) {
        Ok(s) => s,
        Err(e) => {
            return Err(e);
        },
    };
    store.set_cursor(server_ts);
    Ok(sum)
}

/// One full orchestrated run, as a decision function: the read phase, then
/// the already-performed exchange's outcome, then the write phase. Any
/// failure — unresolvable endpoint, transport fault, malformed server
/// timestamp, refused merge — leaves the store exactly as it was.
pub fn sync_round(
    store: &mut LocalStore,
    override_url: Option<String>,
    exchange: Result<WireReply, TransportFault>,
) -> (r: Result<SyncOutcome, SyncError>)
    requires
        old(store).wf(),
    ensures
        final(store).wf(),
        round_post(*old(store), override_url, exchange, *final(store), r),
{
    let prelude = match begin_sync(store, override_url) {
        Ok(p) => p,
        Err(e) => {
            return Err(e);
        },
    };
    let reply = match exchange {
        Ok(w) => w,
        Err(_fault) => {
            return Err(SyncError::Communication);
        },
    };
    let ts = match parse_server_timestamp(reply.server_ts_text.as_str()) {
        Ok(t) => t,
        Err(e) => {
            return Err(e);
        },
    };
    let received = match finish_sync(store, &reply.incoming, ts) {
        Ok(s) => s,
        Err(e) => {
            return Err(e);
        },
    };
    Ok(SyncOutcome { sent: prelude.sent, received })
}

/// The message each failure category flattens to at the outermost boundary.
pub open spec fn error_text(e: SyncError) -> Seq<char> {
    match e {
        SyncError::Configuration => "no usable sync server endpoint is configured"@,
        SyncError::Collection => "the local store could not be read"@,
        SyncError::Communication => "sync communication with the server failed"@,
        SyncError::Apply { .. } => "a received record could not be applied"@,
    }
}

/// Flattens a structured sync error to the descriptive text shown to the
/// surrounding application.
pub fn describe_error(e: &SyncError) -> (r: &'static str)
    ensures
        r@ == error_text(*e),
{
    match e {
        SyncError::Configuration => "no usable sync server endpoint is configured",
        SyncError::Collection => "the local store could not be read",
        SyncError::Communication => "sync communication with the server failed",
        SyncError::Apply { .. } => "a received record could not be applied",
    }
}

/// The caller-facing operation: one full run with every domain error
/// flattened to descriptive text. The structured result is `sync_round`'s;
/// the caller only presents it.
pub fn perform_sync(
    store: &mut LocalStore,
    override_url: Option<String>,
    exchange: Result<WireReply, TransportFault>,
) -> (r: Result<SyncOutcome, String>)
    requires
        old(store).wf(),
    ensures
        final(store).wf(),
        r is Err ==> *final(store) == *old(store),
        r matches Ok(out) ==> round_post(
            *old(store),
            override_url,
            exchange,
            *final(store),
            Ok(out),
        ),
        r matches Err(m) ==> exists|e: SyncError|
            round_post(*old(store), override_url, exchange, *final(store), Err(e)) && m@
                == error_text(e),
{
    match sync_round(store, override_url, exchange) {
        Ok(out) => Ok(out),
        Err(e) => {
            let text = describe_error(&e).to_owned();
            proof {
                assert(round_post(
                    *old(store),
                    override_url,
                    exchange,
                    *store,
                    Err::<SyncOutcome, SyncError>(e),
                ));
            }
            Err(text)
        },
    }
}

} // verus!
