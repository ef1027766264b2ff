//! What holds of every import.
//!
//! The statements here speak of [`import_transition`], and so of every move
//! that [`import_messages`](crate::import::import_messages) makes: of single
//! moves, and of whole runs, where a run is a session's states and moves under
//! a sequence of answers from the store.

use vstd::prelude::*;
use crate::errors::ErrorKind;
use crate::import::{
    decodable, import_accepts, import_initial, import_transition, lemma_import_transition_wf,
    ImportAction, ImportMessagesRequest, ImportOutcome, ImportPhase, ImportReply, ImportState,
    MAX_BATCH,
};

verus! {

/// The state of a session after `k` answers of a run.
pub open spec fn import_state_at(
    start: ImportState,
    replies: Seq<ImportReply>,
    fresh: Seq<u128>,
    k: nat,
) -> ImportState
    decreases k,
{
    if k == 0 {
        start
    } else {
        import_transition(
            import_state_at(start, replies, fresh, (k - 1) as nat),
            replies[k - 1],
            fresh[k - 1],
        ).0
    }
}

/// The move that a session makes on the answer number `k` of a run.
pub open spec fn import_outcome_at(
    start: ImportState,
    replies: Seq<ImportReply>,
    fresh: Seq<u128>,
    k: nat,
) -> ImportOutcome {
    import_transition(
        import_state_at(start, replies, fresh, k),
        replies[k as int],
        fresh[k as int],
    ).1
}

/// The move names the commit of the unit of work.
pub open spec fn names_commit(outcome: ImportOutcome) -> bool {
    outcome matches ImportOutcome::Perform(action) && action is Commit
}

/// The move names the rollback of the unit of work.
pub open spec fn names_rollback(outcome: ImportOutcome) -> bool {
    outcome matches ImportOutcome::Perform(action) && action is Rollback
}

/// The move stores a message.
pub open spec fn names_insert(outcome: ImportOutcome) -> bool {
    outcome matches ImportOutcome::Perform(action) && action is InsertMessage
}

/// Every state of a run that starts well-formed is well-formed, and the batch
/// stays what it was.
pub proof fn law_import_run_wf(
    start: ImportState,
    replies: Seq<ImportReply>,
    fresh: Seq<u128>,
    k: nat,
)
    requires
        start.wf(),
    ensures
        import_state_at(start, replies, fresh, k).wf(),
        import_state_at(start, replies, fresh, k).request == start.request,
        import_state_at(start, replies, fresh, k).channel_id == start.channel_id,
    decreases k,
{
    if k > 0 {
        law_import_run_wf(start, replies, fresh, (k - 1) as nat);
        lemma_import_transition_wf(
            import_state_at(start, replies, fresh, (k - 1) as nat),
            replies[k - 1],
            fresh[k - 1],
        );
    }
}

/// Once the commit or the rollback was named, nothing more is asked of the
/// store: the unit of work is over.
pub proof fn law_import_ends_once(
    start: ImportState,
    replies: Seq<ImportReply>,
    fresh: Seq<u128>,
    k: nat,
    m: nat,
)
    requires
        import_state_at(start, replies, fresh, k).phase is Commit || import_state_at(
            start,
            replies,
            fresh,
            k,
        ).phase is Rollback || import_state_at(start, replies, fresh, k).phase is Closed,
        k <= m,
    ensures
        import_state_at(start, replies, fresh, m).phase is Commit || import_state_at(
            start,
            replies,
            fresh,
            m,
        ).phase is Rollback || import_state_at(start, replies, fresh, m).phase is Closed,
        !(import_outcome_at(start, replies, fresh, m) is Perform),
        m > k ==> import_state_at(start, replies, fresh, m).phase is Closed,
    decreases m - k,
{
    if k < m {
        law_import_ends_once(start, replies, fresh, k, (m - 1) as nat);
    }
}

/// A batch with a record that cannot be stored, be it for its token, its body
/// or its timestamp, is never committed and never reported as imported,
/// wherever in the batch the record stands and whatever the store answers: of
/// such a batch no record is kept.
pub proof fn law_bad_record_voids_the_batch(
    user_id: u128,
    channel_id: u128,
    request: ImportMessagesRequest,
    bad: int,
    replies: Seq<ImportReply>,
    fresh: Seq<u128>,
    j: nat,
)
    requires
        0 <= bad < request.messages@.len(),
        !decodable(request.messages@[bad]),
    ensures
        !names_commit(
            import_outcome_at(import_initial(user_id, channel_id, request), replies, fresh, j),
        ),
        !(import_outcome_at(import_initial(user_id, channel_id, request), replies, fresh, j)
            is Completed),
{
    let start = import_initial(user_id, channel_id, request);
    law_import_run_wf(start, replies, fresh, j);
    law_import_run_wf(start, replies, fresh, j + 1);
    let before = import_state_at(start, replies, fresh, j);
    let after = import_state_at(start, replies, fresh, j + 1);
    assert(after == import_transition(before, replies[j as int], fresh[j as int]).0);
    if names_commit(import_outcome_at(start, replies, fresh, j)) {
        assert(after.phase is Commit);
        assert(decodable(after.request.messages@[bad]));
    }
    if import_outcome_at(start, replies, fresh, j) is Completed {
        assert(before.phase is Commit);
        assert(decodable(before.request.messages@[bad]));
    }
}

/// The record at which a batch fails is answered with a rollback, and the
/// session ends with a validation error on the next answer.
pub proof fn law_bad_record_is_a_validation_error(
    s: ImportState,
    reply: ImportReply,
    fresh: u128,
    any: ImportReply,
)
    requires
        s.phase is Begin || s.phase is Insert,
        import_accepts(s.phase, reply),
        ({
            let at: int = if s.phase is Begin {
                0
            } else {
                (s.cursor + 1) as int
            };
            at < s.request.messages@.len() && !decodable(s.request.messages@[at])
        }),
    ensures
        names_rollback(import_transition(s, reply, fresh).1),
        import_transition(import_transition(s, reply, fresh).0, any, fresh).1
            == ImportOutcome::Failed(ErrorKind::Validation),
{
}

/// A batch of up to 200 records is taken up, a larger one is refused as
/// invalid before anything is asked of the store.
pub proof fn law_batch_size(
    user_id: u128,
    channel_id: u128,
    request: ImportMessagesRequest,
    fresh: u128,
)
    ensures
        ({
            let first = import_transition(
                import_initial(user_id, channel_id, request),
                ImportReply::Ready,
                fresh,
            ).1;
            if request.messages@.len() <= MAX_BATCH {
                first == ImportOutcome::Perform(ImportAction::FindChannel { channel_id })
            } else {
                first == ImportOutcome::Failed(ErrorKind::Validation)
            }
        }),
{
}

/// A batch of more than 200 records asks nothing of the store, whatever the
/// session is answered: every move of its session is a refusal.
pub proof fn law_oversized_batch_asks_nothing(
    user_id: u128,
    channel_id: u128,
    request: ImportMessagesRequest,
    replies: Seq<ImportReply>,
    fresh: Seq<u128>,
    j: nat,
)
    requires
        request.messages@.len() > MAX_BATCH,
    ensures
        import_outcome_at(import_initial(user_id, channel_id, request), replies, fresh, j)
            is Failed,
        import_state_at(import_initial(user_id, channel_id, request), replies, fresh, j).phase
            is Idle || import_state_at(
            import_initial(user_id, channel_id, request),
            replies,
            fresh,
            j,
        ).phase is Closed,
        import_state_at(import_initial(user_id, channel_id, request), replies, fresh, j).request
            == request,
    decreases j,
{
    if j > 0 {
        law_oversized_batch_asks_nothing(
            user_id,
            channel_id,
            request,
            replies,
            fresh,
            (j - 1) as nat,
        );
    }
}

/// Import is atomic. If an insertion fails, the session names the rollback at
/// once, ends with an internal error on the next answer, and names the commit
/// nowhere in the run.
pub proof fn law_import_failure_is_never_committed(
    start: ImportState,
    replies: Seq<ImportReply>,
    fresh: Seq<u128>,
    k: nat,
    j: nat,
)
    requires
        import_state_at(start, replies, fresh, k).phase is Insert,
        !import_accepts(ImportPhase::Insert, replies[k as int]),
    ensures
        names_rollback(import_outcome_at(start, replies, fresh, k)),
        import_outcome_at(start, replies, fresh, k + 1) == ImportOutcome::Failed(
            ErrorKind::Internal,
        ),
        !names_commit(import_outcome_at(start, replies, fresh, j)),
        j > k ==> !names_insert(import_outcome_at(start, replies, fresh, j)),
{
    let failed = import_state_at(start, replies, fresh, k);
    assert(import_state_at(start, replies, fresh, k + 1) == import_transition(
        failed,
        replies[k as int],
        fresh[k as int],
    ).0);
    if j > k {
        law_import_ends_once(start, replies, fresh, k + 1, j);
    } else if j < k {
        if names_commit(import_outcome_at(start, replies, fresh, j)) {
            assert(import_state_at(start, replies, fresh, j + 1) == import_transition(
                import_state_at(start, replies, fresh, j),
                replies[j as int],
                fresh[j as int],
            ).0);
            law_import_ends_once(start, replies, fresh, j + 1, k);
        }
    }
}

/// A request is refused for its size, its channel or for want of authority
/// only before the unit of work is opened: such a refusal has changed nothing.
pub proof fn law_import_refusal_precedes_mutation(
    s: ImportState,
    reply: ImportReply,
    fresh: u128,
)
    requires
        !(s.phase is Rollback),
        import_transition(s, reply, fresh).1 matches ImportOutcome::Failed(kind) && kind
            != ErrorKind::Internal,
    ensures
        s.phase is Idle || s.phase is Channel || s.phase is Permissions,
{
}

/// What a finished import reports: the number of records of the batch, every
/// one of which could be stored.
pub proof fn law_completed_import(s: ImportState, reply: ImportReply, fresh: u128)
    requires
        s.wf(),
        import_transition(s, reply, fresh).1 is Completed,
    ensures
        import_transition(s, reply, fresh).1 == ImportOutcome::Completed(
            s.request.messages@.len(),
        ),
        forall|i: int|
            0 <= i < s.request.messages@.len() ==> decodable(#[trigger] s.request.messages@[i]),
{
}

/// The store does its part: it answers what the session waits for, the channel
/// belongs to a server, and the caller has the authority to import.
pub open spec fn import_cooperative(s: ImportState, reply: ImportReply) -> bool {
    &&& import_accepts(s.phase, reply)
    &&& s.phase is Channel ==> reply->Channel_0 is InServer
    &&& s.phase is Permissions ==> reply->is_owner || reply->manage_server
}

/// How far a session is through its import: the number of the move it is
/// waiting to make.
pub open spec fn import_position(s: ImportState) -> int {
    let cursor = s.cursor as int;
    let records = s.request.messages@.len() as int;
    match s.phase {
        ImportPhase::Idle => 0,
        ImportPhase::Channel => 1,
        ImportPhase::Permissions => 2,
        ImportPhase::Begin => 3,
        ImportPhase::Insert => 4 + cursor,
        ImportPhase::Commit => 4 + records,
        ImportPhase::Rollback => 5 + records,
        ImportPhase::Closed => 5 + records,
    }
}

/// A batch is sound: it is within the cap, and every record can be stored.
pub open spec fn sound_batch(request: ImportMessagesRequest) -> bool {
    &&& request.messages@.len() <= MAX_BATCH
    &&& forall|i: int| 0 <= i < request.messages@.len() ==> decodable(#[trigger] request.messages@[i])
}

/// A run with a cooperative store over a sound batch, as far as it has not
/// handed out the response, has made one step forward with every move.
proof fn lemma_cooperative_import(
    start: ImportState,
    replies: Seq<ImportReply>,
    fresh: Seq<u128>,
    k: nat,
)
    requires
        start.wf(),
        start.phase is Idle,
        sound_batch(start.request),
        forall|i: nat|
            i < k ==> import_cooperative(
                #[trigger] import_state_at(start, replies, fresh, i),
                replies[i as int],
            ),
    ensures
        (exists|j: nat|
            j < k && #[trigger] import_outcome_at(start, replies, fresh, j)
                == ImportOutcome::Completed(start.request.messages@.len())) || ({
            let s = import_state_at(start, replies, fresh, k);
            &&& s.wf()
            &&& !(s.phase is Rollback)
            &&& !(s.phase is Closed)
            &&& s.request == start.request
            &&& k <= import_position(s)
        }),
    decreases k,
{
    if k > 0 {
        let before = (k - 1) as nat;
        lemma_cooperative_import(start, replies, fresh, before);
        if !(exists|j: nat|
            j < before && #[trigger] import_outcome_at(start, replies, fresh, j)
                == ImportOutcome::Completed(start.request.messages@.len())) {
            let s = import_state_at(start, replies, fresh, before);
            assert(import_cooperative(s, replies[before as int]));
            lemma_import_transition_wf(s, replies[before as int], fresh[before as int]);
            let next = import_transition(s, replies[before as int], fresh[before as int]);
            if s.phase is Begin && s.request.messages@.len() > 0 {
                assert(decodable(s.request.messages@[0]));
            }
            if s.phase is Insert && s.cursor + 1 < s.request.messages@.len() {
                assert(decodable(s.request.messages@[(s.cursor + 1) as int]));
            }
            if next.1 is Completed {
                assert(import_outcome_at(start, replies, fresh, before) == next.1);
            }
        }
    }
}

/// An import that is admitted and meets a cooperative store succeeds. For a
/// caller with the authority to import, a channel of a server, a batch within
/// the cap whose records can all be stored, and a store that carries out what
/// it is asked, the session reports every record of the batch as imported,
/// after five moves and one for each record.
pub proof fn law_cooperative_import_completes(
    user_id: u128,
    channel_id: u128,
    request: ImportMessagesRequest,
    replies: Seq<ImportReply>,
    fresh: Seq<u128>,
)
    requires
        sound_batch(request),
        forall|i: nat|
            i < 5 + request.messages@.len() ==> import_cooperative(
                #[trigger] import_state_at(
                    import_initial(user_id, channel_id, request),
                    replies,
                    fresh,
                    i,
                ),
                replies[i as int],
            ),
    ensures
        exists|j: nat|
            j < 5 + request.messages@.len() && #[trigger] import_outcome_at(
                import_initial(user_id, channel_id, request),
                replies,
                fresh,
                j,
            ) == ImportOutcome::Completed(request.messages@.len()),
{
    let start = import_initial(user_id, channel_id, request);
    lemma_cooperative_import(start, replies, fresh, 5 + request.messages@.len());
}

} // verus!
