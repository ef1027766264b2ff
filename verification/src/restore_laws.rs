//! What holds of every restore.
//!
//! The statements here speak of [`transition`], and so of every move that
//! [`restore_server`](crate::restore::restore_server) makes: of single moves,
//! and of whole runs, where a run is a session's states and moves under a
//! sequence of answers from the store.

use vstd::prelude::*;
use crate::backup::{
    applicable_upto, category_of, custom_upto, default_upto, lemma_next_channel,
    lemma_next_overwrite, lemma_next_role, next_channel, next_role, restorable_ids_upto,
    restorable_upto, BackupOverwrite, OverwriteTarget,
};
use crate::errors::ErrorKind;
use crate::backup::RestoreServerRequest;
use crate::restore::{
    accepts, enter_categories, enter_channels, enter_overwrites, enter_roles, in_transaction,
    initial_state, lemma_initial_wf, lemma_transition_wf, transition, wipe_after, Outcome, Phase,
    RestoreOp, RestoreReply, RestoreState, WipeStep,
};

verus! {

/// The state of a session after `k` answers of a run.
pub open spec fn state_at(
    start: RestoreState,
    replies: Seq<RestoreReply>,
    fresh: Seq<u128>,
    k: nat,
) -> RestoreState
    decreases k,
{
    if k == 0 {
        start
    } else {
        transition(
            state_at(start, replies, fresh, (k - 1) as nat),
            replies[k - 1],
            fresh[k - 1],
        ).0
    }
}

/// The move that a session makes on the answer number `k` of a run.
pub open spec fn outcome_at(
    start: RestoreState,
    replies: Seq<RestoreReply>,
    fresh: Seq<u128>,
    k: nat,
) -> Outcome {
    transition(state_at(start, replies, fresh, k), replies[k as int], fresh[k as int]).1
}

/// The move names the commit of the unit of work.
pub open spec fn is_commit(outcome: Outcome) -> bool {
    outcome matches Outcome::Perform(op) && op is Commit
}

/// The move names the rollback of the unit of work.
pub open spec fn is_rollback(outcome: Outcome) -> bool {
    outcome matches Outcome::Perform(op) && op is Rollback
}

/// The move changes what the store holds inside the unit of work.
pub open spec fn is_mutation(outcome: Outcome) -> bool {
    outcome matches Outcome::Perform(op) && (op is LockServer || op is Wipe || op is InsertCategory
        || op is InsertChannel || op is AddChannelMember || op is UpdateRolePermissions
        || op is InsertRole || op is UpsertOverwrite)
}

/// Every state of a run that starts well-formed is well-formed.
pub proof fn law_run_wf(start: RestoreState, replies: Seq<RestoreReply>, fresh: Seq<u128>, k: nat)
    requires
        start.wf(),
    ensures
        state_at(start, replies, fresh, k).wf(),
    decreases k,
{
    if k > 0 {
        law_run_wf(start, replies, fresh, (k - 1) as nat);
        lemma_transition_wf(
            state_at(start, replies, fresh, (k - 1) as nat),
            replies[k - 1],
            fresh[k - 1],
        );
    }
}

/// Once the commit or the rollback was named, neither is named again: the unit
/// of work is over.
pub proof fn law_unit_of_work_ends_once(
    start: RestoreState,
    replies: Seq<RestoreReply>,
    fresh: Seq<u128>,
    k: nat,
    m: nat,
)
    requires
        state_at(start, replies, fresh, k).rank() >= 10,
        k <= m,
    ensures
        state_at(start, replies, fresh, m).rank() >= 10,
        !is_commit(outcome_at(start, replies, fresh, m)),
        !is_rollback(outcome_at(start, replies, fresh, m)),
        !is_mutation(outcome_at(start, replies, fresh, m)),
    decreases m - k,
{
    if k < m {
        law_unit_of_work_ends_once(start, replies, fresh, k, (m - 1) as nat);
    }
}

/// Restore is atomic. If an operation fails while the unit of work is open, be
/// it a statement of the wipe or anything after it, the session names the
/// rollback at once, ends with an internal error on the next answer, and names
/// the commit nowhere in the run: nothing that the unit of work did is kept.
pub proof fn law_failure_is_never_committed(
    start: RestoreState,
    replies: Seq<RestoreReply>,
    fresh: Seq<u128>,
    k: nat,
    j: nat,
)
    requires
        in_transaction(state_at(start, replies, fresh, k).phase),
        !accepts(state_at(start, replies, fresh, k).phase, replies[k as int]),
    ensures
        is_rollback(outcome_at(start, replies, fresh, k)),
        outcome_at(start, replies, fresh, k + 1) == Outcome::Failed(ErrorKind::Internal),
        !is_commit(outcome_at(start, replies, fresh, j)),
        j > k ==> !is_mutation(outcome_at(start, replies, fresh, j)),
{
    let failed = state_at(start, replies, fresh, k);
    assert(state_at(start, replies, fresh, k + 1) == transition(
        failed,
        replies[k as int],
        fresh[k as int],
    ).0);
    assert(state_at(start, replies, fresh, k + 1).phase == Phase::Rollback);
    if j > k {
        law_unit_of_work_ends_once(start, replies, fresh, k + 1, j);
    } else if j < k {
        if is_commit(outcome_at(start, replies, fresh, j)) {
            assert(state_at(start, replies, fresh, j + 1) == transition(
                state_at(start, replies, fresh, j),
                replies[j as int],
                fresh[j as int],
            ).0);
            lemma_commit_sets_phase(
                state_at(start, replies, fresh, j),
                replies[j as int],
                fresh[j as int],
            );
            law_unit_of_work_ends_once(start, replies, fresh, j + 1, k);
        }
    }
}

/// The move that names the commit leaves the session waiting for its answer.
proof fn lemma_commit_sets_phase(s: RestoreState, reply: RestoreReply, fresh: u128)
    requires
        is_commit(transition(s, reply, fresh).1),
    ensures
        transition(s, reply, fresh).0.phase == Phase::Commit,
{
}

/// The commit is named only when every operation before it succeeded, and
/// every overwrite that can be applied was applied.
pub proof fn law_commit_follows_success(s: RestoreState, reply: RestoreReply, fresh: u128)
    requires
        s.wf(),
        is_commit(transition(s, reply, fresh).1),
    ensures
        in_transaction(s.phase),
        accepts(s.phase, reply),
        transition(s, reply, fresh).0.overwrites_applied == applicable_upto(
            s.request.permission_overwrites@,
            s.request.permission_overwrites@.len() as int,
            transition(s, reply, fresh).0.channels,
            transition(s, reply, fresh).0.roles,
        ),
{
    lemma_transition_wf(s, reply, fresh);
}

/// A request is refused for want of authority or for its size only before the
/// unit of work is opened: such a refusal has changed nothing.
pub proof fn law_refusal_precedes_mutation(s: RestoreState, reply: RestoreReply, fresh: u128)
    requires
        transition(s, reply, fresh).1 matches Outcome::Failed(kind) && kind != ErrorKind::Internal,
    ensures
        s.phase is Membership || s.phase is Permissions,
        s.phase is Membership ==> reply == RestoreReply::Membership(false),
        s.phase is Permissions ==> (reply matches RestoreReply::Permissions {
            is_owner,
            manage_server,
        } && ((!is_owner && !manage_server) || !s.request.within_limits())),
{
}

/// A backup that breaks a cap changes nothing. Whoever submits it and whatever
/// the store answers, the unit of work is never opened for it: the session
/// asks who the caller is, and no more.
pub proof fn law_oversized_backup_changes_nothing(
    user_id: u128,
    server_id: u128,
    request: RestoreServerRequest,
    replies: Seq<RestoreReply>,
    fresh: Seq<u128>,
    j: nat,
)
    requires
        !request.within_limits(),
    ensures
        ({
            let outcome = outcome_at(
                initial_state(user_id, server_id, request),
                replies,
                fresh,
                j,
            );
            ||| outcome is Failed
            ||| outcome matches Outcome::Perform(RestoreOp::CheckMembership { .. })
            ||| outcome matches Outcome::Perform(RestoreOp::LoadPermissions { .. })
        }),
{
    lemma_oversized_backup_stays_outside(user_id, server_id, request, replies, fresh, j);
}

/// A session for a backup that breaks a cap never gets past the question of
/// the caller's standing.
proof fn lemma_oversized_backup_stays_outside(
    user_id: u128,
    server_id: u128,
    request: RestoreServerRequest,
    replies: Seq<RestoreReply>,
    fresh: Seq<u128>,
    k: nat,
)
    requires
        !request.within_limits(),
    ensures
        ({
            let s = state_at(initial_state(user_id, server_id, request), replies, fresh, k);
            &&& s.request == request
            &&& s.phase is Idle || s.phase is Membership || s.phase is Permissions
                || s.phase is Closed
        }),
    decreases k,
{
    if k > 0 {
        lemma_oversized_backup_stays_outside(
            user_id,
            server_id,
            request,
            replies,
            fresh,
            (k - 1) as nat,
        );
    }
}

/// Who may restore, and how much. A member who owns the server or may manage
/// it, with a backup inside the caps, has the unit of work opened; anyone
/// else, or a larger backup, is refused: for want of authority first.
pub proof fn law_admission(s: RestoreState, is_owner: bool, manage_server: bool, fresh: u128)
    requires
        s.phase is Permissions,
    ensures
        ({
            let outcome = transition(
                s,
                RestoreReply::Permissions { is_owner, manage_server },
                fresh,
            ).1;
            if !is_owner && !manage_server {
                outcome == Outcome::Failed(ErrorKind::Forbidden)
            } else if !s.request.within_limits() {
                outcome == Outcome::Failed(ErrorKind::Validation)
            } else {
                outcome == Outcome::Perform(RestoreOp::Begin)
            }
        }),
{
}

/// The default role is never created anew, and no role but the live default
/// role has its permissions set: a backup role marked default leads to one
/// update of the live default role with the backup's permission bits, a custom
/// role to one insertion.
pub proof fn law_default_role_is_updated_in_place(
    s: RestoreState,
    reply: RestoreReply,
    fresh: u128,
)
    requires
        s.wf(),
    ensures
        ({
            let next = transition(s, reply, fresh).0;
            let role = next.request.roles@[next.cursor as int];
            match transition(s, reply, fresh).1 {
                Outcome::Perform(RestoreOp::InsertRole { permissions, position, .. }) => {
                    &&& next.cursor < next.request.roles@.len()
                    &&& !role.is_default
                    &&& permissions == role.permissions
                    &&& position == role.position
                },
                Outcome::Perform(RestoreOp::UpdateRolePermissions { role_id, permissions }) => {
                    &&& next.cursor < next.request.roles@.len()
                    &&& role.is_default
                    &&& next.default_role == Some(role_id)
                    &&& permissions == role.permissions
                },
                _ => true,
            }
        }),
{
    lemma_transition_wf(s, reply, fresh);
    let has_default = transition(s, reply, fresh).0.default_role is Some;
    lemma_next_role(s.request.roles@, 0, has_default);
    if s.cursor < s.request.roles@.len() {
        lemma_next_role(s.request.roles@, (s.cursor + 1) as int, has_default);
    }
}

/// Nothing is wiped but the structure of the server that is restored, and
/// nothing before the unit of work is open and the server is locked.
pub proof fn law_wipe_is_confined(s: RestoreState, reply: RestoreReply, fresh: u128)
    ensures
        transition(s, reply, fresh).1 matches Outcome::Perform(RestoreOp::Wipe { step, server_id })
            ==> server_id == s.server_id && (s.phase is Lock || s.phase is Wipe),
{
}

/// A channel is created whatever its category reference. Where the reference
/// is absent or was not mapped, the channel is created without a category;
/// where it was mapped, in the category it was mapped to.
pub proof fn law_channel_with_unknown_category_is_kept(
    s: RestoreState,
    from: nat,
    fresh: u128,
)
    requires
        from <= s.request.channels@.len(),
    ensures
        ({
            let at = next_channel(s.request.channels@, from as int);
            let channel = s.request.channels@[at];
            at < s.request.channels@.len() ==> {
                &&& !channel.direct()
                &&& enter_channels(s, from, fresh).1 matches Outcome::Perform(
                    RestoreOp::InsertChannel { id, category_id, .. },
                )
                &&& id == fresh
                &&& category_id == category_of(channel, s.categories)
                &&& (channel.category_id matches Some(local) && !s.categories.contains_key(local@)
                    ==> category_id is None)
            }
        }),
{
    lemma_next_channel(s.request.channels@, from as int);
}

/// Every channel insertion is for a channel of the backup that belongs to a
/// server, lands in the category that the channel's reference resolves to, and
/// makes a channel that is not end-to-end encrypted.
pub proof fn law_channel_insertion(s: RestoreState, reply: RestoreReply, fresh: u128)
    requires
        s.wf(),
    ensures
        transition(s, reply, fresh).1 matches Outcome::Perform(
            RestoreOp::InsertChannel { id, category_id, position, is_private, encrypted, .. },
        ) ==> {
            let next = transition(s, reply, fresh).0;
            let channel = next.request.channels@[next.cursor as int];
            &&& next.cursor < next.request.channels@.len()
            &&& !channel.direct()
            &&& id == fresh
            &&& category_id == category_of(channel, next.categories)
            &&& position == channel.position
            &&& is_private == channel.is_private
            &&& !encrypted
        },
{
    lemma_transition_wf(s, reply, fresh);
    if accepts(s.phase, reply) {
        match s.phase {
            Phase::Wipe(_) => {
                lemma_next_channel(s.request.channels@, 0);
            },
            Phase::Category => {
                lemma_next_channel(s.request.channels@, 0);
            },
            Phase::ChannelMember => {
                lemma_next_channel(s.request.channels@, (s.cursor + 1) as int);
            },
            _ => {},
        }
    }
}

/// An overwrite aimed at a member is never applied, whatever it holds: every
/// overwrite that is applied is aimed at a role, and both its channel and its
/// role were mapped to the identifiers that the operation names.
pub proof fn law_member_overwrites_are_dropped(s: RestoreState, reply: RestoreReply, fresh: u128)
    requires
        s.wf(),
    ensures
        transition(s, reply, fresh).1 matches Outcome::Perform(
            RestoreOp::UpsertOverwrite { channel_id, role_id, allow, deny },
        ) ==> {
            let next = transition(s, reply, fresh).0;
            let overwrite = next.request.permission_overwrites@[next.cursor as int];
            &&& next.cursor < next.request.permission_overwrites@.len()
            &&& overwrite.target_type == OverwriteTarget::Role
            &&& next.channels.contains_key(overwrite.channel_id@)
            &&& next.channels[overwrite.channel_id@] == channel_id
            &&& next.roles.contains_key(overwrite.target_id@)
            &&& next.roles[overwrite.target_id@] == role_id
            &&& allow == overwrite.allow
            &&& deny == overwrite.deny
        },
{
    lemma_transition_wf(s, reply, fresh);
    let next = transition(s, reply, fresh).0;
    lemma_next_overwrite(s.request.permission_overwrites@, 0, next.channels, next.roles);
    if s.cursor < s.request.permission_overwrites@.len() {
        lemma_next_overwrite(
            s.request.permission_overwrites@,
            (s.cursor + 1) as int,
            next.channels,
            next.roles,
        );
    }
}

/// Overwrites aimed at members count for nothing.
pub proof fn law_member_overwrites_do_not_count(
    overwrites: Seq<BackupOverwrite>,
    n: int,
    channels: Map<Seq<char>, u128>,
    roles: Map<Seq<char>, u128>,
)
    requires
        0 <= n <= overwrites.len(),
        forall|i: int| 0 <= i < n ==> (#[trigger] overwrites[i]).target_type == OverwriteTarget::Member,
    ensures
        applicable_upto(overwrites, n, channels, roles) == 0,
    decreases n,
{
    if n > 0 {
        law_member_overwrites_do_not_count(overwrites, n - 1, channels, roles);
    }
}

/// What a finished restore reports. Every category was created; every channel
/// but the direct ones, and the channel map holds exactly their backup-local
/// identifiers; every custom role was created and none else; the roles marked
/// default were updated if the server has a default role and passed over if it
/// has none; and every overwrite that could be applied under the final maps
/// was applied.
pub proof fn law_completed_counts(s: RestoreState, reply: RestoreReply, fresh: u128)
    requires
        s.wf(),
        transition(s, reply, fresh).1 is Completed,
    ensures
        ({
            let summary = transition(s, reply, fresh).1->Completed_0;
            let request = s.request;
            &&& s.phase is Publish
            &&& summary.categories_created == request.categories@.len()
            &&& summary.channels_created == restorable_upto(
                request.channels@,
                request.channels@.len() as int,
            )
            &&& summary.channels.dom() == restorable_ids_upto(
                request.channels@,
                request.channels@.len() as int,
            )
            &&& summary.roles_created == custom_upto(request.roles@, request.roles@.len() as int)
            &&& summary.roles_updated == if s.default_role is Some {
                default_upto(request.roles@, request.roles@.len() as int)
            } else {
                0
            }
            &&& summary.overwrites_applied == applicable_upto(
                request.permission_overwrites@,
                request.permission_overwrites@.len() as int,
                summary.channels,
                s.roles,
            )
        }),
{
}

/// The best-effort sinks cannot fail a restore: once the commit succeeded, the
/// audit record and the notification are named in turn, and the restore ends
/// with its response whatever the sinks answer.
pub proof fn law_sinks_are_best_effort(
    s: RestoreState,
    audit_reply: RestoreReply,
    publish_reply: RestoreReply,
    fresh: u128,
)
    requires
        s.phase is Commit,
    ensures
        ({
            let audit = transition(s, RestoreReply::Done, fresh);
            let publish = transition(audit.0, audit_reply, fresh);
            let end = transition(publish.0, publish_reply, fresh);
            &&& audit.1 matches Outcome::Perform(RestoreOp::WriteAudit { .. })
            &&& publish.1 == Outcome::Perform(RestoreOp::Publish { server_id: s.server_id })
            &&& end.1 is Completed
        }),
{
}

/// The store does its part: it answers what the session waits for, and the
/// caller is a member with the authority to restore.
pub open spec fn cooperative(s: RestoreState, reply: RestoreReply) -> bool {
    &&& accepts(s.phase, reply)
    &&& s.phase is Membership ==> reply == RestoreReply::Membership(true)
    &&& s.phase is Permissions ==> reply->is_owner || reply->manage_server
}

/// The place of a wipe statement in the wipe.
pub open spec fn wipe_index(step: WipeStep) -> int {
    match step {
        WipeStep::Attachments => 0,
        WipeStep::Reactions => 1,
        WipeStep::Reports => 2,
        WipeStep::SystemChannel => 3,
        WipeStep::Channels => 4,
        WipeStep::Categories => 5,
        WipeStep::CustomRoles => 6,
    }
}

/// How far a session is through the longest restore that its backup allows:
/// the number of the move it is waiting to make, if no record were skipped.
pub open spec fn position(s: RestoreState) -> int {
    let categories = s.request.categories@.len() as int;
    let channels = s.request.channels@.len() as int;
    let roles = s.request.roles@.len() as int;
    let overwrites = s.request.permission_overwrites@.len() as int;
    let cursor = s.cursor as int;
    match s.phase {
        Phase::Idle => 0,
        Phase::Membership => 1,
        Phase::Permissions => 2,
        Phase::Begin => 3,
        Phase::Lock => 4,
        Phase::Wipe(step) => 5 + wipe_index(step),
        Phase::Category => 12 + cursor,
        Phase::Channel => 12 + categories + 2 * cursor,
        Phase::ChannelMember => 13 + categories + 2 * cursor,
        Phase::DefaultRole => 12 + categories + 2 * channels,
        Phase::RoleUpdate => 13 + categories + 2 * channels + cursor,
        Phase::RoleInsert => 13 + categories + 2 * channels + cursor,
        Phase::Overwrite => 13 + categories + 2 * channels + roles + cursor,
        Phase::Commit => 13 + categories + 2 * channels + roles + overwrites,
        Phase::Audit => 14 + categories + 2 * channels + roles + overwrites,
        Phase::Publish => 15 + categories + 2 * channels + roles + overwrites,
        Phase::Rollback => 16 + categories + 2 * channels + roles + overwrites,
        Phase::Closed => 16 + categories + 2 * channels + roles + overwrites,
    }
}

/// The number of moves that the longest restore of a backup takes.
pub open spec fn longest_run(request: RestoreServerRequest) -> nat {
    (16 + request.categories@.len() + 2 * request.channels@.len() + request.roles@.len()
        + request.permission_overwrites@.len()) as nat
}

/// The session did not close, did not give up, and stands at or after `floor`.
spec fn forward(before: RestoreState, after: (RestoreState, Outcome), floor: int) -> bool {
    &&& after.0.request == before.request
    &&& floor <= position(after.0)
    &&& after.0.rank() < 13
    &&& after.1 is Perform
}

/// Entering the overwrites leaves the session among the overwrites or at the
/// commit.
proof fn lemma_enter_overwrites_forward(s: RestoreState, from: nat)
    requires
        from <= s.request.permission_overwrites@.len(),
    ensures
        forward(
            s,
            enter_overwrites(s, from),
            (13 + s.request.categories@.len() + 2 * s.request.channels@.len()
                + s.request.roles@.len() + from) as int,
        ),
{
    lemma_next_overwrite(s.request.permission_overwrites@, from as int, s.channels, s.roles);
}

/// Entering the roles leaves the session among the roles or further on.
proof fn lemma_enter_roles_forward(s: RestoreState, from: nat)
    requires
        from <= s.request.roles@.len(),
    ensures
        forward(
            s,
            enter_roles(s, from),
            (13 + s.request.categories@.len() + 2 * s.request.channels@.len() + from) as int,
        ),
{
    lemma_next_role(s.request.roles@, from as int, s.default_role is Some);
    if next_role(s.request.roles@, from as int, s.default_role is Some) >= s.request.roles@.len() {
        lemma_enter_overwrites_forward(s, 0);
    }
}

/// Entering the channels leaves the session among the channels or at the
/// search for the default role.
proof fn lemma_enter_channels_forward(s: RestoreState, from: nat, fresh: u128)
    requires
        from <= s.request.channels@.len(),
    ensures
        forward(
            s,
            enter_channels(s, from, fresh),
            (12 + s.request.categories@.len() + 2 * from) as int,
        ),
{
    lemma_next_channel(s.request.channels@, from as int);
}

/// Entering the categories leaves the session among the categories or
/// further on.
proof fn lemma_enter_categories_forward(s: RestoreState, from: nat, fresh: u128)
    requires
        from <= s.request.categories@.len(),
    ensures
        forward(s, enter_categories(s, from, fresh), (12 + from) as int),
{
    if from >= s.request.categories@.len() {
        lemma_enter_channels_forward(s, 0, fresh);
    }
}

/// With a cooperative store every move brings the session forward, and the
/// move that closes it hands out the response.
proof fn lemma_cooperative_move(s: RestoreState, reply: RestoreReply, fresh: u128)
    requires
        s.wf(),
        s.rank() < 13,
        s.request.within_limits(),
        cooperative(s, reply),
    ensures
        ({
            let next = transition(s, reply, fresh);
            &&& next.0.request == s.request
            &&& position(s) < position(next.0)
            &&& !(next.0.phase is Rollback)
            &&& next.0.phase is Closed <==> next.1 is Completed
        }),
{
    match s.phase {
        Phase::Wipe(step) => {
            if wipe_after(step) is None {
                lemma_enter_categories_forward(s, 0, fresh);
            }
        },
        Phase::Category => {
            let s1 = RestoreState {
                categories: s.categories.insert(
                    s.request.categories@[s.cursor as int].id@,
                    reply->Created_0,
                ),
                categories_created: s.categories_created + 1,
                ..s
            };
            lemma_enter_categories_forward(s1, s.cursor + 1, fresh);
        },
        Phase::ChannelMember => {
            let s1 = RestoreState {
                channels: s.channels.insert(s.request.channels@[s.cursor as int].id@, s.pending),
                channels_created: s.channels_created + 1,
                ..s
            };
            lemma_enter_channels_forward(s1, s.cursor + 1, fresh);
        },
        Phase::DefaultRole => {
            let s1 = RestoreState { default_role: reply->DefaultRole_0, ..s };
            lemma_enter_roles_forward(s1, 0);
        },
        Phase::RoleUpdate => {
            let s1 = RestoreState {
                roles: s.roles.insert(s.request.roles@[s.cursor as int].id@, s.default_role->0),
                roles_updated: s.roles_updated + 1,
                ..s
            };
            lemma_enter_roles_forward(s1, s.cursor + 1);
        },
        Phase::RoleInsert => {
            let s1 = RestoreState {
                roles: s.roles.insert(s.request.roles@[s.cursor as int].id@, reply->Created_0),
                roles_created: s.roles_created + 1,
                ..s
            };
            lemma_enter_roles_forward(s1, s.cursor + 1);
        },
        Phase::Overwrite => {
            let s1 = RestoreState { overwrites_applied: s.overwrites_applied + 1, ..s };
            lemma_enter_overwrites_forward(s1, s.cursor + 1);
        },
        _ => {},
    }
}

/// A run with a cooperative store, as far as it has not handed out the
/// response, has made one step forward with every move.
proof fn lemma_cooperative_run(
    start: RestoreState,
    replies: Seq<RestoreReply>,
    fresh: Seq<u128>,
    k: nat,
)
    requires
        start.wf(),
        start.phase is Idle,
        start.request.within_limits(),
        forall|i: nat|
            i < k ==> cooperative(#[trigger] state_at(start, replies, fresh, i), replies[i as int]),
    ensures
        (exists|j: nat| j < k && #[trigger] outcome_at(start, replies, fresh, j) is Completed) || ({
            let s = state_at(start, replies, fresh, k);
            &&& s.wf()
            &&& s.rank() < 13
            &&& s.request == start.request
            &&& k <= position(s)
        }),
    decreases k,
{
    if k > 0 {
        let before = (k - 1) as nat;
        lemma_cooperative_run(start, replies, fresh, before);
        if !(exists|j: nat| j < before && #[trigger] outcome_at(start, replies, fresh, j) is Completed) {
            let s = state_at(start, replies, fresh, before);
            assert(cooperative(s, replies[before as int]));
            lemma_transition_wf(s, replies[before as int], fresh[before as int]);
            lemma_cooperative_move(s, replies[before as int], fresh[before as int]);
            if transition(s, replies[before as int], fresh[before as int]).1 is Completed {
                assert(outcome_at(start, replies, fresh, before) is Completed);
            }
        }
    }
}

/// A restore that is admitted and meets a cooperative store succeeds. For a
/// caller who is a member with the authority to restore, a backup within the
/// caps and a store that carries out what it is asked, the session hands out
/// its response, after no more moves than the longest restore of the backup
/// takes.
pub proof fn law_cooperative_run_completes(
    user_id: u128,
    server_id: u128,
    request: RestoreServerRequest,
    replies: Seq<RestoreReply>,
    fresh: Seq<u128>,
)
    requires
        request.within_limits(),
        forall|i: nat|
            i < longest_run(request) ==> cooperative(
                #[trigger] state_at(initial_state(user_id, server_id, request), replies, fresh, i),
                replies[i as int],
            ),
    ensures
        exists|j: nat|
            j < longest_run(request) && #[trigger] outcome_at(
                initial_state(user_id, server_id, request),
                replies,
                fresh,
                j,
            ) is Completed,
{
    let start = initial_state(user_id, server_id, request);
    lemma_initial_wf(user_id, server_id, request);
    lemma_cooperative_run(start, replies, fresh, longest_run(request));
}

} // verus!
