//! The structural restore orchestrator.
//!
//! A restore replaces a server's categories, channels, roles and permission
//! overwrites with those of a backup, inside one unit of work of the persistent
//! store, and under a lock that keeps two restores of one server apart. The
//! store is asynchronous and lives outside this crate, so the orchestrator is a
//! session: [`restore_server`] is told what the store answered to the last
//! operation and names the next one, until it hands out the result. What it
//! decides is given by [`transition`], a function on plain values.

use vstd::prelude::*;
use vstd::string::*;
use crate::backup::{
    applicable, applicable_upto, category_of, custom_upto, default_upto,
    lemma_counts_bounded, lemma_next_channel, lemma_next_overwrite, lemma_next_role, next_channel,
    next_overwrite, next_role, restorable_ids_upto, restorable_upto, BackupChannel,
    BackupOverwrite, BackupRole, OverwriteTarget, RestoreServerRequest, MAX_CATEGORIES,
    MAX_CHANNELS,
};
use crate::errors::{AppError, ErrorKind};
use crate::idmap::{IdMap, IdentifierMap};
use crate::text::copy_optional;
use crate::ids::fresh_id;

verus! {

/// The statements that clear a server's structure, in the order they run.
///
/// Rows that hang off messages are removed first, because the store does not
/// cascade to them; the reference to the system channel is dropped before the
/// channels go; custom roles go last. The default role is never touched.
#[derive(Clone, Copy, PartialEq, Eq, Structural, Debug)]
pub enum WipeStep {
    Attachments,
    Reactions,
    Reports,
    SystemChannel,
    Channels,
    Categories,
    CustomRoles,
}

/// What a session is waiting for: the answer to the operation it named last.
#[derive(Clone, Copy, PartialEq, Eq, Structural, Debug)]
pub enum Phase {
    /// Nothing was asked of the store yet.
    Idle,
    Membership,
    Permissions,
    Begin,
    Lock,
    Wipe(WipeStep),
    Category,
    Channel,
    ChannelMember,
    DefaultRole,
    RoleUpdate,
    RoleInsert,
    Overwrite,
    Commit,
    Audit,
    Publish,
    Rollback,
    /// The result was handed out.
    Closed,
}

/// An operation for the persistent store or one of the best-effort sinks.
pub enum RestoreOp {
    /// Is the user a member of the server? Answered by `Membership`.
    CheckMembership { server_id: u128, user_id: u128 },
    /// Is the user the owner, may they manage the server? Answered by `Permissions`.
    LoadPermissions { server_id: u128, user_id: u128 },
    /// Open the unit of work.
    Begin,
    /// Keep every other restore of the server out until the unit of work ends.
    LockServer { server_id: u128 },
    /// Run one statement of the wipe.
    Wipe { step: WipeStep, server_id: u128 },
    /// Create a category; the store mints its identifier and answers `Created`.
    InsertCategory { server_id: u128, name: String, position: i32 },
    /// Create a channel under the given identifier.
    InsertChannel {
        id: u128,
        server_id: u128,
        name: String,
        channel_type: String,
        position: i32,
        category_id: Option<u128>,
        is_private: bool,
        /// Whether the channel is end-to-end encrypted; a restored one is not.
        encrypted: bool,
    },
    /// Make the user a member of the channel; a second membership is no error.
    AddChannelMember { id: u128, channel_id: u128, user_id: u128 },
    /// Look for the server's default role. Answered by `DefaultRole`.
    FindDefaultRole { server_id: u128 },
    /// Set the permission bits of an existing role.
    UpdateRolePermissions { role_id: u128, permissions: i64 },
    /// Create a custom role; the store mints its identifier and answers `Created`.
    InsertRole {
        server_id: u128,
        name: String,
        color: Option<String>,
        permissions: i64,
        position: i32,
    },
    /// Set the allow and deny bits of a role on a channel, replacing earlier ones.
    UpsertOverwrite { channel_id: u128, role_id: u128, allow: i64, deny: i64 },
    /// Make the unit of work permanent.
    Commit,
    /// Abandon the unit of work.
    Rollback,
    /// Record the restore in the audit log; failure is ignored.
    WriteAudit {
        server_id: u128,
        actor_id: u128,
        source_server_name: String,
        categories_created: usize,
        channels_created: usize,
        roles_created: usize,
    },
    /// Tell the server's subscribers that its structure changed; fire and forget.
    Publish { server_id: u128 },
}

/// What the store answered to the last operation.
#[derive(Clone, Copy, PartialEq, Eq, Structural, Debug)]
pub enum RestoreReply {
    /// The store is ready; starts the session.
    Ready,
    /// The operation was carried out.
    Done,
    /// The row was created under this identifier.
    Created(u128),
    /// Whether the user is a member.
    Membership(bool),
    /// The user's standing on the server.
    Permissions { is_owner: bool, manage_server: bool },
    /// The server's default role, if it has one.
    DefaultRole(Option<u128>),
    /// The operation failed.
    Failed,
}

/// The counts and the channel map of a finished restore.
pub struct RestoreServerResponse {
    pub categories_created: usize,
    pub channels_created: usize,
    pub roles_created: usize,
    pub roles_updated: usize,
    pub overwrites_applied: usize,
    pub channel_id_map: IdMap,
}

/// One move of a session.
pub enum RestoreStep {
    /// The store is to carry out this operation and report back.
    Perform(RestoreOp),
    /// The restore is over.
    Finish(Result<RestoreServerResponse, AppError>),
}

/// A finished restore, as plain values.
pub struct Summary {
    pub categories_created: nat,
    pub channels_created: nat,
    pub roles_created: nat,
    pub roles_updated: nat,
    pub overwrites_applied: nat,
    pub channels: Map<Seq<char>, u128>,
}

/// One move of a session, as plain values.
pub enum Outcome {
    Perform(RestoreOp),
    Completed(Summary),
    Failed(ErrorKind),
}

impl RestoreStep {
    /// The move with its response and error reduced to plain values.
    pub open spec fn outcome(self) -> Outcome {
        match self {
            RestoreStep::Perform(op) => Outcome::Perform(op),
            RestoreStep::Finish(Ok(response)) => Outcome::Completed(
                Summary {
                    categories_created: response.categories_created as nat,
                    channels_created: response.channels_created as nat,
                    roles_created: response.roles_created as nat,
                    roles_updated: response.roles_updated as nat,
                    overwrites_applied: response.overwrites_applied as nat,
                    channels: response.channel_id_map@,
                },
            ),
            RestoreStep::Finish(Err(e)) => Outcome::Failed(e.kind_of()),
        }
    }
}

/// The state of a session, as plain values.
pub struct RestoreState {
    pub user_id: u128,
    pub server_id: u128,
    pub request: RestoreServerRequest,
    pub phase: Phase,
    /// The record that the operation under way belongs to.
    pub cursor: nat,
    /// The identifier of the channel under way.
    pub pending: u128,
    pub categories: Map<Seq<char>, u128>,
    pub roles: Map<Seq<char>, u128>,
    pub channels: Map<Seq<char>, u128>,
    pub default_role: Option<u128>,
    pub categories_created: nat,
    pub channels_created: nat,
    pub roles_created: nat,
    pub roles_updated: nat,
    pub overwrites_applied: nat,
}

/// The wipe statement that follows `step`, if any.
pub open spec fn wipe_after(step: WipeStep) -> Option<WipeStep> {
    match step {
        WipeStep::Attachments => Some(WipeStep::Reactions),
        WipeStep::Reactions => Some(WipeStep::Reports),
        WipeStep::Reports => Some(WipeStep::SystemChannel),
        WipeStep::SystemChannel => Some(WipeStep::Channels),
        WipeStep::Channels => Some(WipeStep::Categories),
        WipeStep::Categories => Some(WipeStep::CustomRoles),
        WipeStep::CustomRoles => None,
    }
}

/// Whether `reply` is the answer that `phase` waits for.
pub open spec fn accepts(phase: Phase, reply: RestoreReply) -> bool {
    match phase {
        Phase::Idle => reply is Ready,
        Phase::Membership => reply is Membership,
        Phase::Permissions => reply is Permissions,
        Phase::Begin => reply is Done,
        Phase::Lock => reply is Done,
        Phase::Wipe(_) => reply is Done,
        Phase::Category => reply is Created,
        Phase::Channel => reply is Done,
        Phase::ChannelMember => reply is Done,
        Phase::DefaultRole => reply is DefaultRole,
        Phase::RoleUpdate => reply is Done,
        Phase::RoleInsert => reply is Created,
        Phase::Overwrite => reply is Done,
        Phase::Commit => reply is Done,
        Phase::Audit => true,
        Phase::Publish => true,
        Phase::Rollback => true,
        Phase::Closed => false,
    }
}

/// Whether the unit of work is open and holds changes that are not permanent.
pub open spec fn in_transaction(phase: Phase) -> bool {
    match phase {
        Phase::Lock => true,
        Phase::Wipe(_) => true,
        Phase::Category => true,
        Phase::Channel => true,
        Phase::ChannelMember => true,
        Phase::DefaultRole => true,
        Phase::RoleUpdate => true,
        Phase::RoleInsert => true,
        Phase::Overwrite => true,
        _ => false,
    }
}

/// The session closes with an error.
pub open spec fn fail(s: RestoreState, kind: ErrorKind) -> (RestoreState, Outcome) {
    (RestoreState { phase: Phase::Closed, ..s }, Outcome::Failed(kind))
}

/// Categories from `from` on: create the next one, or go on to the channels.
pub open spec fn enter_categories(s: RestoreState, from: nat, fresh: u128) -> (
    RestoreState,
    Outcome,
) {
    if from < s.request.categories@.len() {
        let category = s.request.categories@[from as int];
        (
            RestoreState { phase: Phase::Category, cursor: from, ..s },
            Outcome::Perform(
                RestoreOp::InsertCategory {
                    server_id: s.server_id,
                    name: category.name,
                    position: category.position,
                },
            ),
        )
    } else {
        enter_channels(s, 0, fresh)
    }
}

/// Channels from `from` on: create the next one that belongs to a server, under
/// the fresh identifier, or go on to the roles.
pub open spec fn enter_channels(s: RestoreState, from: nat, fresh: u128) -> (
    RestoreState,
    Outcome,
) {
    let at = next_channel(s.request.channels@, from as int);
    if at < s.request.channels@.len() {
        let channel = s.request.channels@[at];
        (
            RestoreState { phase: Phase::Channel, cursor: at as nat, pending: fresh, ..s },
            Outcome::Perform(
                RestoreOp::InsertChannel {
                    id: fresh,
                    server_id: s.server_id,
                    name: channel.name,
                    channel_type: channel.channel_type,
                    position: channel.position,
                    category_id: category_of(channel, s.categories),
                    is_private: channel.is_private,
                    encrypted: false,
                },
            ),
        )
    } else {
        (
            RestoreState { phase: Phase::DefaultRole, cursor: 0, ..s },
            Outcome::Perform(RestoreOp::FindDefaultRole { server_id: s.server_id }),
        )
    }
}

/// Roles from `from` on: update the default role, create the next custom role,
/// or go on to the overwrites.
pub open spec fn enter_roles(s: RestoreState, from: nat) -> (RestoreState, Outcome) {
    let at = next_role(s.request.roles@, from as int, s.default_role is Some);
    if at < s.request.roles@.len() {
        let role = s.request.roles@[at];
        if role.is_default {
            (
                RestoreState { phase: Phase::RoleUpdate, cursor: at as nat, ..s },
                Outcome::Perform(
                    RestoreOp::UpdateRolePermissions {
                        role_id: s.default_role->0,
                        permissions: role.permissions,
                    },
                ),
            )
        } else {
            (
                RestoreState { phase: Phase::RoleInsert, cursor: at as nat, ..s },
                Outcome::Perform(
                    RestoreOp::InsertRole {
                        server_id: s.server_id,
                        name: role.name,
                        color: role.color,
                        permissions: role.permissions,
                        position: role.position,
                    },
                ),
            )
        }
    } else {
        enter_overwrites(s, 0)
    }
}

/// Overwrites from `from` on: apply the next one that can be applied, or commit.
pub open spec fn enter_overwrites(s: RestoreState, from: nat) -> (RestoreState, Outcome) {
    let at = next_overwrite(s.request.permission_overwrites@, from as int, s.channels, s.roles);
    if at < s.request.permission_overwrites@.len() {
        let overwrite = s.request.permission_overwrites@[at];
        (
            RestoreState { phase: Phase::Overwrite, cursor: at as nat, ..s },
            Outcome::Perform(
                RestoreOp::UpsertOverwrite {
                    channel_id: s.channels[overwrite.channel_id@],
                    role_id: s.roles[overwrite.target_id@],
                    allow: overwrite.allow,
                    deny: overwrite.deny,
                },
            ),
        )
    } else {
        (RestoreState { phase: Phase::Commit, cursor: 0, ..s }, Outcome::Perform(RestoreOp::Commit))
    }
}

/// What a session in state `s` does when the store answers `reply`.
///
/// `fresh` is the identifier at the session's disposal in this move: a channel
/// created now gets it, and so does a membership row.
pub open spec fn transition(s: RestoreState, reply: RestoreReply, fresh: u128) -> (
    RestoreState,
    Outcome,
) {
    if !accepts(s.phase, reply) {
        if in_transaction(s.phase) {
            (RestoreState { phase: Phase::Rollback, ..s }, Outcome::Perform(RestoreOp::Rollback))
        } else {
            fail(s, ErrorKind::Internal)
        }
    } else {
        match s.phase {
            Phase::Idle => (
                RestoreState { phase: Phase::Membership, ..s },
                Outcome::Perform(
                    RestoreOp::CheckMembership { server_id: s.server_id, user_id: s.user_id },
                ),
            ),
            Phase::Membership => if reply->Membership_0 {
                (
                    RestoreState { phase: Phase::Permissions, ..s },
                    Outcome::Perform(
                        RestoreOp::LoadPermissions { server_id: s.server_id, user_id: s.user_id },
                    ),
                )
            } else {
                fail(s, ErrorKind::Forbidden)
            },
            Phase::Permissions => if !reply->is_owner && !reply->manage_server {
                fail(s, ErrorKind::Forbidden)
            } else if !s.request.within_limits() {
                fail(s, ErrorKind::Validation)
            } else {
                (RestoreState { phase: Phase::Begin, ..s }, Outcome::Perform(RestoreOp::Begin))
            },
            Phase::Begin => (
                RestoreState { phase: Phase::Lock, ..s },
                Outcome::Perform(RestoreOp::LockServer { server_id: s.server_id }),
            ),
            Phase::Lock => (
                RestoreState { phase: Phase::Wipe(WipeStep::Attachments), ..s },
                Outcome::Perform(
                    RestoreOp::Wipe { step: WipeStep::Attachments, server_id: s.server_id },
                ),
            ),
            Phase::Wipe(step) => match wipe_after(step) {
                Some(next) => (
                    RestoreState { phase: Phase::Wipe(next), ..s },
                    Outcome::Perform(RestoreOp::Wipe { step: next, server_id: s.server_id }),
                ),
                None => enter_categories(s, 0, fresh),
            },
            Phase::Category => enter_categories(
                RestoreState {
                    categories: s.categories.insert(
                        s.request.categories@[s.cursor as int].id@,
                        reply->Created_0,
                    ),
                    categories_created: s.categories_created + 1,
                    ..s
                },
                s.cursor + 1,
                fresh,
            ),
            Phase::Channel => (
                RestoreState { phase: Phase::ChannelMember, ..s },
                Outcome::Perform(
                    RestoreOp::AddChannelMember {
                        id: fresh,
                        channel_id: s.pending,
                        user_id: s.user_id,
                    },
                ),
            ),
            Phase::ChannelMember => enter_channels(
                RestoreState {
                    channels: s.channels.insert(
                        s.request.channels@[s.cursor as int].id@,
                        s.pending,
                    ),
                    channels_created: s.channels_created + 1,
                    ..s
                },
                s.cursor + 1,
                fresh,
            ),
            Phase::DefaultRole => enter_roles(
                RestoreState { default_role: reply->DefaultRole_0, ..s },
                0,
            ),
            Phase::RoleUpdate => enter_roles(
                RestoreState {
                    roles: s.roles.insert(
                        s.request.roles@[s.cursor as int].id@,
                        s.default_role->0,
                    ),
                    roles_updated: s.roles_updated + 1,
                    ..s
                },
                s.cursor + 1,
            ),
            Phase::RoleInsert => enter_roles(
                RestoreState {
                    roles: s.roles.insert(s.request.roles@[s.cursor as int].id@, reply->Created_0),
                    roles_created: s.roles_created + 1,
                    ..s
                },
                s.cursor + 1,
            ),
            Phase::Overwrite => enter_overwrites(
                RestoreState { overwrites_applied: s.overwrites_applied + 1, ..s },
                s.cursor + 1,
            ),
            Phase::Commit => (
                RestoreState { phase: Phase::Audit, ..s },
                Outcome::Perform(
                    RestoreOp::WriteAudit {
                        server_id: s.server_id,
                        actor_id: s.user_id,
                        source_server_name: s.request.server.name,
                        categories_created: s.categories_created as usize,
                        channels_created: s.channels_created as usize,
                        roles_created: s.roles_created as usize,
                    },
                ),
            ),
            Phase::Audit => (
                RestoreState { phase: Phase::Publish, ..s },
                Outcome::Perform(RestoreOp::Publish { server_id: s.server_id }),
            ),
            Phase::Publish => (
                RestoreState { phase: Phase::Closed, ..s },
                Outcome::Completed(
                    Summary {
                        categories_created: s.categories_created,
                        channels_created: s.channels_created,
                        roles_created: s.roles_created,
                        roles_updated: s.roles_updated,
                        overwrites_applied: s.overwrites_applied,
                        channels: s.channels,
                    },
                ),
            ),
            Phase::Rollback => fail(s, ErrorKind::Internal),
            Phase::Closed => fail(s, ErrorKind::Internal),
        }
    }
}

impl RestoreState {
    /// How far the session is through the script of a restore.
    pub open spec fn rank(self) -> int {
        match self.phase {
            Phase::Idle => 0,
            Phase::Membership => 1,
            Phase::Permissions => 2,
            Phase::Begin => 3,
            Phase::Lock => 4,
            Phase::Wipe(_) => 4,
            Phase::Category => 5,
            Phase::Channel => 6,
            Phase::ChannelMember => 6,
            Phase::DefaultRole => 7,
            Phase::RoleUpdate => 8,
            Phase::RoleInsert => 8,
            Phase::Overwrite => 9,
            Phase::Commit => 10,
            Phase::Audit => 11,
            Phase::Publish => 12,
            Phase::Rollback => 13,
            Phase::Closed => 13,
        }
    }

    /// The number of categories dealt with.
    pub open spec fn categories_done(self) -> int {
        if self.rank() < 5 {
            0
        } else if self.rank() == 5 {
            self.cursor as int
        } else {
            self.request.categories@.len() as int
        }
    }

    /// The number of channels dealt with.
    pub open spec fn channels_done(self) -> int {
        if self.rank() < 6 {
            0
        } else if self.rank() == 6 {
            self.cursor as int
        } else {
            self.request.channels@.len() as int
        }
    }

    /// The number of roles dealt with.
    pub open spec fn roles_done(self) -> int {
        if self.rank() < 8 {
            0
        } else if self.rank() == 8 {
            self.cursor as int
        } else {
            self.request.roles@.len() as int
        }
    }

    /// The number of overwrites dealt with.
    pub open spec fn overwrites_done(self) -> int {
        if self.rank() < 9 {
            0
        } else if self.rank() == 9 {
            self.cursor as int
        } else {
            self.request.permission_overwrites@.len() as int
        }
    }

    /// The record under way exists and is one that the phase is for.
    pub open spec fn cursor_fits(self) -> bool {
        match self.phase {
            Phase::Category => self.cursor < self.request.categories@.len(),
            Phase::Channel | Phase::ChannelMember => self.cursor < self.request.channels@.len()
                && !self.request.channels@[self.cursor as int].direct(),
            Phase::RoleUpdate => self.cursor < self.request.roles@.len()
                && self.request.roles@[self.cursor as int].is_default && self.default_role is Some,
            Phase::RoleInsert => self.cursor < self.request.roles@.len()
                && !self.request.roles@[self.cursor as int].is_default,
            Phase::Overwrite => self.cursor < self.request.permission_overwrites@.len()
                && applicable(
                self.request.permission_overwrites@[self.cursor as int],
                self.channels,
                self.roles,
            ),
            _ => true,
        }
    }

    /// The state is one that a session can be in: until it fails or closes, its
    /// counts and its channel map say exactly what was done so far.
    pub open spec fn wf(self) -> bool {
        self.rank() == 13 || {
            &&& self.cursor_fits()
            &&& self.categories_created == self.categories_done()
            &&& self.channels_created == restorable_upto(
                self.request.channels@,
                self.channels_done(),
            )
            &&& self.channels.dom() == restorable_ids_upto(
                self.request.channels@,
                self.channels_done(),
            )
            &&& self.roles_created == custom_upto(self.request.roles@, self.roles_done())
            &&& self.roles_updated == if self.default_role is Some {
                default_upto(self.request.roles@, self.roles_done())
            } else {
                0
            }
            &&& self.overwrites_applied == applicable_upto(
                self.request.permission_overwrites@,
                self.overwrites_done(),
                self.channels,
                self.roles,
            )
        }
    }
}

/// The state of a session that has not asked anything yet.
pub open spec fn initial_state(
    user_id: u128,
    server_id: u128,
    request: RestoreServerRequest,
) -> RestoreState {
    RestoreState {
        user_id,
        server_id,
        request,
        phase: Phase::Idle,
        cursor: 0,
        pending: 0,
        categories: Map::empty(),
        roles: Map::empty(),
        channels: Map::empty(),
        default_role: None,
        categories_created: 0,
        channels_created: 0,
        roles_created: 0,
        roles_updated: 0,
        overwrites_applied: 0,
    }
}

/// A session starts in a well-formed state.
pub proof fn lemma_initial_wf(user_id: u128, server_id: u128, request: RestoreServerRequest)
    ensures
        initial_state(user_id, server_id, request).wf(),
{
    let s = initial_state(user_id, server_id, request);
    assert(s.channels.dom() =~= restorable_ids_upto(request.channels@, 0));
}

/// Entering the overwrites keeps the state well-formed.
proof fn lemma_enter_overwrites_wf(s: RestoreState, from: nat)
    requires
        from <= s.request.permission_overwrites@.len(),
        s.categories_created == s.request.categories@.len(),
        s.channels_created == restorable_upto(s.request.channels@, s.request.channels@.len() as int),
        s.channels.dom() == restorable_ids_upto(
            s.request.channels@,
            s.request.channels@.len() as int,
        ),
        s.roles_created == custom_upto(s.request.roles@, s.request.roles@.len() as int),
        s.roles_updated == if s.default_role is Some {
            default_upto(s.request.roles@, s.request.roles@.len() as int)
        } else {
            0
        },
        s.overwrites_applied == applicable_upto(
            s.request.permission_overwrites@,
            from as int,
            s.channels,
            s.roles,
        ),
    ensures
        enter_overwrites(s, from).0.wf(),
{
    lemma_next_overwrite(s.request.permission_overwrites@, from as int, s.channels, s.roles);
}

/// Entering the roles keeps the state well-formed.
proof fn lemma_enter_roles_wf(s: RestoreState, from: nat)
    requires
        from <= s.request.roles@.len(),
        s.categories_created == s.request.categories@.len(),
        s.channels_created == restorable_upto(s.request.channels@, s.request.channels@.len() as int),
        s.channels.dom() == restorable_ids_upto(
            s.request.channels@,
            s.request.channels@.len() as int,
        ),
        s.roles_created == custom_upto(s.request.roles@, from as int),
        s.roles_updated == if s.default_role is Some {
            default_upto(s.request.roles@, from as int)
        } else {
            0
        },
        s.overwrites_applied == 0,
    ensures
        enter_roles(s, from).0.wf(),
{
    lemma_next_role(s.request.roles@, from as int, s.default_role is Some);
    let at = next_role(s.request.roles@, from as int, s.default_role is Some);
    if at >= s.request.roles@.len() {
        lemma_enter_overwrites_wf(s, 0);
    }
}

/// Entering the channels keeps the state well-formed.
proof fn lemma_enter_channels_wf(s: RestoreState, from: nat, fresh: u128)
    requires
        from <= s.request.channels@.len(),
        s.categories_created == s.request.categories@.len(),
        s.channels_created == restorable_upto(s.request.channels@, from as int),
        s.channels.dom() == restorable_ids_upto(s.request.channels@, from as int),
        s.roles_created == 0,
        s.roles_updated == 0,
        s.overwrites_applied == 0,
    ensures
        enter_channels(s, from, fresh).0.wf(),
{
    lemma_next_channel(s.request.channels@, from as int);
}

/// Entering the categories keeps the state well-formed.
proof fn lemma_enter_categories_wf(s: RestoreState, from: nat, fresh: u128)
    requires
        from <= s.request.categories@.len(),
        s.categories_created == from,
        s.channels_created == 0,
        s.channels.dom() == Set::<Seq<char>>::empty(),
        s.roles_created == 0,
        s.roles_updated == 0,
        s.overwrites_applied == 0,
    ensures
        enter_categories(s, from, fresh).0.wf(),
{
    if from >= s.request.categories@.len() {
        lemma_enter_channels_wf(s, 0, fresh);
    }
}

/// Every move of a session leads from a well-formed state to a well-formed state.
pub proof fn lemma_transition_wf(s: RestoreState, reply: RestoreReply, fresh: u128)
    requires
        s.wf(),
    ensures
        transition(s, reply, fresh).0.wf(),
{
    if accepts(s.phase, reply) {
        match s.phase {
            Phase::Wipe(step) => {
                if wipe_after(step) is None {
                    lemma_enter_categories_wf(s, 0, fresh);
                }
            },
            Phase::Category => {
                let s1 = RestoreState {
                    categories: s.categories.insert(
                        s.request.categories@[s.cursor as int].id@,
                        reply->Created_0,
                    ),
                    categories_created: s.categories_created + 1,
                    ..s
                };
                lemma_enter_categories_wf(s1, s.cursor + 1, fresh);
            },
            Phase::ChannelMember => {
                let s1 = RestoreState {
                    channels: s.channels.insert(
                        s.request.channels@[s.cursor as int].id@,
                        s.pending,
                    ),
                    channels_created: s.channels_created + 1,
                    ..s
                };
                assert(s1.channels.dom() =~= restorable_ids_upto(
                    s.request.channels@,
                    (s.cursor + 1) as int,
                ));
                lemma_enter_channels_wf(s1, s.cursor + 1, fresh);
            },
            Phase::DefaultRole => {
                let s1 = RestoreState { default_role: reply->DefaultRole_0, ..s };
                lemma_enter_roles_wf(s1, 0);
            },
            Phase::RoleUpdate => {
                let s1 = RestoreState {
                    roles: s.roles.insert(
                        s.request.roles@[s.cursor as int].id@,
                        s.default_role->0,
                    ),
                    roles_updated: s.roles_updated + 1,
                    ..s
                };
                lemma_enter_roles_wf(s1, s.cursor + 1);
            },
            Phase::RoleInsert => {
                let s1 = RestoreState {
                    roles: s.roles.insert(s.request.roles@[s.cursor as int].id@, reply->Created_0),
                    roles_created: s.roles_created + 1,
                    ..s
                };
                lemma_enter_roles_wf(s1, s.cursor + 1);
            },
            Phase::Overwrite => {
                let s1 = RestoreState { overwrites_applied: s.overwrites_applied + 1, ..s };
                lemma_enter_overwrites_wf(s1, s.cursor + 1);
            },
            _ => {},
        }
    }
}

/// The working data of a session.
struct Core {
    user_id: u128,
    server_id: u128,
    request: RestoreServerRequest,
    phase: Phase,
    cursor: usize,
    pending: u128,
    ids: IdentifierMap,
    default_role: Option<u128>,
    categories_created: usize,
    channels_created: usize,
    roles_created: usize,
    roles_updated: usize,
    overwrites_applied: usize,
}

impl Core {
    /// The working data as plain values.
    spec fn state(self) -> RestoreState {
        RestoreState {
            user_id: self.user_id,
            server_id: self.server_id,
            request: self.request,
            phase: self.phase,
            cursor: self.cursor as nat,
            pending: self.pending,
            categories: self.ids.categories@,
            roles: self.ids.roles@,
            channels: self.ids.channels@,
            default_role: self.default_role,
            categories_created: self.categories_created as nat,
            channels_created: self.channels_created as nat,
            roles_created: self.roles_created as nat,
            roles_updated: self.roles_updated as nat,
            overwrites_applied: self.overwrites_applied as nat,
        }
    }
}

/// A restore under way: the backup, the identifier map and the counts so far.
pub struct RestoreSession {
    core: Core,
}

impl View for RestoreSession {
    type V = RestoreState;

    closed spec fn view(&self) -> RestoreState {
        self.core.state()
    }
}

/// The index of the first channel at or after `from` that is restored.
fn find_channel(channels: &Vec<BackupChannel>, from: usize) -> (at: usize)
    requires
        from <= channels@.len(),
    ensures
        at == next_channel(channels@, from as int),
        from <= at <= channels@.len(),
{
    let mut at: usize = from;
    while at < channels.len()
        invariant
            from <= at <= channels@.len(),
            next_channel(channels@, from as int) == next_channel(channels@, at as int),
        decreases channels@.len() - at,
    {
        if !channels[at].is_direct() {
            return at;
        }
        at += 1;
    }
    at
}

/// The index of the first role at or after `from` that leads to an operation.
fn find_role(roles: &Vec<BackupRole>, from: usize, has_default: bool) -> (at: usize)
    requires
        from <= roles@.len(),
    ensures
        at == next_role(roles@, from as int, has_default),
        from <= at <= roles@.len(),
{
    let mut at: usize = from;
    while at < roles.len()
        invariant
            from <= at <= roles@.len(),
            next_role(roles@, from as int, has_default) == next_role(
                roles@,
                at as int,
                has_default,
            ),
        decreases roles@.len() - at,
    {
        if !roles[at].is_default || has_default {
            return at;
        }
        at += 1;
    }
    at
}

/// Whether an overwrite can be applied under the given maps.
fn is_applicable(overwrite: &BackupOverwrite, channels: &IdMap, roles: &IdMap) -> (r: bool)
    ensures
        r == applicable(*overwrite, channels@, roles@),
{
    match overwrite.target_type {
        OverwriteTarget::Role => channels.contains(&overwrite.channel_id) && roles.contains(
            &overwrite.target_id,
        ),
        OverwriteTarget::Member => false,
    }
}

/// The index of the first overwrite at or after `from` that can be applied.
fn find_overwrite(
    overwrites: &Vec<BackupOverwrite>,
    from: usize,
    channels: &IdMap,
    roles: &IdMap,
) -> (at: usize)
    requires
        from <= overwrites@.len(),
    ensures
        at == next_overwrite(overwrites@, from as int, channels@, roles@),
        from <= at <= overwrites@.len(),
{
    let mut at: usize = from;
    while at < overwrites.len()
        invariant
            from <= at <= overwrites@.len(),
            next_overwrite(overwrites@, from as int, channels@, roles@) == next_overwrite(
                overwrites@,
                at as int,
                channels@,
                roles@,
            ),
        decreases overwrites@.len() - at,
    {
        if is_applicable(&overwrites[at], channels, roles) {
            return at;
        }
        at += 1;
    }
    at
}

/// The platform category of a channel, looked up in the category map.
fn resolve_category(channel: &BackupChannel, categories: &IdMap) -> (r: Option<u128>)
    ensures
        r == category_of(*channel, categories@),
{
    match &channel.category_id {
        Some(local) => categories.get(local),
        None => None,
    }
}

/// Goes on with the overwrites from `from` on.
fn start_overwrites(core: Core, from: usize) -> (r: (Core, RestoreStep))
    requires
        from <= core.request.permission_overwrites@.len(),
    ensures
        (r.0.state(), r.1.outcome()) == enter_overwrites(core.state(), from as nat),
{
    let mut core = core;
    let at = find_overwrite(
        &core.request.permission_overwrites,
        from,
        &core.ids.channels,
        &core.ids.roles,
    );
    proof {
        lemma_next_overwrite(
            core.request.permission_overwrites@,
            from as int,
            core.ids.channels@,
            core.ids.roles@,
        );
    }
    if at < core.request.permission_overwrites.len() {
        let overwrite = &core.request.permission_overwrites[at];
        let op = RestoreOp::UpsertOverwrite {
            channel_id: core.ids.channels.get(&overwrite.channel_id).unwrap(),
            role_id: core.ids.roles.get(&overwrite.target_id).unwrap(),
            allow: overwrite.allow,
            deny: overwrite.deny,
        };
        core.phase = Phase::Overwrite;
        core.cursor = at;
        (core, RestoreStep::Perform(op))
    } else {
        core.phase = Phase::Commit;
        core.cursor = 0;
        (core, RestoreStep::Perform(RestoreOp::Commit))
    }
}

/// Goes on with the roles from `from` on.
fn start_roles(core: Core, from: usize) -> (r: (Core, RestoreStep))
    requires
        from <= core.request.roles@.len(),
    ensures
        (r.0.state(), r.1.outcome()) == enter_roles(core.state(), from as nat),
{
    let mut core = core;
    let at = find_role(&core.request.roles, from, core.default_role.is_some());
    proof {
        lemma_next_role(core.request.roles@, from as int, core.default_role is Some);
    }
    if at < core.request.roles.len() {
        let role = &core.request.roles[at];
        if role.is_default {
            let op = RestoreOp::UpdateRolePermissions {
                role_id: core.default_role.unwrap(),
                permissions: role.permissions,
            };
            core.phase = Phase::RoleUpdate;
            core.cursor = at;
            (core, RestoreStep::Perform(op))
        } else {
            let op = RestoreOp::InsertRole {
                server_id: core.server_id,
                name: role.name.clone(),
                color: copy_optional(&role.color),
                permissions: role.permissions,
                position: role.position,
            };
            core.phase = Phase::RoleInsert;
            core.cursor = at;
            (core, RestoreStep::Perform(op))
        }
    } else {
        start_overwrites(core, 0)
    }
}

/// Goes on with the channels from `from` on.
fn start_channels(core: Core, from: usize, fresh: u128) -> (r: (Core, RestoreStep))
    requires
        from <= core.request.channels@.len(),
    ensures
        (r.0.state(), r.1.outcome()) == enter_channels(core.state(), from as nat, fresh),
{
    let mut core = core;
    let at = find_channel(&core.request.channels, from);
    if at < core.request.channels.len() {
        let channel = &core.request.channels[at];
        let op = RestoreOp::InsertChannel {
            id: fresh,
            server_id: core.server_id,
            name: channel.name.clone(),
            channel_type: channel.channel_type.clone(),
            position: channel.position,
            category_id: resolve_category(channel, &core.ids.categories),
            is_private: channel.is_private,
            encrypted: false,
        };
        core.phase = Phase::Channel;
        core.cursor = at;
        core.pending = fresh;
        (core, RestoreStep::Perform(op))
    } else {
        let op = RestoreOp::FindDefaultRole { server_id: core.server_id };
        core.phase = Phase::DefaultRole;
        core.cursor = 0;
        (core, RestoreStep::Perform(op))
    }
}

/// Goes on with the categories from `from` on.
fn start_categories(core: Core, from: usize, fresh: u128) -> (r: (Core, RestoreStep))
    ensures
        (r.0.state(), r.1.outcome()) == enter_categories(core.state(), from as nat, fresh),
{
    let mut core = core;
    if from < core.request.categories.len() {
        let category = &core.request.categories[from];
        let op = RestoreOp::InsertCategory {
            server_id: core.server_id,
            name: category.name.clone(),
            position: category.position,
        };
        core.phase = Phase::Category;
        core.cursor = from;
        (core, RestoreStep::Perform(op))
    } else {
        start_channels(core, 0, fresh)
    }
}

/// The error for a backup that breaks a structural cap: a validation error
/// whose words name the first cap that is broken.
fn limit_error(request: &RestoreServerRequest) -> (e: AppError)
    ensures
        e is Validation,
        e.text() == request.limit_message(),
{
    if request.categories.len() > MAX_CATEGORIES {
        AppError::validation("Too many categories (max 50)")
    } else if request.channels.len() > MAX_CHANNELS {
        AppError::validation("Too many channels (max 500)")
    } else {
        AppError::validation("Too many roles (max 250)")
    }
}

/// Ends the session with an error.
fn close(core: Core, error: AppError) -> (r: (Core, RestoreStep))
    ensures
        (r.0.state(), r.1.outcome()) == fail(core.state(), error.kind_of()),
{
    let mut core = core;
    core.phase = Phase::Closed;
    (core, RestoreStep::Finish(Err(error)))
}

/// Takes an answer of the store and makes the session's next move.
fn advance(core: Core, reply: RestoreReply, fresh: u128) -> (r: (Core, RestoreStep))
    requires
        core.state().wf(),
    ensures
        (r.0.state(), r.1.outcome()) == transition(core.state(), reply, fresh),
{
    let mut core = core;
    proof {
        lemma_counts_bounded(
            core.request,
            core.state().channels_done(),
            core.ids.channels@,
            core.ids.roles@,
        );
        lemma_counts_bounded(
            core.request,
            core.state().roles_done(),
            core.ids.channels@,
            core.ids.roles@,
        );
        lemma_counts_bounded(
            core.request,
            core.state().overwrites_done(),
            core.ids.channels@,
            core.ids.roles@,
        );
    }
    match (core.phase, reply) {
        (Phase::Idle, RestoreReply::Ready) => {
            let op = RestoreOp::CheckMembership {
                server_id: core.server_id,
                user_id: core.user_id,
            };
            core.phase = Phase::Membership;
            (core, RestoreStep::Perform(op))
        },
        (Phase::Membership, RestoreReply::Membership(member)) => {
            if member {
                let op = RestoreOp::LoadPermissions {
                    server_id: core.server_id,
                    user_id: core.user_id,
                };
                core.phase = Phase::Permissions;
                (core, RestoreStep::Perform(op))
            } else {
                close(core, AppError::forbidden("Not a member of this server"))
            }
        },
        (Phase::Permissions, RestoreReply::Permissions { is_owner, manage_server }) => {
            if !is_owner && !manage_server {
                close(core, AppError::forbidden("Missing MANAGE_SERVER permission"))
            } else if !core.request.is_within_limits() {
                let error = limit_error(&core.request);
                close(core, error)
            } else {
                core.phase = Phase::Begin;
                (core, RestoreStep::Perform(RestoreOp::Begin))
            }
        },
        (Phase::Begin, RestoreReply::Done) => {
            let op = RestoreOp::LockServer { server_id: core.server_id };
            core.phase = Phase::Lock;
            (core, RestoreStep::Perform(op))
        },
        (Phase::Lock, RestoreReply::Done) => {
            let op = RestoreOp::Wipe { step: WipeStep::Attachments, server_id: core.server_id };
            core.phase = Phase::Wipe(WipeStep::Attachments);
            (core, RestoreStep::Perform(op))
        },
        (Phase::Wipe(step), RestoreReply::Done) => {
            match next_wipe(step) {
                Some(next) => {
                    let op = RestoreOp::Wipe { step: next, server_id: core.server_id };
                    core.phase = Phase::Wipe(next);
                    (core, RestoreStep::Perform(op))
                },
                None => start_categories(core, 0, fresh),
            }
        },
        (Phase::Category, RestoreReply::Created(id)) => {
            let total = core.request.categories.len();
            assert(core.categories_created < total);
            let local = core.request.categories[core.cursor].id.clone();
            core.ids.categories.insert(local, id);
            core.categories_created = core.categories_created + 1;
            let from = core.cursor + 1;
            start_categories(core, from, fresh)
        },
        (Phase::Channel, RestoreReply::Done) => {
            let op = RestoreOp::AddChannelMember {
                id: fresh,
                channel_id: core.pending,
                user_id: core.user_id,
            };
            core.phase = Phase::ChannelMember;
            (core, RestoreStep::Perform(op))
        },
        (Phase::ChannelMember, RestoreReply::Done) => {
            let total = core.request.channels.len();
            assert(core.channels_created <= core.cursor < total);
            let local = core.request.channels[core.cursor].id.clone();
            core.ids.channels.insert(local, core.pending);
            core.channels_created = core.channels_created + 1;
            let from = core.cursor + 1;
            start_channels(core, from, fresh)
        },
        (Phase::DefaultRole, RestoreReply::DefaultRole(found)) => {
            core.default_role = found;
            start_roles(core, 0)
        },
        (Phase::RoleUpdate, RestoreReply::Done) => {
            let total = core.request.roles.len();
            assert(core.roles_updated <= core.cursor < total);
            let local = core.request.roles[core.cursor].id.clone();
            core.ids.roles.insert(local, core.default_role.unwrap());
            core.roles_updated = core.roles_updated + 1;
            let from = core.cursor + 1;
            start_roles(core, from)
        },
        (Phase::RoleInsert, RestoreReply::Created(id)) => {
            let total = core.request.roles.len();
            assert(core.roles_created <= core.cursor < total);
            let local = core.request.roles[core.cursor].id.clone();
            core.ids.roles.insert(local, id);
            core.roles_created = core.roles_created + 1;
            let from = core.cursor + 1;
            start_roles(core, from)
        },
        (Phase::Overwrite, RestoreReply::Done) => {
            let total = core.request.permission_overwrites.len();
            assert(core.overwrites_applied <= core.cursor < total);
            core.overwrites_applied = core.overwrites_applied + 1;
            let from = core.cursor + 1;
            start_overwrites(core, from)
        },
        (Phase::Commit, RestoreReply::Done) => {
            let op = RestoreOp::WriteAudit {
                server_id: core.server_id,
                actor_id: core.user_id,
                source_server_name: core.request.server.name.clone(),
                categories_created: core.categories_created,
                channels_created: core.channels_created,
                roles_created: core.roles_created,
            };
            core.phase = Phase::Audit;
            (core, RestoreStep::Perform(op))
        },
        (Phase::Audit, _) => {
            let op = RestoreOp::Publish { server_id: core.server_id };
            core.phase = Phase::Publish;
            (core, RestoreStep::Perform(op))
        },
        (Phase::Publish, _) => {
            let response = RestoreServerResponse {
                categories_created: core.categories_created,
                channels_created: core.channels_created,
                roles_created: core.roles_created,
                roles_updated: core.roles_updated,
                overwrites_applied: core.overwrites_applied,
                channel_id_map: core.ids.channels.duplicate(),
            };
            core.phase = Phase::Closed;
            (core, RestoreStep::Finish(Ok(response)))
        },
        (Phase::Rollback, _) => close(core, AppError::internal("The restore was rolled back")),
        (phase, _) => {
            if is_in_transaction(phase) {
                core.phase = Phase::Rollback;
                (core, RestoreStep::Perform(RestoreOp::Rollback))
            } else {
                close(core, AppError::internal("The store did not answer as expected"))
            }
        },
    }
}

/// The wipe statement that follows `step`, if any.
pub fn next_wipe(step: WipeStep) -> (r: Option<WipeStep>)
    ensures
        r == wipe_after(step),
{
    match step {
        WipeStep::Attachments => Some(WipeStep::Reactions),
        WipeStep::Reactions => Some(WipeStep::Reports),
        WipeStep::Reports => Some(WipeStep::SystemChannel),
        WipeStep::SystemChannel => Some(WipeStep::Channels),
        WipeStep::Channels => Some(WipeStep::Categories),
        WipeStep::Categories => Some(WipeStep::CustomRoles),
        WipeStep::CustomRoles => None,
    }
}

/// Whether the unit of work is open in `phase`.
pub fn is_in_transaction(phase: Phase) -> (r: bool)
    ensures
        r == in_transaction(phase),
{
    match phase {
        Phase::Lock => true,
        Phase::Wipe(_) => true,
        Phase::Category => true,
        Phase::Channel => true,
        Phase::ChannelMember => true,
        Phase::DefaultRole => true,
        Phase::RoleUpdate => true,
        Phase::RoleInsert => true,
        Phase::Overwrite => true,
        _ => false,
    }
}

impl RestoreSession {
    /// A session is always in a well-formed state.
    #[verifier::type_invariant]
    spec fn inv(self) -> bool {
        self.core.state().wf()
    }

    /// A session for `user_id` restoring `request` into the server `server_id`.
    /// Nothing is asked of the store before the first move.
    pub fn new(user_id: u128, server_id: u128, request: RestoreServerRequest) -> (session:
        RestoreSession)
        ensures
            session@ == initial_state(user_id, server_id, request),
    {
        proof {
            lemma_initial_wf(user_id, server_id, request);
        }
        RestoreSession {
            core: Core {
                user_id,
                server_id,
                request,
                phase: Phase::Idle,
                cursor: 0,
                pending: 0,
                ids: IdentifierMap::new(),
                default_role: None,
                categories_created: 0,
                channels_created: 0,
                roles_created: 0,
                roles_updated: 0,
                overwrites_applied: 0,
            },
        }
    }

    /// What the session is waiting for.
    pub fn phase(&self) -> (phase: Phase)
        ensures
            phase == self@.phase,
    {
        self.core.phase
    }
}

/// One move of a restore, with the identifier that the move may use.
///
/// The session takes the store's answer to the operation it named last and
/// names the next one, or hands out the result: exactly what [`transition`]
/// says for its state.
pub fn restore_step(session: RestoreSession, reply: RestoreReply, fresh: u128) -> (r: (
    RestoreSession,
    RestoreStep,
))
    ensures
        session@.wf(),
        r.0@.wf(),
        (r.0@, r.1.outcome()) == transition(session@, reply, fresh),
{
    proof {
        use_type_invariant(&session);
        lemma_transition_wf(session@, reply, fresh);
    }
    let (core, step) = advance(session.core, reply, fresh);
    (RestoreSession { core }, step)
}

/// One move of a restore.
///
/// The identifier that the move may use is drawn at random; whatever is drawn,
/// the move is the one that [`transition`] gives for it.
pub fn restore_server(session: RestoreSession, reply: RestoreReply) -> (r: (
    RestoreSession,
    RestoreStep,
))
    ensures
        session@.wf(),
        r.0@.wf(),
        exists|fresh: u128| (r.0@, r.1.outcome()) == #[trigger] transition(session@, reply, fresh),
{
    let fresh = fresh_id();
    restore_step(session, reply, fresh)
}

} // verus!
