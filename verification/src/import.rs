//! The message replay importer.
//!
//! A batch of historical messages is put into a channel that exists already,
//! with the timestamps and the provenance the messages had. The batch is one
//! unit of work: every record of it is stored, or none is. The importer is a
//! session like the restore: [`import_messages`] is told what the store
//! answered and names the next operation; what it decides is given by
//! [`import_transition`].

use vstd::prelude::*;
use vstd::string::*;
use crate::encoding::{base64_decoded, decode_base64};
use crate::errors::{AppError, ErrorKind};
use crate::ids::{fresh_id, lenient_id, parse_optional_id};
use crate::time::{parse_timestamp, timestamp_of, Timestamp};

verus! {

/// Most records a batch may hold.
pub const MAX_BATCH: usize = 200;

/// A message of a backup. Token and body are opaque and come in transport
/// encoding; the importer neither decrypts nor interprets them.
pub struct MessageRecord {
    pub sender_token: String,
    pub encrypted_body: String,
    pub timestamp: String,
    pub has_attachments: bool,
    pub sender_id: Option<String>,
    pub reply_to_id: Option<String>,
    pub message_type: String,
}

/// A batch of messages for one channel.
pub struct ImportMessagesRequest {
    pub messages: Vec<MessageRecord>,
}

/// The count of a finished import.
pub struct ImportMessagesResponse {
    pub imported: usize,
}

/// A message as it is stored.
pub struct MessageInsert {
    pub id: u128,
    pub channel_id: u128,
    pub sender_token: Vec<u8>,
    pub encrypted_body: Vec<u8>,
    pub timestamp: Timestamp,
    pub has_attachments: bool,
    pub sender_id: Option<u128>,
    pub reply_to_id: Option<u128>,
    pub message_type: String,
}

/// A message as it is stored, as plain values.
pub struct PlannedInsert {
    pub id: u128,
    pub channel_id: u128,
    pub sender_token: Seq<u8>,
    pub encrypted_body: Seq<u8>,
    pub timestamp: Timestamp,
    pub has_attachments: bool,
    pub sender_id: Option<u128>,
    pub reply_to_id: Option<u128>,
    pub message_type: String,
}

impl View for MessageInsert {
    type V = PlannedInsert;

    open spec fn view(&self) -> PlannedInsert {
        PlannedInsert {
            id: self.id,
            channel_id: self.channel_id,
            sender_token: self.sender_token@,
            encrypted_body: self.encrypted_body@,
            timestamp: self.timestamp,
            has_attachments: self.has_attachments,
            sender_id: self.sender_id,
            reply_to_id: self.reply_to_id,
            message_type: self.message_type,
        }
    }
}

/// Whether a record can be stored: its token and its body decode, and its
/// timestamp names a point in time.
pub open spec fn decodable(record: MessageRecord) -> bool {
    &&& base64_decoded(record.sender_token@) is Some
    &&& base64_decoded(record.encrypted_body@) is Some
    &&& timestamp_of(record.timestamp@) is Some
}

/// What is stored for a record that can be stored: token and body decoded, the
/// timestamp in UTC, the references to sender and replied-to message where they
/// spell identifiers, and an identifier of its own, never the one it had.
pub open spec fn planned(record: MessageRecord, channel_id: u128, id: u128) -> PlannedInsert {
    PlannedInsert {
        id,
        channel_id,
        sender_token: base64_decoded(record.sender_token@)->0,
        encrypted_body: base64_decoded(record.encrypted_body@)->0,
        timestamp: timestamp_of(record.timestamp@)->0,
        has_attachments: record.has_attachments,
        sender_id: lenient_id(record.sender_id),
        reply_to_id: lenient_id(record.reply_to_id),
        message_type: record.message_type,
    }
}

/// Turns a record into what is stored for it, under the identifier `id`.
///
/// The record is refused as invalid exactly where it cannot be stored. A
/// sender or a replied-to message that spells no identifier is left out.
pub fn prepare_message(record: &MessageRecord, channel_id: u128, id: u128) -> (r: Result<
    MessageInsert,
    AppError,
>)
    ensures
        match r {
            Ok(insert) => decodable(*record) && insert@ == planned(*record, channel_id, id),
            Err(e) => e is Validation && !decodable(*record),
        },
{
    let sender_token = match decode_base64(record.sender_token.as_str()) {
        Some(bytes) => bytes,
        None => {
            return Err(AppError::validation("Invalid base64 sender_token"));
        },
    };
    let encrypted_body = match decode_base64(record.encrypted_body.as_str()) {
        Some(bytes) => bytes,
        None => {
            return Err(AppError::validation("Invalid base64 encrypted_body"));
        },
    };
    let timestamp = match parse_timestamp(record.timestamp.as_str()) {
        Some(t) => t,
        None => {
            let message = String::from_str("Invalid timestamp: ").concat(
                record.timestamp.as_str(),
            );
            return Err(AppError::Validation(message));
        },
    };
    Ok(
        MessageInsert {
            id,
            channel_id,
            sender_token,
            encrypted_body,
            timestamp,
            has_attachments: record.has_attachments,
            sender_id: parse_optional_id(&record.sender_id),
            reply_to_id: parse_optional_id(&record.reply_to_id),
            message_type: record.message_type.clone(),
        },
    )
}

/// What a session is waiting for: the answer to the operation it named last.
#[derive(Clone, Copy, PartialEq, Eq, Structural, Debug)]
pub enum ImportPhase {
    /// Nothing was asked of the store yet.
    Idle,
    Channel,
    Permissions,
    Begin,
    Insert,
    Commit,
    Rollback,
    /// The result was handed out.
    Closed,
}

/// What the store knows of a channel.
#[derive(Clone, Copy, PartialEq, Eq, Structural, Debug)]
pub enum ChannelLookup {
    /// There is no such channel.
    Missing,
    /// The channel belongs to no server: it is a direct-message channel.
    Direct,
    /// The channel belongs to this server.
    InServer(u128),
}

/// An operation for the persistent store.
pub enum ImportOp {
    /// Look the channel up. Answered by `Channel`.
    FindChannel { channel_id: u128 },
    /// Is the user the owner, may they manage the server? Answered by `Permissions`.
    LoadPermissions { server_id: u128, user_id: u128 },
    /// Open the unit of work.
    Begin,
    /// Store a message.
    InsertMessage(MessageInsert),
    /// Make the unit of work permanent.
    Commit,
    /// Abandon the unit of work.
    Rollback,
}

/// An operation for the persistent store, as plain values.
pub enum ImportAction {
    FindChannel { channel_id: u128 },
    LoadPermissions { server_id: u128, user_id: u128 },
    Begin,
    InsertMessage(PlannedInsert),
    Commit,
    Rollback,
}

impl View for ImportOp {
    type V = ImportAction;

    open spec fn view(&self) -> ImportAction {
        match *self {
            ImportOp::FindChannel { channel_id } => ImportAction::FindChannel { channel_id },
            ImportOp::LoadPermissions { server_id, user_id } => ImportAction::LoadPermissions {
                server_id,
                user_id,
            },
            ImportOp::Begin => ImportAction::Begin,
            ImportOp::InsertMessage(insert) => ImportAction::InsertMessage(insert@),
            ImportOp::Commit => ImportAction::Commit,
            ImportOp::Rollback => ImportAction::Rollback,
        }
    }
}

/// What the store answered to the last operation.
#[derive(Clone, Copy, PartialEq, Eq, Structural, Debug)]
pub enum ImportReply {
    /// The store is ready; starts the session.
    Ready,
    /// The operation was carried out.
    Done,
    /// What the store knows of the channel.
    Channel(ChannelLookup),
    /// The user's standing on the channel's server.
    Permissions { is_owner: bool, manage_server: bool },
    /// The operation failed.
    Failed,
}

/// One move of a session.
pub enum ImportStep {
    /// The store is to carry out this operation and report back.
    Perform(ImportOp),
    /// The import is over.
    Finish(Result<ImportMessagesResponse, AppError>),
}

/// One move of a session, as plain values.
pub enum ImportOutcome {
    Perform(ImportAction),
    /// The batch was stored; the number of its records.
    Completed(nat),
    Failed(ErrorKind),
}

impl ImportStep {
    /// The move with its operation, response and error reduced to plain values.
    pub open spec fn outcome(self) -> ImportOutcome {
        match self {
            ImportStep::Perform(op) => ImportOutcome::Perform(op@),
            ImportStep::Finish(Ok(response)) => ImportOutcome::Completed(response.imported as nat),
            ImportStep::Finish(Err(e)) => ImportOutcome::Failed(e.kind_of()),
        }
    }
}

/// The state of a session, as plain values.
pub struct ImportState {
    pub user_id: u128,
    pub channel_id: u128,
    pub request: ImportMessagesRequest,
    pub phase: ImportPhase,
    /// The record that the insertion under way belongs to.
    pub cursor: nat,
    /// The server of the channel, once it is known.
    pub server_id: u128,
    /// Why the unit of work is abandoned, once it is.
    pub failure: ErrorKind,
    pub imported: nat,
}

/// Whether `reply` is the answer that `phase` waits for.
pub open spec fn import_accepts(phase: ImportPhase, reply: ImportReply) -> bool {
    match phase {
        ImportPhase::Idle => reply is Ready,
        ImportPhase::Channel => reply is Channel,
        ImportPhase::Permissions => reply is Permissions,
        ImportPhase::Begin => reply is Done,
        ImportPhase::Insert => reply is Done,
        ImportPhase::Commit => reply is Done,
        ImportPhase::Rollback => true,
        ImportPhase::Closed => false,
    }
}

/// The session closes with an error.
pub open spec fn import_fail(s: ImportState, kind: ErrorKind) -> (ImportState, ImportOutcome) {
    (ImportState { phase: ImportPhase::Closed, ..s }, ImportOutcome::Failed(kind))
}

/// The unit of work is abandoned for the given reason.
pub open spec fn import_abandon(s: ImportState, kind: ErrorKind) -> (ImportState, ImportOutcome) {
    (
        ImportState { phase: ImportPhase::Rollback, failure: kind, ..s },
        ImportOutcome::Perform(ImportAction::Rollback),
    )
}

/// Records from `from` on: store the next one under the fresh identifier,
/// abandon the batch if it cannot be stored, or commit when none is left.
pub open spec fn enter_messages(s: ImportState, from: nat, fresh: u128) -> (
    ImportState,
    ImportOutcome,
) {
    if from < s.request.messages@.len() {
        let record = s.request.messages@[from as int];
        if decodable(record) {
            (
                ImportState { phase: ImportPhase::Insert, cursor: from, ..s },
                ImportOutcome::Perform(
                    ImportAction::InsertMessage(planned(record, s.channel_id, fresh)),
                ),
            )
        } else {
            import_abandon(s, ErrorKind::Validation)
        }
    } else {
        (
            ImportState { phase: ImportPhase::Commit, cursor: from, ..s },
            ImportOutcome::Perform(ImportAction::Commit),
        )
    }
}

/// What a session in state `s` does when the store answers `reply`.
///
/// `fresh` is the identifier at the session's disposal in this move: a message
/// stored now gets it.
pub open spec fn import_transition(s: ImportState, reply: ImportReply, fresh: u128) -> (
    ImportState,
    ImportOutcome,
) {
    if !import_accepts(s.phase, reply) {
        if s.phase is Insert {
            import_abandon(s, ErrorKind::Internal)
        } else {
            import_fail(s, ErrorKind::Internal)
        }
    } else {
        match s.phase {
            ImportPhase::Idle => if s.request.messages@.len() > MAX_BATCH {
                import_fail(s, ErrorKind::Validation)
            } else {
                (
                    ImportState { phase: ImportPhase::Channel, ..s },
                    ImportOutcome::Perform(ImportAction::FindChannel { channel_id: s.channel_id }),
                )
            },
            ImportPhase::Channel => match reply->Channel_0 {
                ChannelLookup::Missing => import_fail(s, ErrorKind::NotFound),
                ChannelLookup::Direct => import_fail(s, ErrorKind::Validation),
                ChannelLookup::InServer(server_id) => (
                    ImportState { phase: ImportPhase::Permissions, server_id, ..s },
                    ImportOutcome::Perform(
                        ImportAction::LoadPermissions { server_id, user_id: s.user_id },
                    ),
                ),
            },
            ImportPhase::Permissions => if !reply->is_owner && !reply->manage_server {
                import_fail(s, ErrorKind::Forbidden)
            } else {
                (
                    ImportState { phase: ImportPhase::Begin, ..s },
                    ImportOutcome::Perform(ImportAction::Begin),
                )
            },
            ImportPhase::Begin => enter_messages(s, 0, fresh),
            ImportPhase::Insert => enter_messages(
                ImportState { imported: s.imported + 1, ..s },
                s.cursor + 1,
                fresh,
            ),
            ImportPhase::Commit => (
                ImportState { phase: ImportPhase::Closed, ..s },
                ImportOutcome::Completed(s.imported),
            ),
            ImportPhase::Rollback => import_fail(s, s.failure),
            ImportPhase::Closed => import_fail(s, ErrorKind::Internal),
        }
    }
}

impl ImportState {
    /// The state is one that a session can be in: while records are stored and
    /// when the batch is committed, every record so far could be stored, and
    /// the count says how many were.
    pub open spec fn wf(self) -> bool {
        match self.phase {
            ImportPhase::Insert => {
                &&& self.cursor < self.request.messages@.len()
                &&& self.imported == self.cursor
                &&& forall|i: int|
                    0 <= i <= self.cursor ==> decodable(#[trigger] self.request.messages@[i])
            },
            ImportPhase::Commit => {
                &&& self.imported == self.request.messages@.len()
                &&& forall|i: int|
                    0 <= i < self.request.messages@.len() ==> decodable(
                        #[trigger] self.request.messages@[i],
                    )
            },
            ImportPhase::Rollback => true,
            ImportPhase::Closed => true,
            _ => self.imported == 0,
        }
    }
}

/// The state of a session that has not asked anything yet.
pub open spec fn import_initial(
    user_id: u128,
    channel_id: u128,
    request: ImportMessagesRequest,
) -> ImportState {
    ImportState {
        user_id,
        channel_id,
        request,
        phase: ImportPhase::Idle,
        cursor: 0,
        server_id: 0,
        failure: ErrorKind::Internal,
        imported: 0,
    }
}

/// Every move of a session leads from a well-formed state to a well-formed state.
pub proof fn lemma_import_transition_wf(s: ImportState, reply: ImportReply, fresh: u128)
    requires
        s.wf(),
    ensures
        import_transition(s, reply, fresh).0.wf(),
{
}

/// The working data of a session.
struct Core {
    user_id: u128,
    channel_id: u128,
    request: ImportMessagesRequest,
    phase: ImportPhase,
    cursor: usize,
    server_id: u128,
    failure: Option<AppError>,
    imported: usize,
}

impl Core {
    /// The working data as plain values.
    spec fn state(self) -> ImportState {
        ImportState {
            user_id: self.user_id,
            channel_id: self.channel_id,
            request: self.request,
            phase: self.phase,
            cursor: self.cursor as nat,
            server_id: self.server_id,
            failure: match self.failure {
                Some(e) => e.kind_of(),
                None => ErrorKind::Internal,
            },
            imported: self.imported as nat,
        }
    }
}

/// An import under way: the batch and how far it has come.
pub struct ImportSession {
    core: Core,
}

impl View for ImportSession {
    type V = ImportState;

    closed spec fn view(&self) -> ImportState {
        self.core.state()
    }
}

/// Ends the session with an error.
fn close(core: Core, error: AppError) -> (r: (Core, ImportStep))
    ensures
        (r.0.state(), r.1.outcome()) == import_fail(core.state(), error.kind_of()),
{
    let mut core = core;
    core.phase = ImportPhase::Closed;
    (core, ImportStep::Finish(Err(error)))
}

/// Abandons the unit of work; the error is told once the store has rolled back.
fn abandon(core: Core, error: AppError) -> (r: (Core, ImportStep))
    ensures
        (r.0.state(), r.1.outcome()) == import_abandon(core.state(), error.kind_of()),
{
    let mut core = core;
    core.phase = ImportPhase::Rollback;
    core.failure = Some(error);
    (core, ImportStep::Perform(ImportOp::Rollback))
}

/// Goes on with the records from `from` on.
fn start_messages(core: Core, from: usize, fresh: u128) -> (r: (Core, ImportStep))
    ensures
        (r.0.state(), r.1.outcome()) == enter_messages(core.state(), from as nat, fresh),
{
    let mut core = core;
    if from < core.request.messages.len() {
        match prepare_message(&core.request.messages[from], core.channel_id, fresh) {
            Ok(insert) => {
                core.phase = ImportPhase::Insert;
                core.cursor = from;
                (core, ImportStep::Perform(ImportOp::InsertMessage(insert)))
            },
            Err(error) => abandon(core, error),
        }
    } else {
        core.phase = ImportPhase::Commit;
        core.cursor = from;
        (core, ImportStep::Perform(ImportOp::Commit))
    }
}

/// Takes an answer of the store and makes the session's next move.
fn advance(core: Core, reply: ImportReply, fresh: u128) -> (r: (Core, ImportStep))
    requires
        core.state().wf(),
    ensures
        (r.0.state(), r.1.outcome()) == import_transition(core.state(), reply, fresh),
{
    let mut core = core;
    match (core.phase, reply) {
        (ImportPhase::Idle, ImportReply::Ready) => {
            if core.request.messages.len() > MAX_BATCH {
                close(core, AppError::validation("Too many messages per batch (max 200)"))
            } else {
                let op = ImportOp::FindChannel { channel_id: core.channel_id };
                core.phase = ImportPhase::Channel;
                (core, ImportStep::Perform(op))
            }
        },
        (ImportPhase::Channel, ImportReply::Channel(lookup)) => {
            match lookup {
                ChannelLookup::Missing => close(core, AppError::not_found("Channel not found")),
                ChannelLookup::Direct => close(
                    core,
                    AppError::validation("Cannot import messages to DM channel"),
                ),
                ChannelLookup::InServer(server_id) => {
                    let op = ImportOp::LoadPermissions { server_id, user_id: core.user_id };
                    core.phase = ImportPhase::Permissions;
                    core.server_id = server_id;
                    (core, ImportStep::Perform(op))
                },
            }
        },
        (ImportPhase::Permissions, ImportReply::Permissions { is_owner, manage_server }) => {
            if !is_owner && !manage_server {
                close(core, AppError::forbidden("Missing MANAGE_SERVER permission"))
            } else {
                core.phase = ImportPhase::Begin;
                (core, ImportStep::Perform(ImportOp::Begin))
            }
        },
        (ImportPhase::Begin, ImportReply::Done) => start_messages(core, 0, fresh),
        (ImportPhase::Insert, ImportReply::Done) => {
            let total = core.request.messages.len();
            assert(core.imported == core.cursor < total);
            core.imported = core.imported + 1;
            let from = core.cursor + 1;
            start_messages(core, from, fresh)
        },
        (ImportPhase::Commit, ImportReply::Done) => {
            let response = ImportMessagesResponse { imported: core.imported };
            core.phase = ImportPhase::Closed;
            (core, ImportStep::Finish(Ok(response)))
        },
        (ImportPhase::Rollback, _) => {
            let error = match &core.failure {
                Some(e) => e.duplicate(),
                None => AppError::internal("The import was rolled back"),
            };
            close(core, error)
        },
        (ImportPhase::Insert, _) => abandon(
            core,
            AppError::internal("The store failed while the batch was written"),
        ),
        (_, _) => close(core, AppError::internal("The store did not answer as expected")),
    }
}

impl ImportSession {
    /// A session is always in a well-formed state.
    #[verifier::type_invariant]
    spec fn inv(self) -> bool {
        self.core.state().wf()
    }

    /// A session for `user_id` importing `request` into the channel `channel_id`.
    /// Nothing is asked of the store before the first move.
    pub fn new(user_id: u128, channel_id: u128, request: ImportMessagesRequest) -> (session:
        ImportSession)
        ensures
            session@ == import_initial(user_id, channel_id, request),
    {
        ImportSession {
            core: Core {
                user_id,
                channel_id,
                request,
                phase: ImportPhase::Idle,
                cursor: 0,
                server_id: 0,
                failure: None,
                imported: 0,
            },
        }
    }

    /// What the session is waiting for.
    pub fn phase(&self) -> (phase: ImportPhase)
        ensures
            phase == self@.phase,
    {
        self.core.phase
    }
}

/// One move of an import, with the identifier that the move may use.
///
/// The session takes the store's answer to the operation it named last and
/// names the next one, or hands out the result: exactly what
/// [`import_transition`] says for its state.
pub fn import_step(session: ImportSession, reply: ImportReply, fresh: u128) -> (r: (
    ImportSession,
    ImportStep,
))
    ensures
        session@.wf(),
        r.0@.wf(),
        (r.0@, r.1.outcome()) == import_transition(session@, reply, fresh),
{
    proof {
        use_type_invariant(&session);
        lemma_import_transition_wf(session@, reply, fresh);
    }
    let (core, step) = advance(session.core, reply, fresh);
    (ImportSession { core }, step)
}

/// One move of an import.
///
/// The identifier that the move may use is drawn at random; whatever is drawn,
/// the move is the one that [`import_transition`] gives for it.
pub fn import_messages(session: ImportSession, reply: ImportReply) -> (r: (
    ImportSession,
    ImportStep,
))
    ensures
        session@.wf(),
        r.0@.wf(),
        exists|fresh: u128|
            (r.0@, r.1.outcome()) == #[trigger] import_transition(session@, reply, fresh),
{
    let fresh = fresh_id();
    import_step(session, reply, fresh)
}

} // verus!
