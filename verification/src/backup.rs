//! The structural sections of a backup, as they are submitted for a restore.
//!
//! Every record names itself and the records it depends on by identifiers that
//! are local to the backup. None of them is trusted to mean anything on this
//! platform until the restore has mapped it to an identifier minted here.

use vstd::prelude::*;
use vstd::string::*;
use crate::text::same_text;

verus! {

/// Most categories a backup may hold.
pub const MAX_CATEGORIES: usize = 50;

/// Most channels a backup may hold.
pub const MAX_CHANNELS: usize = 500;

/// Most roles a backup may hold.
pub const MAX_ROLES: usize = 250;

/// A category of the backup.
pub struct BackupCategory {
    pub id: String,
    pub name: String,
    pub position: i32,
}

/// A channel of the backup.
pub struct BackupChannel {
    pub id: String,
    pub name: String,
    pub channel_type: String,
    pub position: i32,
    pub category_id: Option<String>,
    pub is_private: bool,
}

impl BackupChannel {
    /// Direct-message and group channels belong to people, not to a server.
    pub open spec fn direct(self) -> bool {
        self.channel_type@ == "dm"@ || self.channel_type@ == "group_dm"@
    }

    /// Whether the channel is a direct-message or group channel.
    pub fn is_direct(&self) -> (r: bool)
        ensures
            r == self.direct(),
    {
        same_text(self.channel_type.as_str(), "dm") || same_text(
            self.channel_type.as_str(),
            "group_dm",
        )
    }
}

/// A role of the backup.
pub struct BackupRole {
    pub id: String,
    pub name: String,
    pub color: Option<String>,
    pub permissions: i64,
    pub position: i32,
    pub is_default: bool,
}

/// What a permission overwrite is aimed at.
#[derive(Clone, Copy, PartialEq, Eq, Structural, Debug)]
pub enum OverwriteTarget {
    /// A role of the server.
    Role,
    /// A single member, known only to the platform the backup came from.
    Member,
}

/// A per-channel permission overwrite of the backup.
pub struct BackupOverwrite {
    pub channel_id: String,
    pub target_type: OverwriteTarget,
    pub target_id: String,
    pub allow: i64,
    pub deny: i64,
}

/// What the backup says of the server it was taken from.
pub struct BackupServer {
    pub name: String,
}

/// A structural backup submitted for restore.
pub struct RestoreServerRequest {
    pub server: BackupServer,
    pub categories: Vec<BackupCategory>,
    pub channels: Vec<BackupChannel>,
    pub roles: Vec<BackupRole>,
    pub permission_overwrites: Vec<BackupOverwrite>,
}

impl RestoreServerRequest {
    /// The backup stays within the structural caps.
    pub open spec fn within_limits(self) -> bool {
        &&& self.categories@.len() <= MAX_CATEGORIES
        &&& self.channels@.len() <= MAX_CHANNELS
        &&& self.roles@.len() <= MAX_ROLES
    }

    /// The words that a backup is refused with: they name the first cap that it
    /// breaks, the categories before the channels, the channels before the
    /// roles.
    pub open spec fn limit_message(self) -> Seq<char> {
        if self.categories@.len() > MAX_CATEGORIES {
            "Too many categories (max 50)"@
        } else if self.channels@.len() > MAX_CHANNELS {
            "Too many channels (max 500)"@
        } else {
            "Too many roles (max 250)"@
        }
    }

    /// Whether the backup stays within the structural caps.
    pub fn is_within_limits(&self) -> (r: bool)
        ensures
            r == self.within_limits(),
    {
        self.categories.len() <= MAX_CATEGORIES && self.channels.len() <= MAX_CHANNELS
            && self.roles.len() <= MAX_ROLES
    }
}

/// The platform category that a backup channel lands in: the one its category
/// reference was mapped to, if it has a reference and that reference resolves.
pub open spec fn category_of(channel: BackupChannel, categories: Map<Seq<char>, u128>) -> Option<
    u128,
> {
    match channel.category_id {
        Some(local) => if categories.contains_key(local@) {
            Some(categories[local@])
        } else {
            None
        },
        None => None,
    }
}

/// Whether an overwrite can be applied: it is aimed at a role, and both its
/// channel and its role were mapped to platform identifiers.
pub open spec fn applicable(
    overwrite: BackupOverwrite,
    channels: Map<Seq<char>, u128>,
    roles: Map<Seq<char>, u128>,
) -> bool {
    &&& overwrite.target_type == OverwriteTarget::Role
    &&& channels.contains_key(overwrite.channel_id@)
    &&& roles.contains_key(overwrite.target_id@)
}

/// Whether a role leads to a store operation: a custom role always does, the
/// default role only where the live server has a default role to update.
pub open spec fn actionable(role: BackupRole, has_default: bool) -> bool {
    !role.is_default || has_default
}

/// How many of the first `n` channels are restored.
pub open spec fn restorable_upto(channels: Seq<BackupChannel>, n: int) -> nat
    decreases n,
{
    if n <= 0 {
        0
    } else {
        restorable_upto(channels, n - 1) + if channels[n - 1].direct() {
            0nat
        } else {
            1nat
        }
    }
}

/// The backup-local identifiers of the restored channels among the first `n`.
pub open spec fn restorable_ids_upto(channels: Seq<BackupChannel>, n: int) -> Set<Seq<char>>
    decreases n,
{
    if n <= 0 {
        Set::empty()
    } else if channels[n - 1].direct() {
        restorable_ids_upto(channels, n - 1)
    } else {
        restorable_ids_upto(channels, n - 1).insert(channels[n - 1].id@)
    }
}

/// How many of the first `n` roles are custom roles.
pub open spec fn custom_upto(roles: Seq<BackupRole>, n: int) -> nat
    decreases n,
{
    if n <= 0 {
        0
    } else {
        custom_upto(roles, n - 1) + if roles[n - 1].is_default {
            0nat
        } else {
            1nat
        }
    }
}

/// How many of the first `n` roles are marked default.
pub open spec fn default_upto(roles: Seq<BackupRole>, n: int) -> nat
    decreases n,
{
    if n <= 0 {
        0
    } else {
        default_upto(roles, n - 1) + if roles[n - 1].is_default {
            1nat
        } else {
            0nat
        }
    }
}

/// How many of the first `n` overwrites can be applied under the given maps.
pub open spec fn applicable_upto(
    overwrites: Seq<BackupOverwrite>,
    n: int,
    channels: Map<Seq<char>, u128>,
    roles: Map<Seq<char>, u128>,
) -> nat
    decreases n,
{
    if n <= 0 {
        0
    } else {
        applicable_upto(overwrites, n - 1, channels, roles) + if applicable(
            overwrites[n - 1],
            channels,
            roles,
        ) {
            1nat
        } else {
            0nat
        }
    }
}

/// The first channel at or after `from` that is restored; the number of
/// channels if there is none.
pub open spec fn next_channel(channels: Seq<BackupChannel>, from: int) -> int
    decreases channels.len() - from,
{
    if from >= channels.len() {
        channels.len() as int
    } else if !channels[from].direct() {
        from
    } else {
        next_channel(channels, from + 1)
    }
}

/// The first role at or after `from` that leads to a store operation.
pub open spec fn next_role(roles: Seq<BackupRole>, from: int, has_default: bool) -> int
    decreases roles.len() - from,
{
    if from >= roles.len() {
        roles.len() as int
    } else if actionable(roles[from], has_default) {
        from
    } else {
        next_role(roles, from + 1, has_default)
    }
}

/// The first overwrite at or after `from` that can be applied.
pub open spec fn next_overwrite(
    overwrites: Seq<BackupOverwrite>,
    from: int,
    channels: Map<Seq<char>, u128>,
    roles: Map<Seq<char>, u128>,
) -> int
    decreases overwrites.len() - from,
{
    if from >= overwrites.len() {
        overwrites.len() as int
    } else if applicable(overwrites[from], channels, roles) {
        from
    } else {
        next_overwrite(overwrites, from + 1, channels, roles)
    }
}

/// Between `from` and the next restored channel every channel is skipped, so
/// the counts and the identifiers seen so far stay as they are.
pub proof fn lemma_next_channel(channels: Seq<BackupChannel>, from: int)
    requires
        0 <= from <= channels.len(),
    ensures
        from <= next_channel(channels, from) <= channels.len(),
        next_channel(channels, from) < channels.len() ==> !channels[next_channel(
            channels,
            from,
        )].direct(),
        forall|i: int| from <= i < next_channel(channels, from) ==> (#[trigger] channels[i]).direct(),
        restorable_upto(channels, next_channel(channels, from)) == restorable_upto(channels, from),
        restorable_ids_upto(channels, next_channel(channels, from)) == restorable_ids_upto(
            channels,
            from,
        ),
    decreases channels.len() - from,
{
    if from < channels.len() && channels[from].direct() {
        lemma_next_channel(channels, from + 1);
    }
}

/// Between `from` and the next role that leads to an operation only default
/// roles without a live counterpart are passed.
pub proof fn lemma_next_role(roles: Seq<BackupRole>, from: int, has_default: bool)
    requires
        0 <= from <= roles.len(),
    ensures
        from <= next_role(roles, from, has_default) <= roles.len(),
        next_role(roles, from, has_default) < roles.len() ==> actionable(
            roles[next_role(roles, from, has_default)],
            has_default,
        ),
        forall|i: int|
            from <= i < next_role(roles, from, has_default) ==> !actionable(
                #[trigger] roles[i],
                has_default,
            ),
        custom_upto(roles, next_role(roles, from, has_default)) == custom_upto(roles, from),
        has_default ==> default_upto(roles, next_role(roles, from, has_default)) == default_upto(
            roles,
            from,
        ),
    decreases roles.len() - from,
{
    if from < roles.len() && !actionable(roles[from], has_default) {
        lemma_next_role(roles, from + 1, has_default);
    }
}

/// Between `from` and the next applicable overwrite nothing is applied.
pub proof fn lemma_next_overwrite(
    overwrites: Seq<BackupOverwrite>,
    from: int,
    channels: Map<Seq<char>, u128>,
    roles: Map<Seq<char>, u128>,
)
    requires
        0 <= from <= overwrites.len(),
    ensures
        from <= next_overwrite(overwrites, from, channels, roles) <= overwrites.len(),
        next_overwrite(overwrites, from, channels, roles) < overwrites.len() ==> applicable(
            overwrites[next_overwrite(overwrites, from, channels, roles)],
            channels,
            roles,
        ),
        forall|i: int|
            from <= i < next_overwrite(overwrites, from, channels, roles) ==> !applicable(
                #[trigger] overwrites[i],
                channels,
                roles,
            ),
        applicable_upto(overwrites, next_overwrite(overwrites, from, channels, roles), channels, roles)
            == applicable_upto(overwrites, from, channels, roles),
    decreases overwrites.len() - from,
{
    if from < overwrites.len() && !applicable(overwrites[from], channels, roles) {
        lemma_next_overwrite(overwrites, from + 1, channels, roles);
    }
}

/// No count exceeds the number of records it was taken over.
pub proof fn lemma_counts_bounded(
    request: RestoreServerRequest,
    n: int,
    channels: Map<Seq<char>, u128>,
    roles: Map<Seq<char>, u128>,
)
    requires
        0 <= n,
    ensures
        restorable_upto(request.channels@, n) <= n,
        custom_upto(request.roles@, n) <= n,
        default_upto(request.roles@, n) <= n,
        custom_upto(request.roles@, n) + default_upto(request.roles@, n) == n,
        applicable_upto(request.permission_overwrites@, n, channels, roles) <= n,
        restorable_ids_upto(request.channels@, n).finite(),
        restorable_ids_upto(request.channels@, n).len() <= restorable_upto(request.channels@, n),
    decreases n,
{
    if n > 0 {
        lemma_counts_bounded(request, n - 1, channels, roles);
    }
}

} // verus!
