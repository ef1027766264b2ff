use haven_api::backup::{
    BackupCategory, BackupChannel, BackupOverwrite, BackupRole, BackupServer, OverwriteTarget,
    RestoreServerRequest,
};
use haven_api::errors::{AppError, ErrorKind};
use haven_api::restore::{
    is_in_transaction, next_wipe, restore_server, restore_step, Phase, RestoreOp, RestoreReply,
    RestoreServerResponse, RestoreSession, RestoreStep, WipeStep,
};

const USER: u128 = 0x1111;
const SERVER: u128 = 0x2222;
const EVERYONE: u128 = 0x3333;

struct RestoreWorld {
    member: bool,
    is_owner: bool,
    manage_server: bool,
    default_role: Option<u128>,
    fail_at: Option<usize>,
}

struct RestoreTrace {
    ops: Vec<RestoreOp>,
    result: Result<RestoreServerResponse, AppError>,
}

fn owner_world() -> RestoreWorld {
    RestoreWorld {
        member: true,
        is_owner: true,
        manage_server: false,
        default_role: Some(EVERYONE),
        fail_at: None,
    }
}

fn drive_restore(world: &RestoreWorld, request: RestoreServerRequest) -> RestoreTrace {
    let mut session = RestoreSession::new(USER, SERVER, request);
    let mut reply = RestoreReply::Ready;
    let mut ops: Vec<RestoreOp> = Vec::new();
    let mut minted: u128 = 0x9000;
    loop {
        let (next, step) = restore_server(session, reply);
        session = next;
        match step {
            RestoreStep::Perform(op) => {
                let failing = world.fail_at == Some(ops.len());
                reply = if failing {
                    RestoreReply::Failed
                } else {
                    match &op {
                        RestoreOp::CheckMembership { .. } => RestoreReply::Membership(world.member),
                        RestoreOp::LoadPermissions { .. } => RestoreReply::Permissions {
                            is_owner: world.is_owner,
                            manage_server: world.manage_server,
                        },
                        RestoreOp::InsertCategory { .. } | RestoreOp::InsertRole { .. } => {
                            minted += 1;
                            RestoreReply::Created(minted)
                        }
                        RestoreOp::FindDefaultRole { .. } => {
                            RestoreReply::DefaultRole(world.default_role)
                        }
                        _ => RestoreReply::Done,
                    }
                };
                ops.push(op);
            }
            RestoreStep::Finish(result) => {
                assert_eq!(session.phase(), Phase::Closed);
                return RestoreTrace { ops, result };
            }
        }
        assert!(ops.len() < 100_000);
    }
}

fn category(id: &str, name: &str, position: i32) -> BackupCategory {
    BackupCategory { id: id.to_string(), name: name.to_string(), position }
}

fn channel(id: &str, kind: &str, category_id: Option<&str>) -> BackupChannel {
    BackupChannel {
        id: id.to_string(),
        name: format!("name-{}", id),
        channel_type: kind.to_string(),
        position: 7,
        category_id: category_id.map(|c| c.to_string()),
        is_private: false,
    }
}

fn role(id: &str, is_default: bool, permissions: i64) -> BackupRole {
    BackupRole {
        id: id.to_string(),
        name: format!("role-{}", id),
        color: if is_default { None } else { Some("#ff0000".to_string()) },
        permissions,
        position: 3,
        is_default,
    }
}

fn overwrite(channel_id: &str, target: OverwriteTarget, target_id: &str) -> BackupOverwrite {
    BackupOverwrite {
        channel_id: channel_id.to_string(),
        target_type: target,
        target_id: target_id.to_string(),
        allow: 5,
        deny: 9,
    }
}

fn request_of(
    categories: Vec<BackupCategory>,
    channels: Vec<BackupChannel>,
    roles: Vec<BackupRole>,
    permission_overwrites: Vec<BackupOverwrite>,
) -> RestoreServerRequest {
    RestoreServerRequest {
        server: BackupServer { name: "Old Home".to_string() },
        categories,
        channels,
        roles,
        permission_overwrites,
    }
}

fn scenario_request() -> RestoreServerRequest {
    request_of(
        vec![category("cat-a", "General", 0), category("cat-b", "Voice", 1)],
        vec![
            channel("ch-1", "text", Some("cat-a")),
            channel("ch-2", "voice", Some("cat-b")),
            channel("ch-dm", "dm", None),
            channel("ch-3", "announcement", None),
            channel("ch-4", "text", Some("cat-gone")),
        ],
        vec![role("r-everyone", true, 1024), role("r-mod", false, 7), role("r-vip", false, 3)],
        vec![
            overwrite("ch-1", OverwriteTarget::Role, "r-mod"),
            overwrite("ch-2", OverwriteTarget::Member, "user-from-elsewhere"),
            overwrite("ch-3", OverwriteTarget::Role, "r-everyone"),
            overwrite("ch-4", OverwriteTarget::Role, "r-vip"),
        ],
    )
}

fn count_ops(ops: &[RestoreOp], wanted: fn(&RestoreOp) -> bool) -> usize {
    ops.iter().filter(|op| wanted(op)).count()
}

fn restore_is_commit(op: &RestoreOp) -> bool {
    matches!(op, RestoreOp::Commit)
}

fn restore_is_rollback(op: &RestoreOp) -> bool {
    matches!(op, RestoreOp::Rollback)
}

fn kind_of_failure(trace: &RestoreTrace) -> ErrorKind {
    match &trace.result {
        Ok(_) => panic!("the restore was expected to fail"),
        Err(e) => e.kind(),
    }
}

#[test]
fn restore_end_to_end_counts() {
    let trace = drive_restore(&owner_world(), scenario_request());
    let response = trace.result.unwrap_or_else(|e| panic!("restore failed: {}", e.message()));
    assert_eq!(response.categories_created, 2);
    assert_eq!(response.channels_created, 4);
    assert_eq!(response.roles_created, 2);
    assert_eq!(response.roles_updated, 1);
    assert_eq!(response.overwrites_applied, 3);
    assert_eq!(response.channel_id_map.len(), 4);
    let pairs = response.channel_id_map.pairs();
    let keys: Vec<&str> = pairs.iter().map(|p| p.0.as_str()).collect();
    assert_eq!(keys, vec!["ch-1", "ch-2", "ch-3", "ch-4"]);
    assert!(!response.channel_id_map.contains(&"ch-dm".to_string()));
}

#[test]
fn restore_names_operations_in_order() {
    let trace = drive_restore(&owner_world(), scenario_request());
    let shape: Vec<&str> = trace
        .ops
        .iter()
        .map(|op| match op {
            RestoreOp::CheckMembership { .. } => "member",
            RestoreOp::LoadPermissions { .. } => "perms",
            RestoreOp::Begin => "begin",
            RestoreOp::LockServer { .. } => "lock",
            RestoreOp::Wipe { .. } => "wipe",
            RestoreOp::InsertCategory { .. } => "category",
            RestoreOp::InsertChannel { .. } => "channel",
            RestoreOp::AddChannelMember { .. } => "join",
            RestoreOp::FindDefaultRole { .. } => "find-default",
            RestoreOp::UpdateRolePermissions { .. } => "update-role",
            RestoreOp::InsertRole { .. } => "role",
            RestoreOp::UpsertOverwrite { .. } => "overwrite",
            RestoreOp::Commit => "commit",
            RestoreOp::Rollback => "rollback",
            RestoreOp::WriteAudit { .. } => "audit",
            RestoreOp::Publish { .. } => "publish",
        })
        .collect();
    assert_eq!(
        shape,
        vec![
            "member", "perms", "begin", "lock", "wipe", "wipe", "wipe", "wipe", "wipe", "wipe",
            "wipe", "category", "category", "channel", "join", "channel", "join", "channel", "join",
            "channel", "join", "find-default", "update-role", "role", "role", "overwrite",
            "overwrite", "overwrite", "commit", "audit", "publish",
        ]
    );
}

#[test]
fn restore_wipes_in_dependency_order() {
    let trace = drive_restore(&owner_world(), scenario_request());
    let wiped: Vec<WipeStep> = trace
        .ops
        .iter()
        .filter_map(|op| match op {
            RestoreOp::Wipe { step, server_id } => {
                assert_eq!(*server_id, SERVER);
                Some(*step)
            }
            _ => None,
        })
        .collect();
    assert_eq!(
        wiped,
        vec![
            WipeStep::Attachments,
            WipeStep::Reactions,
            WipeStep::Reports,
            WipeStep::SystemChannel,
            WipeStep::Channels,
            WipeStep::Categories,
            WipeStep::CustomRoles,
        ]
    );
    assert_eq!(next_wipe(WipeStep::Channels), Some(WipeStep::Categories));
    assert_eq!(next_wipe(WipeStep::CustomRoles), None);
}

#[test]
fn restore_maps_categories_to_minted_identifiers() {
    let trace = drive_restore(&owner_world(), scenario_request());
    let placed: Vec<(String, Option<u128>)> = trace
        .ops
        .iter()
        .filter_map(|op| match op {
            RestoreOp::InsertChannel { name, category_id, server_id, .. } => {
                assert_eq!(*server_id, SERVER);
                Some((name.clone(), *category_id))
            }
            _ => None,
        })
        .collect();
    assert_eq!(
        placed,
        vec![
            ("name-ch-1".to_string(), Some(0x9001)),
            ("name-ch-2".to_string(), Some(0x9002)),
            ("name-ch-3".to_string(), None),
            ("name-ch-4".to_string(), None),
        ]
    );
}

#[test]
fn restore_keeps_channel_with_unknown_category() {
    let request = request_of(
        vec![category("cat-a", "General", 0)],
        vec![channel("ch-lost", "text", Some("no-such-category"))],
        vec![],
        vec![],
    );
    let trace = drive_restore(&owner_world(), request);
    let response = trace.result.unwrap_or_else(|e| panic!("restore failed: {}", e.message()));
    assert_eq!(response.channels_created, 1);
    assert!(response.channel_id_map.contains(&"ch-lost".to_string()));
    let inserted: Vec<&RestoreOp> =
        trace.ops.iter().filter(|op| matches!(op, RestoreOp::InsertChannel { .. })).collect();
    assert_eq!(inserted.len(), 1);
    match inserted[0] {
        RestoreOp::InsertChannel {
            category_id, channel_type, position, is_private, encrypted, ..
        } => {
            assert!(!*encrypted);
            assert_eq!(*category_id, None);
            assert_eq!(channel_type, "text");
            assert_eq!(*position, 7);
            assert!(!*is_private);
        }
        _ => unreachable!(),
    }
}

#[test]
fn restore_filters_direct_channels() {
    let request = request_of(
        vec![],
        vec![
            channel("d-1", "dm", None),
            channel("g-1", "group_dm", None),
            channel("t-1", "text", None),
            channel("d-2", "dm", None),
        ],
        vec![],
        vec![overwrite("d-1", OverwriteTarget::Role, "r-x")],
    );
    let trace = drive_restore(&owner_world(), request);
    let response = trace.result.unwrap_or_else(|e| panic!("restore failed: {}", e.message()));
    assert_eq!(response.channels_created, 1);
    assert_eq!(response.channel_id_map.len(), 1);
    assert!(response.channel_id_map.contains(&"t-1".to_string()));
    assert_eq!(response.overwrites_applied, 0);
    assert_eq!(count_ops(&trace.ops, |op| matches!(op, RestoreOp::InsertChannel { .. })), 1);
}

#[test]
fn restore_joins_caller_to_every_channel() {
    let trace = drive_restore(&owner_world(), scenario_request());
    let mut created: Vec<u128> = Vec::new();
    let mut joined: Vec<u128> = Vec::new();
    let mut rows: Vec<u128> = Vec::new();
    for op in &trace.ops {
        match op {
            RestoreOp::InsertChannel { id, .. } => created.push(*id),
            RestoreOp::AddChannelMember { id, channel_id, user_id } => {
                assert_eq!(*user_id, USER);
                joined.push(*channel_id);
                rows.push(*id);
            }
            _ => {}
        }
    }
    assert_eq!(created.len(), 4);
    assert_eq!(created, joined);
    for id in created.iter().chain(rows.iter()) {
        assert_eq!((id >> 76) & 0xf, 4, "a minted identifier is a version-4 UUID");
        assert_eq!((id >> 62) & 0x3, 2, "a minted identifier has the RFC variant");
    }
    let mut all: Vec<u128> = created.iter().chain(rows.iter()).copied().collect();
    all.sort();
    all.dedup();
    assert_eq!(all.len(), 8);
    let response = trace.result.unwrap_or_else(|e| panic!("restore failed: {}", e.message()));
    let mapped: Vec<u128> = response.channel_id_map.pairs().iter().map(|p| p.1).collect();
    assert_eq!(mapped, created);
}

#[test]
fn restore_updates_default_role_in_place() {
    let trace = drive_restore(&owner_world(), scenario_request());
    let updates: Vec<(u128, i64)> = trace
        .ops
        .iter()
        .filter_map(|op| match op {
            RestoreOp::UpdateRolePermissions { role_id, permissions } => {
                Some((*role_id, *permissions))
            }
            _ => None,
        })
        .collect();
    assert_eq!(updates, vec![(EVERYONE, 1024)]);
    let created: Vec<String> = trace
        .ops
        .iter()
        .filter_map(|op| match op {
            RestoreOp::InsertRole { name, .. } => Some(name.clone()),
            _ => None,
        })
        .collect();
    assert_eq!(created, vec!["role-r-mod".to_string(), "role-r-vip".to_string()]);
    let removals = count_ops(&trace.ops, |op| {
        matches!(op, RestoreOp::Wipe { step: WipeStep::CustomRoles, .. })
    });
    assert_eq!(removals, 1);
    let response = trace.result.unwrap_or_else(|e| panic!("restore failed: {}", e.message()));
    assert_eq!(response.roles_created, 2);
    assert_eq!(response.roles_updated, 1);
}

#[test]
fn restore_passes_over_default_role_without_live_counterpart() {
    let mut world = owner_world();
    world.default_role = None;
    let trace = drive_restore(&world, scenario_request());
    assert_eq!(count_ops(&trace.ops, |op| matches!(op, RestoreOp::UpdateRolePermissions { .. })), 0);
    let response = trace.result.unwrap_or_else(|e| panic!("restore failed: {}", e.message()));
    assert_eq!(response.roles_updated, 0);
    assert_eq!(response.roles_created, 2);
    assert_eq!(response.overwrites_applied, 2);
}

#[test]
fn restore_never_applies_member_overwrites() {
    let request = request_of(
        vec![],
        vec![channel("ch-1", "text", None)],
        vec![role("r-1", false, 1)],
        vec![
            overwrite("ch-1", OverwriteTarget::Member, "r-1"),
            overwrite("ch-1", OverwriteTarget::Member, "someone"),
        ],
    );
    let trace = drive_restore(&owner_world(), request);
    assert_eq!(count_ops(&trace.ops, |op| matches!(op, RestoreOp::UpsertOverwrite { .. })), 0);
    let response = trace.result.unwrap_or_else(|e| panic!("restore failed: {}", e.message()));
    assert_eq!(response.overwrites_applied, 0);
}

#[test]
fn restore_skips_overwrites_that_do_not_resolve() {
    let request = request_of(
        vec![],
        vec![channel("ch-1", "text", None)],
        vec![role("r-1", false, 1)],
        vec![
            overwrite("ch-none", OverwriteTarget::Role, "r-1"),
            overwrite("ch-1", OverwriteTarget::Role, "r-none"),
            overwrite("ch-1", OverwriteTarget::Role, "r-1"),
        ],
    );
    let trace = drive_restore(&owner_world(), request);
    let applied: Vec<(u128, u128, i64, i64)> = trace
        .ops
        .iter()
        .filter_map(|op| match op {
            RestoreOp::UpsertOverwrite { channel_id, role_id, allow, deny } => {
                Some((*channel_id, *role_id, *allow, *deny))
            }
            _ => None,
        })
        .collect();
    let response = trace.result.unwrap_or_else(|e| panic!("restore failed: {}", e.message()));
    let channel_id = response.channel_id_map.get(&"ch-1".to_string()).unwrap();
    assert_eq!(applied, vec![(channel_id, 0x9001, 5, 9)]);
    assert_eq!(response.overwrites_applied, 1);
}

#[test]
fn restore_is_atomic_under_failure_at_any_step() {
    let clean = drive_restore(&owner_world(), scenario_request());
    let commit_at = clean.ops.iter().position(restore_is_commit).unwrap();
    let begin_at = clean.ops.iter().position(|op| matches!(op, RestoreOp::Begin)).unwrap();
    assert_eq!(begin_at, 2);
    for failing in (begin_at + 1)..commit_at {
        let mut world = owner_world();
        world.fail_at = Some(failing);
        let trace = drive_restore(&world, scenario_request());
        assert_eq!(kind_of_failure(&trace), ErrorKind::Internal, "failure at step {}", failing);
        assert_eq!(count_ops(&trace.ops, restore_is_commit), 0, "failure at step {}", failing);
        assert_eq!(trace.ops.len(), failing + 2, "failure at step {}", failing);
        assert!(restore_is_rollback(trace.ops.last().unwrap()), "failure at step {}", failing);
        assert_eq!(count_ops(&trace.ops, |op| matches!(op, RestoreOp::WriteAudit { .. })), 0);
        assert_eq!(count_ops(&trace.ops, |op| matches!(op, RestoreOp::Publish { .. })), 0);
    }
}

#[test]
fn restore_fails_without_rollback_outside_the_unit_of_work() {
    for failing in [0usize, 1, 2] {
        let mut world = owner_world();
        world.fail_at = Some(failing);
        let trace = drive_restore(&world, scenario_request());
        assert_eq!(kind_of_failure(&trace), ErrorKind::Internal);
        assert_eq!(trace.ops.len(), failing + 1);
        assert_eq!(count_ops(&trace.ops, restore_is_rollback), 0);
    }
    let clean = drive_restore(&owner_world(), scenario_request());
    let commit_at = clean.ops.iter().position(restore_is_commit).unwrap();
    let mut world = owner_world();
    world.fail_at = Some(commit_at);
    let trace = drive_restore(&world, scenario_request());
    assert_eq!(kind_of_failure(&trace), ErrorKind::Internal);
    assert_eq!(trace.ops.len(), commit_at + 1);
}

#[test]
fn restore_survives_failing_sinks() {
    let clean = drive_restore(&owner_world(), scenario_request());
    let audit_at =
        clean.ops.iter().position(|op| matches!(op, RestoreOp::WriteAudit { .. })).unwrap();
    for failing in [audit_at, audit_at + 1] {
        let mut world = owner_world();
        world.fail_at = Some(failing);
        let trace = drive_restore(&world, scenario_request());
        let response = trace.result.unwrap_or_else(|e| panic!("restore failed: {}", e.message()));
        assert_eq!(response.channels_created, 4);
        assert_eq!(trace.ops.len(), clean.ops.len());
    }
    match &clean.ops[audit_at] {
        RestoreOp::WriteAudit {
            server_id,
            actor_id,
            source_server_name,
            categories_created,
            channels_created,
            roles_created,
        } => {
            assert_eq!(*server_id, SERVER);
            assert_eq!(*actor_id, USER);
            assert_eq!(source_server_name, "Old Home");
            assert_eq!((*categories_created, *channels_created, *roles_created), (2, 4, 2));
        }
        _ => unreachable!(),
    }
    assert!(matches!(clean.ops[audit_at + 1], RestoreOp::Publish { server_id: SERVER }));
}

#[test]
fn restore_refuses_strangers() {
    let mut world = owner_world();
    world.member = false;
    let trace = drive_restore(&world, scenario_request());
    assert_eq!(kind_of_failure(&trace), ErrorKind::Forbidden);
    assert_eq!(trace.ops.len(), 1);
    assert!(matches!(
        trace.ops[0],
        RestoreOp::CheckMembership { server_id: SERVER, user_id: USER }
    ));
}

#[test]
fn restore_refuses_members_without_authority() {
    let mut world = owner_world();
    world.is_owner = false;
    world.manage_server = false;
    let trace = drive_restore(&world, scenario_request());
    assert_eq!(kind_of_failure(&trace), ErrorKind::Forbidden);
    assert_eq!(trace.ops.len(), 2);
    assert_eq!(count_ops(&trace.ops, |op| matches!(op, RestoreOp::Begin)), 0);

    world.manage_server = true;
    let trace = drive_restore(&world, scenario_request());
    assert!(trace.result.is_ok());
}

#[test]
fn restore_checks_authority_before_size() {
    let mut world = owner_world();
    world.is_owner = false;
    let categories = (0..51).map(|i| category(&format!("c{}", i), "x", i)).collect();
    let trace = drive_restore(&world, request_of(categories, vec![], vec![], vec![]));
    assert_eq!(kind_of_failure(&trace), ErrorKind::Forbidden);
}

#[test]
fn restore_enforces_category_cap() {
    let at_cap = (0..50).map(|i| category(&format!("c{}", i), "x", i)).collect();
    let trace = drive_restore(&owner_world(), request_of(at_cap, vec![], vec![], vec![]));
    let response = trace.result.unwrap_or_else(|e| panic!("restore failed: {}", e.message()));
    assert_eq!(response.categories_created, 50);

    let over = (0..51).map(|i| category(&format!("c{}", i), "x", i)).collect();
    let trace = drive_restore(&owner_world(), request_of(over, vec![], vec![], vec![]));
    assert_eq!(kind_of_failure(&trace), ErrorKind::Validation);
    assert_eq!(trace.ops.len(), 2);
    match trace.result {
        Err(e) => assert_eq!(e.message(), "Too many categories (max 50)"),
        Ok(_) => unreachable!(),
    }
}

#[test]
fn restore_enforces_channel_cap() {
    let at_cap = (0..500).map(|i| channel(&format!("ch{}", i), "text", None)).collect();
    let trace = drive_restore(&owner_world(), request_of(vec![], at_cap, vec![], vec![]));
    let response = trace.result.unwrap_or_else(|e| panic!("restore failed: {}", e.message()));
    assert_eq!(response.channels_created, 500);
    assert_eq!(response.channel_id_map.len(), 500);

    let over = (0..501).map(|i| channel(&format!("ch{}", i), "dm", None)).collect();
    let trace = drive_restore(&owner_world(), request_of(vec![], over, vec![], vec![]));
    assert_eq!(kind_of_failure(&trace), ErrorKind::Validation);
    assert_eq!(count_ops(&trace.ops, |op| matches!(op, RestoreOp::Begin)), 0);
}

#[test]
fn restore_enforces_role_cap() {
    let at_cap = (0..250).map(|i| role(&format!("r{}", i), false, i)).collect();
    let trace = drive_restore(&owner_world(), request_of(vec![], vec![], at_cap, vec![]));
    let response = trace.result.unwrap_or_else(|e| panic!("restore failed: {}", e.message()));
    assert_eq!(response.roles_created, 250);

    let over = (0..251).map(|i| role(&format!("r{}", i), false, i)).collect();
    let trace = drive_restore(&owner_world(), request_of(vec![], vec![], over, vec![]));
    assert_eq!(kind_of_failure(&trace), ErrorKind::Validation);
    assert_eq!(count_ops(&trace.ops, |op| matches!(op, RestoreOp::Begin)), 0);
}

#[test]
fn restore_locks_the_server_before_it_wipes() {
    let trace = drive_restore(&owner_world(), scenario_request());
    let lock_at = trace
        .ops
        .iter()
        .position(|op| matches!(op, RestoreOp::LockServer { server_id: SERVER }))
        .expect("the server is locked");
    let begin_at = trace.ops.iter().position(|op| matches!(op, RestoreOp::Begin)).unwrap();
    let first_wipe = trace.ops.iter().position(|op| matches!(op, RestoreOp::Wipe { .. })).unwrap();
    assert_eq!(lock_at, begin_at + 1);
    assert_eq!(first_wipe, lock_at + 1);
    assert_eq!(count_ops(&trace.ops, |op| matches!(op, RestoreOp::LockServer { .. })), 1);
}

#[test]
fn restore_of_empty_backup_only_wipes() {
    let trace = drive_restore(&owner_world(), request_of(vec![], vec![], vec![], vec![]));
    let response = trace.result.unwrap_or_else(|e| panic!("restore failed: {}", e.message()));
    assert_eq!(response.categories_created, 0);
    assert_eq!(response.channels_created, 0);
    assert_eq!(response.roles_created, 0);
    assert_eq!(response.roles_updated, 0);
    assert_eq!(response.overwrites_applied, 0);
    assert!(response.channel_id_map.is_empty());
    assert_eq!(count_ops(&trace.ops, |op| matches!(op, RestoreOp::Wipe { .. })), 7);
    assert_eq!(count_ops(&trace.ops, restore_is_commit), 1);
}

#[test]
fn restore_step_uses_the_identifier_it_is_given() {
    let request = request_of(vec![], vec![channel("ch-1", "text", None)], vec![], vec![]);
    let mut session = RestoreSession::new(USER, SERVER, request);
    let mut reply = RestoreReply::Ready;
    let mut fresh: u128 = 100;
    let mut seen: Vec<(u128, &'static str)> = Vec::new();
    loop {
        fresh += 1;
        let (next, step) = restore_step(session, reply, fresh);
        session = next;
        match step {
            RestoreStep::Perform(op) => {
                reply = match op {
                    RestoreOp::CheckMembership { .. } => RestoreReply::Membership(true),
                    RestoreOp::LoadPermissions { .. } => {
                        RestoreReply::Permissions { is_owner: false, manage_server: true }
                    }
                    RestoreOp::InsertChannel { id, .. } => {
                        seen.push((id, "channel"));
                        RestoreReply::Done
                    }
                    RestoreOp::AddChannelMember { id, channel_id, .. } => {
                        seen.push((id, "row"));
                        seen.push((channel_id, "joined"));
                        RestoreReply::Done
                    }
                    RestoreOp::FindDefaultRole { .. } => RestoreReply::DefaultRole(None),
                    _ => RestoreReply::Done,
                };
            }
            RestoreStep::Finish(result) => {
                let response = result.unwrap_or_else(|e| panic!("{}", e.message()));
                assert_eq!(response.channel_id_map.get(&"ch-1".to_string()), Some(112));
                break;
            }
        }
    }
    assert_eq!(seen, vec![(112, "channel"), (113, "row"), (112, "joined")]);
}

#[test]
fn restore_treats_unexpected_answers_as_failures() {
    let session = RestoreSession::new(USER, SERVER, scenario_request());
    let (session, step) = restore_step(session, RestoreReply::Done, 1);
    assert!(matches!(step, RestoreStep::Finish(Err(AppError::Internal(_)))));
    assert_eq!(session.phase(), Phase::Closed);
    let (session, step) = restore_step(session, RestoreReply::Ready, 1);
    assert!(matches!(step, RestoreStep::Finish(Err(AppError::Internal(_)))));
    assert_eq!(session.phase(), Phase::Closed);

    let session = RestoreSession::new(USER, SERVER, scenario_request());
    let (session, _) = restore_step(session, RestoreReply::Ready, 1);
    let (session, _) = restore_step(session, RestoreReply::Membership(true), 1);
    let (session, _) =
        restore_step(session, RestoreReply::Permissions { is_owner: true, manage_server: true }, 1);
    let (session, step) = restore_step(session, RestoreReply::Done, 1);
    assert!(matches!(step, RestoreStep::Perform(RestoreOp::LockServer { server_id: SERVER })));
    let (session, step) = restore_step(session, RestoreReply::Done, 1);
    assert!(matches!(
        step,
        RestoreStep::Perform(RestoreOp::Wipe { step: WipeStep::Attachments, .. })
    ));
    let (session, step) = restore_step(session, RestoreReply::Created(5), 1);
    assert!(matches!(step, RestoreStep::Perform(RestoreOp::Rollback)));
    assert_eq!(session.phase(), Phase::Rollback);
}

#[test]
fn restore_phases_inside_the_unit_of_work() {
    assert!(is_in_transaction(Phase::Lock));
    assert!(is_in_transaction(Phase::Wipe(WipeStep::Reports)));
    assert!(is_in_transaction(Phase::Category));
    assert!(is_in_transaction(Phase::Overwrite));
    assert!(!is_in_transaction(Phase::Begin));
    assert!(!is_in_transaction(Phase::Commit));
    assert!(!is_in_transaction(Phase::Audit));
    assert!(!is_in_transaction(Phase::Closed));
}

#[test]
fn restore_last_mapping_of_a_repeated_local_id_wins() {
    let request = request_of(
        vec![category("dup", "first", 0), category("dup", "second", 1)],
        vec![channel("ch-1", "text", Some("dup"))],
        vec![],
        vec![],
    );
    let trace = drive_restore(&owner_world(), request);
    let placed: Vec<Option<u128>> = trace
        .ops
        .iter()
        .filter_map(|op| match op {
            RestoreOp::InsertChannel { category_id, .. } => Some(*category_id),
            _ => None,
        })
        .collect();
    assert_eq!(placed, vec![Some(0x9002)]);
    let response = trace.result.unwrap_or_else(|e| panic!("restore failed: {}", e.message()));
    assert_eq!(response.categories_created, 2);
}
