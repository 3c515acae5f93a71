//! Grants of local authority: who a token identifies, for how long, and which of them coordinates.
use muqun_work::work::model::DelegationFence;
use muqun_work::work::model::FailureCode;
use muqun_work::work_authority::join;
use muqun_work::work_authority::hex_text;
use muqun_work::work_authority::token_from;
use muqun_work::work_authority::Registry;
use muqun_work::work_authority::Scope;
use muqun_work::work_authority::MAX_GRANTS;
use muqun_work::work_authority::MAX_LIFETIME_MS;

fn scope(task: &str, attempt: &str) -> Scope {
    Scope { session_id: "s".into(), task_id: task.into(), attempt_id: attempt.into() }
}

const FIRST: &str = "d4d30000-0000-4000-8000-000000000001";
const SECOND: &str = "d4d30000-0000-4000-8000-000000000002";

#[test]
fn delegation_activation_is_private_epoch_bound_and_preserves_reporting() {
    let mut registry = Registry::new();
    let root = scope("root", FIRST);
    let worker = scope("child", SECOND);
    let root_token = registry
        .issue("/grants", "/grants/socket", root.clone(), 1)
        .issued
        .unwrap()
        .context
        .token;
    let worker_token = registry
        .issue("/grants", "/grants/socket", worker.clone(), 1)
        .issued
        .unwrap()
        .context
        .token;
    assert!(registry.authorize_delegation(&root_token, 2).is_err());
    let mut fence = DelegationFence {
        coordinator_task_id: root.task_id.clone(),
        coordinator_attempt_id: root.attempt_id.clone(),
        coordinator_epoch: 1,
        instance_id: "launch".into(),
        native_owner_epoch: "owner".into(),
    };
    let permit = registry.prepare_activation(&root, 2).unwrap();
    registry.apply_activation(permit, fence.clone());
    let authority = registry.authorize_delegation(&root_token, 3).unwrap();
    assert_eq!(authority.scope, root);
    assert_eq!(authority.fence, fence);
    assert_eq!(authority.actor_id, format!("delegation:{}:1", root.attempt_id));
    assert!(registry.authorize_delegation(&worker_token, 3).is_err());
    let stale = registry.prepare_activation(&root, 3).unwrap();
    let fresh = registry.prepare_activation(&root, 3).unwrap();
    fence.coordinator_epoch = 2;
    registry.apply_activation(fresh, fence.clone());
    let mut older = fence.clone();
    older.coordinator_epoch = 1;
    registry.apply_activation(stale, older.clone());
    assert!(!registry.invalidate_delegation(&root, &older));
    assert_eq!(
        registry.authorize_delegation(&root_token, 4).unwrap().fence.coordinator_epoch,
        2
    );
    assert!(registry.invalidate_delegation(&root, &fence));
    assert!(!registry.invalidate_delegation(&root, &fence));
    assert!(registry.authorize_delegation(&root_token, 4).is_err());
    assert!(registry.authorize(&root_token, &root, 4).is_ok());
    assert!(registry.authorize(&worker_token, &worker, 4).is_ok());
    let permit = registry.prepare_activation(&root, 4).unwrap();
    registry.revoke(&root);
    registry.apply_activation(permit, fence);
    assert!(registry.authorize_delegation(&root_token, 5).is_err());
    assert!(registry.authorize(&worker_token, &worker, 5).is_ok());
    assert!(registry.prepare_activation(&worker, MAX_LIFETIME_MS + 1).is_err());
}

#[test]
fn scope_expiry_revoke_and_restart_are_enforced() {
    let mut registry = Registry::new();
    let scope = scope("t", FIRST);
    let issued = registry.issue("/grants", "/grants/socket", scope.clone(), 1).issued.unwrap();
    let token = issued.context.token;
    assert!(registry.authorize(&token, &scope, 2).is_ok());
    let mut other = scope.clone();
    other.attempt_id = "other".into();
    assert!(registry.authorize(&token, &other, 2).is_err());
    assert!(registry.authorize(&token, &scope, MAX_LIFETIME_MS + 1).is_err());
    assert!(Registry::new().identify(&token, 2).is_err());
    let (revoked, files) = registry.revoke(&scope);
    assert!(revoked);
    assert_eq!(files, vec![issued.path]);
    assert!(registry.identify(&token, 2).is_err());
}

#[test]
fn a_grant_says_where_it_is_kept_and_how_long_it_lasts() {
    let mut registry = Registry::new();
    let token = "ab".repeat(32);
    let issuance =
        registry.issue_as(FIRST, &token, "/grants", "/grants/socket", scope("t", SECOND), 7);
    assert!(issuance.stale.is_empty());
    let issued = issuance.issued.unwrap();
    assert_eq!(issued.path, format!("/grants/{SECOND}.json"));
    assert_eq!(issued.context.socket, "/grants/socket");
    assert_eq!(issued.context.token, token);
    assert_eq!(issued.context.scope, scope("t", SECOND));
    assert_eq!(issued.context.expires_at_ms, 7 + MAX_LIFETIME_MS);
    assert_eq!(registry.identify(&token, 8).unwrap(), scope("t", SECOND));
    for other in ["ba".repeat(32), "ab".repeat(31), String::new()] {
        assert_eq!(registry.identify(&other, 8).unwrap_err().0, FailureCode::ScopeMismatch);
    }
}

#[test]
fn a_scope_has_one_grant_until_it_runs_out() {
    let mut registry = Registry::new();
    let (one, two) = ("1".repeat(64), "2".repeat(64));
    let first = registry
        .issue_as(FIRST, &one, "/grants", "/grants/socket", scope("t", FIRST), 1)
        .issued
        .unwrap();
    let again = registry.issue_as(SECOND, &two, "/grants", "/grants/socket", scope("t", FIRST), 2);
    assert!(again.stale.is_empty());
    assert_eq!(again.issued.unwrap_err().0, FailureCode::RevisionConflict);
    let late = 1 + MAX_LIFETIME_MS;
    let renewed =
        registry.issue_as(SECOND, &two, "/grants", "/grants/socket", scope("t", FIRST), late);
    assert_eq!(renewed.stale, vec![first.path]);
    assert!(renewed.issued.is_ok());
    assert!(registry.identify(&one, 3).is_err());
    assert!(registry.identify(&two, late).is_ok());
    let gone = registry.expire(late + MAX_LIFETIME_MS);
    assert_eq!(gone, vec![format!("/grants/{FIRST}.json")]);
    assert!(registry.identify(&two, late).is_err());
    let odd = registry.issue("/grants", "/grants/socket", scope("t", "no-uuid"), 1).issued;
    assert_eq!(odd.unwrap_err().0, FailureCode::InvalidInput);
}

#[test]
fn no_more_grants_are_issued_than_are_kept() {
    let mut registry = Registry::new();
    let attempt = |n: usize| format!("d4d30000-0000-4000-8000-{n:012}");
    for n in 0..MAX_GRANTS {
        assert!(registry
            .issue("/grants", "/grants/socket", scope("t", &attempt(n)), 1)
            .issued
            .is_ok());
    }
    let late = scope("t", &attempt(MAX_GRANTS));
    let refused = registry.issue("/grants", "/grants/socket", late.clone(), 2).issued;
    assert_eq!(refused.unwrap_err().0, FailureCode::ResourceLimit);
    assert!(registry.revoke(&scope("t", &attempt(0))).0);
    assert!(!registry.revoke(&scope("t", &attempt(0))).0);
    assert!(registry.issue("/grants", "/grants/socket", late, 3).issued.is_ok());
}

#[test]
fn tokens_are_drawn_anew_and_take_no_byte_that_is_not_random() {
    let mut registry = Registry::new();
    let one =
        registry.issue("/g", "/g/socket", scope("t", FIRST), 1).issued.unwrap().context.token;
    let two =
        registry.issue("/g", "/g/socket", scope("t", SECOND), 1).issued.unwrap().context.token;
    assert_ne!(one, two);
    assert_eq!(one.len(), 64);
    assert!(one.bytes().all(|b| b.is_ascii_digit() || (b'a'..=b'f').contains(&b)));
    let zeros = [0u8; 16];
    let mut ones = [1u8; 16];
    ones[6] = 0x4f;
    ones[8] = 0xbf;
    assert_eq!(token_from(&ones, &ones, &ones), "01".repeat(32));
    assert_eq!(token_from(&zeros, &ones, &zeros), format!("{}{}{}", "00".repeat(14), "01".repeat(14), "00".repeat(4)));
}

#[test]
fn bytes_are_written_in_hex_and_names_are_joined_to_directories() {
    assert_eq!(hex_text(&[0x00, 0x0f, 0xa0, 0xff]), "000fa0ff");
    assert_eq!(join("/grants", "x.json"), "/grants/x.json");
    assert_eq!(join("/grants/", "x.json"), "/grants/x.json");
}

#[test]
fn what_was_revoked_is_gone_for_good_and_nothing_else_is() {
    let mut registry = Registry::new();
    let (first, second) = (scope("one", FIRST), scope("two", SECOND));
    let mut tokens = Vec::new();
    for scope in [&first, &second] {
        let issued =
            registry.issue("/grants", "/grants/socket", scope.clone(), 1).issued.unwrap();
        assert!(issued.context.token.bytes().all(|b| b.is_ascii_hexdigit()));
        tokens.push(issued.context.token);
    }
    let fence = |scope: &Scope| DelegationFence {
        coordinator_task_id: scope.task_id.clone(),
        coordinator_attempt_id: scope.attempt_id.clone(),
        coordinator_epoch: 1,
        instance_id: "launch".into(),
        native_owner_epoch: "owner".into(),
    };
    let permit = registry.prepare_activation(&second, 2).unwrap();
    registry.apply_activation(permit, fence(&second));
    let permit = registry.prepare_activation(&first, 2).unwrap();
    let kept = registry.duplicate();
    assert_eq!(registry.revoke(&first), (true, vec![format!("/grants/{FIRST}.json")]));
    registry.apply_activation(permit, fence(&first));
    for now in [0, 2, MAX_LIFETIME_MS] {
        assert_eq!(
            registry.identify(&tokens[0], now).unwrap_err().0,
            FailureCode::ScopeMismatch
        );
        assert_eq!(
            registry.authorize_delegation(&tokens[0], now).unwrap_err().0,
            FailureCode::ScopeMismatch
        );
    }
    assert_eq!(registry.revoke(&first), (false, vec![]));
    assert_eq!(registry.identify(&tokens[1], 2).unwrap(), second);
    assert_eq!(registry.authorize_delegation(&tokens[1], 2).unwrap().fence, fence(&second));
    // The grants from before are as they were.
    assert_eq!(kept.identify(&tokens[0], 2).unwrap(), first);
    assert_eq!(kept.authorize_delegation(&tokens[1], 2).unwrap().fence, fence(&second));
}
