use deploy_core::errors::CommandError;
use deploy_core::service::{Action, Environment, EnvironmentKind, Hook, ServiceKind, ServiceRef};
use deploy_core::transaction::{EnvironmentAction, HookCall, Slot, Transaction, TransactionResult};

fn svc(id: &str, kind: ServiceKind) -> ServiceRef {
    ServiceRef { id: id.to_string(), name: format!("{}-name", id), kind }
}

fn env(action: Action, services: Vec<ServiceRef>) -> Environment {
    Environment {
        services,
        action,
        kind: EnvironmentKind::Development,
        namespace: "ns".to_string(),
        execution_id: "exec-1".to_string(),
    }
}

fn err(msg: &str) -> CommandError {
    CommandError::new(msg.to_string(), Some("raw".to_string()))
}

/// Runs a transaction to the end; `fails` decides which calls fail.
fn drive(t: &mut Transaction, fails: &dyn Fn(&HookCall) -> bool) -> Vec<HookCall> {
    let mut calls = Vec::new();
    while let Some(call) = t.next_call() {
        calls.push(call);
        if fails(&call) {
            t.report(Err(err("boom")));
        } else {
            t.report(Ok(()));
        }
        assert!(calls.len() < 1000);
    }
    calls
}

fn app_and_db(action: Action) -> Environment {
    env(action, vec![svc("app", ServiceKind::Application), svc("db", ServiceKind::Database)])
}

#[test]
fn create_runs_checks_then_stateful_first() {
    let mut t = Transaction::new(EnvironmentAction::Environment(app_and_db(Action::Create)));
    let calls = drive(&mut t, &|_| false);
    let seen: Vec<(usize, Hook)> = calls.iter().map(|c| (c.service, c.hook)).collect();
    assert_eq!(seen, vec![(1, Hook::Check), (0, Hook::Check), (1, Hook::Run), (0, Hook::Run)]);
    assert!(matches!(t.outcome(), TransactionResult::Committed));
}

#[test]
fn delete_runs_stateless_first() {
    let mut t = Transaction::new(EnvironmentAction::Environment(app_and_db(Action::Delete)));
    let calls = drive(&mut t, &|_| false);
    let runs: Vec<usize> = calls.iter().filter(|c| c.hook == Hook::Run).map(|c| c.service).collect();
    assert_eq!(runs, vec![0, 1]);
    assert!(matches!(t.outcome(), TransactionResult::Committed));
}

#[test]
fn failed_check_invokes_no_main_hook() {
    let e = env(
        Action::Create,
        vec![
            svc("a", ServiceKind::Application),
            svc("b", ServiceKind::Application),
            svc("c", ServiceKind::Application),
        ],
    );
    let mut t = Transaction::new(EnvironmentAction::Environment(e));
    let calls = drive(&mut t, &|c| c.hook == Hook::Check && c.service == 1);
    assert!(calls.iter().all(|c| c.hook == Hook::Check));
    assert_eq!(calls.len(), 2);
    match t.outcome() {
        TransactionResult::UnrecoverableError(id, cause) => {
            assert_eq!(id, "b");
            assert_eq!(cause.message_safe, "boom");
        }
        _ => panic!("expected an unrecoverable error"),
    }
}

#[test]
fn failed_run_compensates_previous_services() {
    let e = env(
        Action::Create,
        vec![
            svc("a", ServiceKind::Application),
            svc("b", ServiceKind::Application),
            svc("c", ServiceKind::Application),
        ],
    );
    let mut t = Transaction::new(EnvironmentAction::Environment(e));
    let calls = drive(&mut t, &|c| c.hook == Hook::Run && c.service == 1);
    let errors: Vec<usize> =
        calls.iter().filter(|c| c.hook == Hook::OnError).map(|c| c.service).collect();
    assert_eq!(errors, vec![1, 0]);
    assert!(!calls.iter().any(|c| c.hook == Hook::Run && c.service == 2));
    match t.outcome() {
        TransactionResult::Rollback(cause) => assert_eq!(cause.message_safe, "boom"),
        _ => panic!("expected a rollback"),
    }
}

#[test]
fn failed_error_hook_does_not_change_outcome() {
    let e = env(Action::Create, vec![svc("a", ServiceKind::Application), svc("b", ServiceKind::Application)]);
    let mut t = Transaction::new(EnvironmentAction::Environment(e));
    drive(&mut t, &|c| (c.hook == Hook::Run && c.service == 1) || c.hook == Hook::OnError);
    assert!(matches!(t.outcome(), TransactionResult::Rollback(_)));
}

#[test]
fn failover_recovers_from_primary_failure() {
    let primary = env(Action::Create, vec![svc("bad", ServiceKind::Application)]);
    let failover = env(Action::Create, vec![svc("good", ServiceKind::Application)]);
    let mut t = Transaction::new(EnvironmentAction::EnvironmentWithFailover(primary, failover));
    let calls = drive(&mut t, &|c| c.slot == Slot::Primary && c.hook == Hook::Run);
    assert!(calls.iter().any(|c| c.slot == Slot::Failover && c.hook == Hook::Run));
    assert!(calls.iter().any(|c| c.slot == Slot::Primary && c.hook == Hook::OnError));
    assert!(matches!(t.outcome(), TransactionResult::Committed));
}

#[test]
fn failover_failure_is_unrecoverable() {
    let primary = env(Action::Create, vec![svc("bad", ServiceKind::Application)]);
    let failover = env(Action::Create, vec![svc("worse", ServiceKind::Database)]);
    let mut t = Transaction::new(EnvironmentAction::EnvironmentWithFailover(primary, failover));
    drive(&mut t, &|c| c.hook == Hook::Run);
    match t.outcome() {
        TransactionResult::UnrecoverableError(id, _) => assert_eq!(id, "worse"),
        _ => panic!("expected an unrecoverable error"),
    }
}

#[test]
fn primary_success_skips_failover() {
    let primary = env(Action::Pause, vec![svc("ok", ServiceKind::Router)]);
    let failover = env(Action::Pause, vec![svc("spare", ServiceKind::Router)]);
    let mut t = Transaction::new(EnvironmentAction::EnvironmentWithFailover(primary, failover));
    let calls = drive(&mut t, &|_| false);
    assert!(calls.iter().all(|c| c.slot == Slot::Primary));
    assert!(matches!(t.outcome(), TransactionResult::Committed));
}

#[test]
fn unsupported_action_is_refused_before_any_hook() {
    let e = env(Action::Upgrade, vec![svc("db", ServiceKind::Database)]);
    let mut t = Transaction::new(EnvironmentAction::Environment(e));
    assert!(t.next_call().is_none());
    let calls = drive(&mut t, &|_| false);
    assert!(calls.is_empty());
    match t.outcome() {
        TransactionResult::UnrecoverableError(id, _) => assert_eq!(id, "db"),
        _ => panic!("expected an unrecoverable error"),
    }
}

#[test]
fn empty_environment_commits_at_once() {
    let mut t = Transaction::new(EnvironmentAction::Environment(env(Action::Create, vec![])));
    assert!(t.next_call().is_none());
    assert!(matches!(t.outcome(), TransactionResult::Committed));
}

#[test]
fn resubmitting_a_committed_environment_commits_again() {
    for _ in 0..2 {
        let mut t = Transaction::new(EnvironmentAction::Environment(app_and_db(Action::Create)));
        drive(&mut t, &|_| false);
        assert!(matches!(t.outcome(), TransactionResult::Committed));
    }
}

#[test]
fn rollback_keeps_the_main_hook_error() {
    let e = env(Action::Create, vec![svc("a", ServiceKind::Application), svc("b", ServiceKind::Application)]);
    let mut t = Transaction::new(EnvironmentAction::Environment(e));
    while let Some(call) = t.next_call() {
        match call.hook {
            Hook::Run if call.service == 1 => t.report(Err(err("main failed"))),
            Hook::OnError => t.report(Err(err("cleanup failed"))),
            _ => t.report(Ok(())),
        }
    }
    match t.outcome() {
        TransactionResult::Rollback(cause) => {
            assert_eq!(cause.message_safe, "main failed");
            assert_eq!(cause.message_raw, Some("raw".to_string()));
        }
        _ => panic!("expected a rollback"),
    }
}

#[test]
fn failed_check_error_is_reported_verbatim() {
    let e = env(Action::Delete, vec![svc("a", ServiceKind::Router)]);
    let mut t = Transaction::new(EnvironmentAction::Environment(e));
    let calls = drive(&mut t, &|c| c.hook == Hook::Check);
    assert!(!calls.iter().any(|c| c.hook == Hook::OnError));
    match t.outcome() {
        TransactionResult::UnrecoverableError(id, cause) => {
            assert_eq!(id, "a");
            assert_eq!(cause.message_safe, "boom");
        }
        _ => panic!("expected an unrecoverable error"),
    }
}

#[test]
fn each_service_is_compensated_once() {
    let e = env(
        Action::Create,
        vec![svc("a", ServiceKind::Database), svc("b", ServiceKind::Application), svc("c", ServiceKind::Application)],
    );
    let mut t = Transaction::new(EnvironmentAction::Environment(e));
    let calls = drive(&mut t, &|c| c.hook == Hook::Run && c.service == 2);
    let mut errors: Vec<usize> = calls.iter().filter(|c| c.hook == Hook::OnError).map(|c| c.service).collect();
    errors.sort();
    assert_eq!(errors, vec![0, 1, 2]);
}
