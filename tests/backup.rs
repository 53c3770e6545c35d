use deploy_core::backup::{
    apply_chart_backup, backup_command_error, backup_edit_error, backup_file_error, backup_secret_name,
    is_worth_backup, on_backup_file_failure, prepare_chart_backup, text_contains, FetchedResource,
    HelmCommand, HelmError, RestoreDecision,
};
use deploy_core::backup::{BackupStage, BackupStep, ChartBackup, ChartRestore, RestoreStage, RestoreStep};
use deploy_core::errors::CommandError;

fn fetched(name: &str, content: Option<&str>) -> FetchedResource {
    FetchedResource { name: name.to_string(), content: content.map(|c| c.to_string()) }
}

#[test]
fn only_resources_with_content_are_backed_up() {
    let r = prepare_chart_backup(&vec![
        fetched("pvc", Some("kind: List\nitems:\n- a")),
        fetched("svc", Some("No Resources Found in ns")),
        fetched("cm", None),
        fetched("secret", Some("items: []")),
        fetched("empty", Some("")),
        fetched("ing", Some("x")),
    ]);
    let names: Vec<&str> = r.iter().map(|b| b.name.as_str()).collect();
    assert_eq!(names, vec!["pvc", "ing"]);
    assert_eq!(r[0].content, "kind: List\nitems:\n- a");
}

#[test]
fn backup_checks_are_case_insensitive_for_missing_resources() {
    assert!(!is_worth_backup("NO RESOURCES FOUND"));
    assert!(is_worth_backup("items: [a]"));
    assert!(text_contains("abc", ""));
    assert!(text_contains("abcabd", "abd"));
    assert!(!text_contains("ab", "abc"));
}

#[test]
fn backup_secret_is_named_after_chart_and_resource() {
    assert_eq!(backup_secret_name("nginx", "pvc"), "nginx-pvc-q-backup");
    assert_eq!(backup_secret_name("nginx", "pvc"), backup_secret_name("nginx", "pvc"));
}

#[test]
fn restore_picks_backup_secrets_only() {
    let names = vec![
        "nginx-pvc-q-backup".to_string(),
        "token".to_string(),
        "x-q-backup-y".to_string(),
    ];
    assert_eq!(apply_chart_backup(&names), vec![0, 2]);
    assert_eq!(apply_chart_backup(&vec![]), Vec::<usize>::new());
}

#[test]
fn empty_backup_secret_is_skipped() {
    let d = on_backup_file_failure("nginx", CommandError::new("Secret has No Content".to_string(), None));
    assert!(matches!(d, RestoreDecision::DeleteAndSkip));
    let d = on_backup_file_failure("nginx", CommandError::new("denied".to_string(), Some("raw".to_string())));
    match d {
        RestoreDecision::Fail(HelmError::CmdError(chart, HelmCommand::Upgrade, e)) => {
            assert_eq!(chart, "nginx");
            assert_eq!(e.message_safe, "denied");
            assert_eq!(e.message_raw, Some("raw".to_string()));
        }
        _ => panic!("expected a failure"),
    }
}

#[test]
fn backup_errors_name_the_resource() {
    let HelmError::CmdError(chart, _, e) = backup_file_error("nginx", "pvc", "disk full".to_string());
    assert_eq!(chart, "nginx");
    assert_eq!(e.message_safe, "Error while creating YAML backup file for pvc.");
    let HelmError::CmdError(_, _, e) = backup_edit_error("nginx", "pvc", "io".to_string());
    assert_eq!(e.message_safe, "Error while editing YAML backup file pvc.");
    let HelmError::CmdError(_, _, e) = backup_command_error("nginx", CommandError::new("x".to_string(), None));
    assert_eq!(e.message_safe, "x");
}

fn run_backup(b: &mut ChartBackup, fail_write: bool, fail_secret_at: Option<usize>) -> Vec<String> {
    let mut secrets = Vec::new();
    loop {
        match b.next_step() {
            BackupStep::Fetch(i) => {
                let content = match b.resources[i].as_str() {
                    "pvc" => Some("kind: List\nitems:\n- a".to_string()),
                    "svc" => Some("No resources found".to_string()),
                    other => Some(format!("items:\n- {}", other)),
                };
                b.on_fetched(content);
            }
            BackupStep::WriteFile(i) => {
                if fail_write {
                    b.on_written(Err("disk full".to_string()));
                } else {
                    let path = format!("/tmp/{}.yaml", b.backups[i].name);
                    b.on_written(Ok(path));
                }
            }
            BackupStep::EditFile(_) => b.on_edited(Ok(())),
            BackupStep::CreateSecret(i, name) => {
                if fail_secret_at == Some(i) {
                    b.on_secret(Err(CommandError::new("denied".to_string(), Some("raw".to_string()))));
                } else {
                    secrets.push(name);
                    b.on_secret(Ok(()));
                }
            }
            BackupStep::Finished => break,
        }
    }
    secrets
}

#[test]
fn backup_creates_one_secret_per_selected_resource() {
    let mut b = ChartBackup::new("nginx".to_string(), vec!["pvc".to_string(), "svc".to_string(), "cm".to_string()]);
    let secrets = run_backup(&mut b, false, None);
    assert_eq!(secrets, vec!["nginx-pvc-q-backup".to_string(), "nginx-cm-q-backup".to_string()]);
    assert_eq!(b.stage, BackupStage::Finished);
    assert!(b.error.is_none());
    let names: Vec<&str> = b.infos.iter().map(|i| i.name.as_str()).collect();
    assert_eq!(names, vec!["pvc", "cm"]);
    assert_eq!(b.infos[0].path, "/tmp/pvc.yaml");
}

#[test]
fn backup_rerun_creates_the_same_secrets() {
    let mut first = ChartBackup::new("nginx".to_string(), vec!["pvc".to_string(), "cm".to_string()]);
    let mut again = ChartBackup::new("nginx".to_string(), vec!["pvc".to_string(), "cm".to_string()]);
    assert_eq!(run_backup(&mut first, false, None), run_backup(&mut again, false, None));
}

#[test]
fn failed_backup_file_stops_before_any_secret() {
    let mut b = ChartBackup::new("nginx".to_string(), vec!["pvc".to_string()]);
    let secrets = run_backup(&mut b, true, None);
    assert!(secrets.is_empty());
    let HelmError::CmdError(chart, _, e) = b.error.unwrap();
    assert_eq!(chart, "nginx");
    assert_eq!(e.message_safe, "Error while creating YAML backup file for pvc.");
    assert_eq!(e.message_raw, Some("disk full".to_string()));
}

#[test]
fn failed_secret_stops_the_backup() {
    let mut b = ChartBackup::new("nginx".to_string(), vec!["a".to_string(), "b".to_string(), "c".to_string()]);
    let secrets = run_backup(&mut b, false, Some(1));
    assert_eq!(secrets, vec!["nginx-a-q-backup".to_string()]);
    let HelmError::CmdError(_, _, e) = b.error.unwrap();
    assert_eq!(e.message_safe, "denied");
    assert_eq!(e.message_raw, Some("raw".to_string()));
}

#[test]
fn empty_resource_list_finishes_at_once() {
    let b = ChartBackup::new("nginx".to_string(), vec![]);
    assert!(matches!(b.next_step(), BackupStep::Finished));
}

#[test]
fn restore_applies_then_deletes_and_skips_empty_secrets() {
    let mut r = ChartRestore::new("nginx".to_string());
    let mut done = Vec::new();
    loop {
        match r.next_step() {
            RestoreStep::ListSecrets => r.on_listed(Ok(vec![
                "nginx-pvc-q-backup".to_string(),
                "token".to_string(),
                "nginx-cm-q-backup".to_string(),
            ])),
            RestoreStep::ReadSecret(i) => {
                if i == 0 {
                    r.on_read(Err(CommandError::new("backup has No Content".to_string(), None)));
                } else {
                    r.on_read(Ok(format!("/tmp/{}.yaml", i)));
                }
            }
            RestoreStep::Apply(i) => {
                done.push(format!("apply {} {}", i, r.path));
                r.on_applied(Ok(()));
            }
            RestoreStep::Delete(i) => {
                done.push(format!("delete {}", i));
                r.on_deleted(Ok(()));
            }
            RestoreStep::Finished => break,
        }
    }
    assert_eq!(done, vec!["delete 0", "apply 2 /tmp/2.yaml", "delete 2"]);
    assert_eq!(r.stage, RestoreStage::Finished);
    assert!(r.error.is_none());
}

#[test]
fn restore_stops_on_failed_apply_or_listing() {
    let mut r = ChartRestore::new("nginx".to_string());
    r.on_listed(Ok(vec!["a-q-backup".to_string(), "b-q-backup".to_string()]));
    r.on_read(Ok("/tmp/a".to_string()));
    r.on_applied(Err(CommandError::new("apply failed".to_string(), None)));
    assert!(matches!(r.next_step(), RestoreStep::Finished));
    let HelmError::CmdError(_, _, e) = r.error.unwrap();
    assert_eq!(e.message_safe, "apply failed");

    let mut l = ChartRestore::new("nginx".to_string());
    l.on_listed(Err(CommandError::new("forbidden".to_string(), Some("403".to_string()))));
    let HelmError::CmdError(chart, _, e) = l.error.unwrap();
    assert_eq!(chart, "nginx");
    assert_eq!(e.message_raw, Some("403".to_string()));

    let mut f = ChartRestore::new("nginx".to_string());
    f.on_listed(Ok(vec!["a-q-backup".to_string()]));
    f.on_read(Err(CommandError::new("corrupt".to_string(), None)));
    assert!(f.error.is_some());
}
