use mc_manager::archive::{mods_archive, ArchiveError};
use mc_manager::workflow::FailureCause;
use mc_manager::paths::{backup_entry, backup_root, copy_paths, join_path};
use mc_manager::reconcile::plan_reconcile;
use mc_manager::serverctl::{bad_request, restart, start, stop, systemctl_args, ServerAction};
use mc_manager::upload::{check_upload_name, ModUpload, ValidationError};
use mc_manager::workflow::{
    advance, begin_run, workflow_steps, Command, ErrorKind, Orchestrator, Outcome, RunState,
    Step, Workflow,
};

fn strings(v: &[&str]) -> Vec<String> {
    v.iter().map(|s| s.to_string()).collect()
}

#[test]
fn reconcile_scenario() {
    let installed = strings(&["A.jar", "B.jar", "C.jar"]);
    let allow = strings(&["B.jar"]);
    let staged = strings(&["D.jar"]);
    let plan = plan_reconcile(&installed, &staged, &allow);
    assert_eq!(plan.removed, strings(&["A.jar", "C.jar"]));
    assert_eq!(plan.added, strings(&["D.jar"]));
    assert_eq!(plan.resulting_mods(&installed), strings(&["B.jar", "D.jar"]));
}

#[test]
fn reconcile_keeps_non_jars_and_overwrites_collisions() {
    let installed = strings(&["notes.txt", "X.jar", "Y.jar"]);
    let allow = strings(&["X.jar"]);
    let staged = strings(&["X.jar", "readme.md", "Y.jar"]);
    let plan = plan_reconcile(&installed, &staged, &allow);
    assert_eq!(plan.removed, strings(&["Y.jar"]));
    assert_eq!(plan.added, strings(&["X.jar", "Y.jar"]));
    assert_eq!(plan.resulting_mods(&installed), strings(&["notes.txt", "X.jar", "Y.jar"]));
}

#[test]
fn reconcile_empty_allow_list_removes_all_jars() {
    let installed = strings(&["a.jar", "b.jar"]);
    let plan = plan_reconcile(&installed, &vec![], &vec![]);
    assert_eq!(plan.removed, installed);
    assert!(plan.added.is_empty());
    assert!(plan.resulting_mods(&installed).is_empty());
}

fn run_all(w: Workflow) -> Vec<Step> {
    let (mut run, mut c) = begin_run(w);
    let mut done = Vec::new();
    loop {
        match c {
            Command::Perform(s) => {
                done.push(s);
                c = advance(&mut run, Outcome::Succeeded);
            }
            Command::Complete => break,
            Command::Abort(_) => panic!("aborted"),
        }
    }
    assert!(run.state == RunState::Finished);
    done
}

#[test]
fn workflows_run_their_steps_in_order() {
    for w in [Workflow::ReconcileMods, Workflow::Backup, Workflow::Restore, Workflow::FullPackUpdate] {
        assert!(run_all(w) == workflow_steps(w));
    }
    assert!(workflow_steps(Workflow::ReconcileMods)
        == vec![Step::StopServer, Step::ReadAllowList, Step::ReconcileMods, Step::StartServer]);
    assert_eq!(workflow_steps(Workflow::Backup).len(), 7);
    assert_eq!(workflow_steps(Workflow::Restore).len(), 8);
    assert_eq!(workflow_steps(Workflow::FullPackUpdate).len(), 21);
}

#[test]
fn update_aborts_when_stop_fails() {
    let (mut run, c) = begin_run(Workflow::FullPackUpdate);
    assert!(c == Command::Perform(Step::StopServer));
    let c = advance(&mut run, Outcome::Failed);
    assert!(c == Command::Abort(Step::StopServer));
    assert!(run.state == RunState::Aborted(Step::StopServer));
    for _ in 0..5 {
        let c = advance(&mut run, Outcome::Succeeded);
        assert!(c == Command::Abort(Step::StopServer));
    }
    assert_eq!(Step::StopServer.failure_message(FailureCause::Other), "Failed to stop server.");
    assert!(Step::StopServer.error_kind() == ErrorKind::ProcessControl);
}

#[test]
fn backup_aborts_on_copy_failure() {
    let (mut run, _) = begin_run(Workflow::Backup);
    assert!(advance(&mut run, Outcome::Succeeded) == Command::Perform(Step::WriteModsManifest));
    assert!(advance(&mut run, Outcome::Succeeded) == Command::Perform(Step::BackupPath(0)));
    assert!(advance(&mut run, Outcome::Succeeded) == Command::Perform(Step::BackupPath(1)));
    assert!(advance(&mut run, Outcome::Failed) == Command::Abort(Step::BackupPath(1)));
    assert!(Step::BackupPath(1).error_kind() == ErrorKind::Filesystem);
}

#[test]
fn reconcile_start_failure_is_reported() {
    let (mut run, _) = begin_run(Workflow::ReconcileMods);
    advance(&mut run, Outcome::Succeeded);
    advance(&mut run, Outcome::Succeeded);
    assert!(advance(&mut run, Outcome::Succeeded) == Command::Perform(Step::StartServer));
    assert!(advance(&mut run, Outcome::Failed) == Command::Abort(Step::StartServer));
    assert_eq!(Step::StartServer.failure_message(FailureCause::Other), "Failed to start server.");
}

#[test]
fn orchestrator_admits_one_run_at_a_time() {
    let mut o = Orchestrator::new();
    assert!(o.try_begin(Workflow::Backup) == Some(Command::Perform(Step::WipeBackupRoot)));
    assert!(o.try_begin(Workflow::Restore).is_none());
    assert!(o.report(Outcome::Failed) == Some(Command::Abort(Step::WipeBackupRoot)));
    assert!(o.current.is_none());
    assert!(o.report(Outcome::Succeeded).is_none());
    assert!(o.try_begin(Workflow::Restore) == Some(Command::Perform(Step::RestorePath(0))));
}

#[test]
fn server_control_replies() {
    assert_eq!(start(true), "Server start requested.");
    assert_eq!(start(false), "Failed to start server.");
    assert_eq!(stop(true), "Server stop requested.");
    assert_eq!(stop(false), "Failed to stop server.");
    assert_eq!(restart(true), "Server restart requested.");
    assert_eq!(restart(false), "Failed to restart server.");
    assert!(bad_request().starts_with("400 Bad Request"));
}

#[test]
fn supervisor_arguments() {
    assert_eq!(systemctl_args(ServerAction::Stop), vec!["--user", "stop", "atm10.service"]);
    assert_eq!(systemctl_args(ServerAction::Start)[1], "start");
    assert_eq!(systemctl_args(ServerAction::Restart)[1], "restart");
}

#[test]
fn backup_paths_mirror_restore_paths() {
    assert_eq!(backup_root("atm10"), "atm10_backup");
    assert_eq!(join_path("atm10", "eula.txt"), "atm10/eula.txt");
    assert_eq!(join_path("/srv/", "world"), "/srv/world");
    assert_eq!(join_path("", "config"), "config");
    let entries: Vec<&str> = (0..5).map(backup_entry).collect();
    assert_eq!(entries, vec!["eula.txt", "ops.json", "server.properties", "config", "world"]);
    let (src, dst) = copy_paths(Step::BackupPath(3), "atm10").unwrap();
    assert_eq!(src, "atm10/config");
    assert_eq!(dst, "atm10_backup/config");
    let (rsrc, rdst) = copy_paths(Step::RestorePath(3), "atm10").unwrap();
    assert_eq!((rsrc, rdst), (dst, src));
    assert!(copy_paths(Step::BackupPath(5), "atm10").is_none());
    assert!(copy_paths(Step::StopServer, "atm10").is_none());
}

#[test]
fn upload_name_sanitised() {
    let u = ModUpload { file_name: Some(String::from("../../etc/cool.jar")) };
    assert_eq!(u.validated_name().ok().unwrap(), "cool.jar");
}

#[test]
fn upload_name_errors() {
    let missing = ModUpload { file_name: None };
    let e = missing.validated_name().err().unwrap();
    assert!(e == ValidationError::MissingName);
    assert_eq!(e.message(), "File is missing a filename.");
    let txt = ModUpload { file_name: Some(String::from("notes.txt")) };
    assert!(txt.validated_name().err().unwrap() == ValidationError::NotJar);
    let empty = ModUpload { file_name: Some(String::new()) };
    assert!(empty.validated_name().err().unwrap() == ValidationError::InvalidName);
    assert!(check_upload_name(Some(String::new())).err().unwrap() == ValidationError::InvalidName);
    assert!(check_upload_name(None).err().unwrap() == ValidationError::InvalidName);
    assert_eq!(check_upload_name(Some(String::from("a.jar"))).ok().unwrap(), "a.jar");
}

#[test]
fn archive_of_mods_is_a_zip() {
    let files = vec![
        (String::from("a.jar"), vec![1u8, 2, 3]),
        (String::from("b.jar"), b"hello".to_vec()),
    ];
    let packed = mods_archive(&files).ok().unwrap();
    assert!(packed.skipped.is_empty());
    let bytes = packed.bytes;
    assert_eq!(&bytes[0..4], b"PK\x03\x04");
    let text = String::from_utf8_lossy(&bytes);
    assert!(text.contains("a.jar") && text.contains("b.jar"));
    let empty = mods_archive(&vec![]).ok().unwrap().bytes;
    assert_eq!(&empty[0..4], b"PK\x05\x06");
    assert_eq!(ArchiveError::FinishFailed.message(), "Failed to create zip archive.");
}

#[test]
fn copy_failure_messages_name_directory_or_file() {
    for step in [Step::BackupPath(4), Step::RestorePath(0)] {
        assert_eq!(step.failure_message(FailureCause::DirectoryCopy), "Failed to copy directory.");
        assert_eq!(step.failure_message(FailureCause::FileCopy), "Failed to copy file.");
    }
}

#[test]
fn wipe_failure_messages_name_remove_or_create() {
    assert_eq!(
        Step::WipeBackupRoot.failure_message(FailureCause::RemoveFailed),
        "Failed to remove existing backup directory."
    );
    assert_eq!(
        Step::WipeBackupRoot.failure_message(FailureCause::CreateFailed),
        "Failed to create backup directory."
    );
}

#[test]
fn failure_reports_add_detail_only_where_read() {
    assert_eq!(
        Step::ReadAllowList.failure_report(FailureCause::Other, "No such file"),
        "Failed to read mods.list: No such file"
    );
    assert_eq!(
        Step::ReconcileMods.failure_report(FailureCause::Other, "atm10/mods"),
        "Failed to read mods directory: atm10/mods"
    );
    assert_eq!(
        Step::BackupPath(1).failure_report(FailureCause::FileCopy, "ignored"),
        "Failed to copy file."
    );
}

#[test]
fn upload_name_of_trailing_slash_path() {
    let u = ModUpload { file_name: Some(String::from("dir/mod.jar/")) };
    assert_eq!(u.validated_name().ok().unwrap(), "mod.jar");
    let dots = ModUpload { file_name: Some(String::from("mods/..")) };
    assert!(dots.validated_name().err().unwrap() == ValidationError::InvalidName);
}

#[test]
fn archive_skips_repeated_and_overlong_names() {
    let long = "x".repeat(16384) + ".jar";
    let files = vec![
        (String::from("a.jar"), vec![1u8]),
        (String::from("a.jar"), vec![2u8]),
        (long.clone(), vec![3u8]),
        (String::from("b.jar"), vec![4u8]),
    ];
    let packed = mods_archive(&files).ok().unwrap();
    assert_eq!(packed.skipped, vec![String::from("a.jar"), long]);
    assert_eq!(&packed.bytes[0..4], b"PK\x03\x04");
    assert!(String::from_utf8_lossy(&packed.bytes).contains("b.jar"));
}
