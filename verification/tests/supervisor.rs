use backend_supervisor::supervisor::{
    AttemptOutcome, BackendManager, HostContext, LaunchError, Phase,
};

fn release_ctx(data_dir: &str) -> HostContext {
    HostContext { dev_mode: false, data_dir: Some(data_dir.to_string()) }
}

#[test]
fn start_is_idempotent() {
    let mut mgr = BackendManager::new();
    let ctx = release_ctx("/tmp/app");
    let first = mgr.start_on_launch(&ctx);
    assert!(first.is_some());
    assert_eq!(mgr.phase, Phase::StartingPrimary);
    // Every later call, whatever its context, is a no-op.
    assert!(mgr.start_on_launch(&ctx).is_none());
    assert!(mgr.start_on_launch(&HostContext { dev_mode: true, data_dir: None }).is_none());
    assert_eq!(mgr.phase, Phase::StartingPrimary);
    assert_eq!(mgr.data_dir, "/tmp/app");
    assert!(mgr.registry.is_empty());
}

#[test]
fn dev_mode_spawns_nothing() {
    let mut mgr = BackendManager::new();
    let ctx = HostContext { dev_mode: true, data_dir: Some("/tmp/app".to_string()) };
    assert!(mgr.start_on_launch(&ctx).is_none());
    assert_eq!(mgr.phase, Phase::Running);
    assert!(mgr.registry.is_empty());
    // The latch fired all the same.
    assert!(mgr.start_on_launch(&release_ctx("/tmp/app")).is_none());
    assert!(mgr.registry.is_empty());
}

#[test]
fn stop_on_empty_registry_is_a_no_op() {
    let mut mgr = BackendManager::new();
    let stopped = mgr.stop_all();
    assert!(stopped.is_empty());
    assert_eq!(mgr.phase, Phase::Stopped);
    assert!(mgr.registry.is_empty());
    // A second stop yields the same terminal state.
    let again = mgr.stop_all();
    assert!(again.is_empty());
    assert_eq!(mgr.phase, Phase::Stopped);
    assert!(mgr.registry.is_empty());
}

#[test]
fn failed_attempt_is_never_recorded() {
    let mut mgr = BackendManager::new();
    let primary = mgr.start_on_launch(&release_ctx("/tmp/app")).unwrap();
    assert_eq!(primary.name, "karios-ai-service");
    // The primary's port never opened within its deadline.
    let secondary = mgr.primary_concluded(AttemptOutcome::Failed(LaunchError::ReadinessTimeout));
    // The secondary's attempt was not blocked or aborted.
    assert_eq!(secondary.name, "karios-quant-service");
    assert_eq!(mgr.phase, Phase::StartingSecondary);
    assert!(mgr.registry.is_empty());
    mgr.secondary_concluded(AttemptOutcome::Failed(LaunchError::ReadinessTimeout));
    assert_eq!(mgr.phase, Phase::Running);
    assert!(mgr.registry.is_empty());
}

#[test]
fn partial_failure_keeps_exactly_the_survivor() {
    let mut mgr = BackendManager::new();
    mgr.start_on_launch(&release_ctx("/tmp/app")).unwrap();
    mgr.primary_concluded(AttemptOutcome::Failed(LaunchError::BinaryNotFound));
    mgr.secondary_concluded(AttemptOutcome::Started(7));
    assert_eq!(mgr.registry.len(), 1);
    assert_eq!(mgr.registry[0].name, "karios-quant-service");
    assert_eq!(mgr.registry[0].port, 4320);
    assert_eq!(mgr.registry[0].handle, 7);
    // Stop terminates exactly that one process.
    let stopped = mgr.stop_all();
    assert_eq!(stopped.len(), 1);
    assert_eq!(stopped[0].handle, 7);
    assert!(mgr.registry.is_empty());
    assert_eq!(mgr.phase, Phase::Stopped);
}

#[test]
fn spawn_failure_of_secondary_keeps_primary() {
    let mut mgr = BackendManager::new();
    mgr.start_on_launch(&release_ctx("/tmp/app")).unwrap();
    mgr.primary_concluded(AttemptOutcome::Started(3));
    mgr.secondary_concluded(AttemptOutcome::Failed(LaunchError::SpawnFailure));
    assert_eq!(mgr.registry.len(), 1);
    assert_eq!(mgr.registry[0].name, "karios-ai-service");
    assert_eq!(mgr.registry[0].port, 4310);
}

#[test]
fn stop_mid_pass_hands_back_what_was_recorded() {
    let mut mgr = BackendManager::new();
    mgr.start_on_launch(&release_ctx("/tmp/app")).unwrap();
    mgr.primary_concluded(AttemptOutcome::Started(5));
    let stopped = mgr.stop_all();
    assert_eq!(stopped.len(), 1);
    assert_eq!(stopped[0].name, "karios-ai-service");
    assert_eq!(mgr.phase, Phase::Stopped);
    assert!(mgr.registry.is_empty());
}

#[test]
fn full_launch_pass_records_both_in_order() {
    let mut mgr = BackendManager::new();
    let ctx = release_ctx("/tmp/app");

    let primary = mgr.start_on_launch(&ctx).unwrap();
    assert_eq!(primary.port, 4310);
    assert_eq!(primary.deadline_ms, 10000);

    // Port 4310 opens after 300 ms, well within the 10 s deadline.
    let secondary = mgr.primary_concluded(AttemptOutcome::Started(1));
    assert_eq!(mgr.registry.len(), 1);
    assert_eq!(secondary.port, 4320);
    assert_eq!(secondary.deadline_ms, 25000);
    let url = secondary
        .envs
        .iter()
        .find(|e| e.key == "AI_SERVICE_BASE_URL")
        .map(|e| e.value.as_str());
    assert_eq!(url, Some("http://127.0.0.1:4310"));

    // Port 4320 opens after 2 s, within the 25 s deadline.
    mgr.secondary_concluded(AttemptOutcome::Started(2));
    assert_eq!(mgr.phase, Phase::Running);
    assert_eq!(mgr.registry.len(), 2);
    assert_eq!(mgr.registry[0].name, "karios-ai-service");
    assert_eq!(mgr.registry[1].name, "karios-quant-service");

    let stopped = mgr.stop_all();
    assert_eq!(stopped.len(), 2);
    assert_eq!(stopped[0].handle, 1);
    assert_eq!(stopped[1].handle, 2);
    assert!(mgr.registry.is_empty());
    assert_eq!(mgr.phase, Phase::Stopped);
}
