use backend_supervisor::launch::{
    base_url_for, data_dir_or_default, log_path_for, primary_launch_spec, secondary_launch_spec,
};
use backend_supervisor::text::{decimal_u16, path_join};

#[test]
fn decimal_renders_zero() {
    assert_eq!(decimal_u16(0), "0");
}

#[test]
fn decimal_renders_single_digit() {
    assert_eq!(decimal_u16(7), "7");
}

#[test]
fn decimal_renders_port() {
    assert_eq!(decimal_u16(4310), "4310");
    assert_eq!(decimal_u16(4320), "4320");
}

#[test]
fn decimal_renders_max() {
    assert_eq!(decimal_u16(65535), "65535");
}

#[test]
fn base_url_uses_loopback_and_port() {
    assert_eq!(base_url_for(4310), "http://127.0.0.1:4310");
}

#[test]
fn path_join_inserts_separator() {
    assert_eq!(path_join("/tmp/app", "store.db"), "/tmp/app/store.db");
}

#[test]
fn log_path_lives_under_logs_dir() {
    assert_eq!(log_path_for("/tmp/app", "primary"), "/tmp/app/logs/primary.log");
}

#[test]
fn data_dir_falls_back_to_relative_path() {
    assert_eq!(data_dir_or_default(&Some("/tmp/app".to_string())), "/tmp/app");
    assert_eq!(data_dir_or_default(&None), ".");
}

#[test]
fn primary_request_carries_port_and_data_dir() {
    let spec = primary_launch_spec("/tmp/app");
    assert_eq!(spec.name, "karios-ai-service");
    assert_eq!(spec.port, 4310);
    assert_eq!(spec.deadline_ms, 10000);
    let envs: Vec<(&str, &str)> =
        spec.envs.iter().map(|e| (e.key.as_str(), e.value.as_str())).collect();
    assert_eq!(
        envs,
        vec![
            ("PORT", "4310"),
            ("NODE_ENV", "production"),
            ("KARIOS_APP_DATA_DIR", "/tmp/app"),
        ]
    );
}

#[test]
fn secondary_request_carries_primary_url_and_storage_path() {
    let spec = secondary_launch_spec("/tmp/app");
    assert_eq!(spec.name, "karios-quant-service");
    assert_eq!(spec.port, 4320);
    assert_eq!(spec.deadline_ms, 25000);
    let envs: Vec<(&str, &str)> =
        spec.envs.iter().map(|e| (e.key.as_str(), e.value.as_str())).collect();
    assert_eq!(
        envs,
        vec![
            ("HOST", "127.0.0.1"),
            ("PORT", "4320"),
            ("AI_SERVICE_BASE_URL", "http://127.0.0.1:4310"),
            ("PYTHONUNBUFFERED", "1"),
            ("DATABASE_PATH", "/tmp/app/karios.sqlite3"),
        ]
    );
}

#[test]
fn launch_env_appends_sidecar_marker() {
    let spec = primary_launch_spec("/tmp/app");
    let env = spec.launch_env();
    assert_eq!(env.len(), spec.envs.len() + 1);
    for (given, kept) in spec.envs.iter().zip(env.iter()) {
        assert_eq!(given.key, kept.key);
        assert_eq!(given.value, kept.value);
    }
    let marker = env.last().unwrap();
    assert_eq!(marker.key, "KARIOS_SIDE_CAR");
    assert_eq!(marker.value, "1");
}
