use monkey_troop::shared::errors::TroopError;
use monkey_troop::shared::models::{EngineInfo, NodeStatus};
use monkey_troop::shared::tailscale::{address_or_unknown, tailscale_ip_from};
use monkey_troop::worker::engines::{registry_from_reports, EngineReport, ModelRegistry};
use monkey_troop::worker::gpu::{get_gpu_info, nvidia_info_from};
use monkey_troop::worker::heartbeat::{
    compose_heartbeat, delivered, engines_changed, heartbeat_needed, heartbeat_url, models_changed,
    replace_registry, status_from_probe, HeartbeatAction, HeartbeatLoop,
};

fn engine(engine_type: &str, version: &str, port: u16) -> EngineInfo {
    EngineInfo { engine_type: engine_type.to_string(), version: version.to_string(), port }
}

fn names(list: &[&str]) -> Vec<String> {
    list.iter().map(|m| m.to_string()).collect()
}

fn registry(version: &str, models: &[&str]) -> ModelRegistry {
    let reports = vec![EngineReport {
        info: engine("ollama", version, 11434),
        models: names(models),
        base_url: "http://localhost:11434".to_string(),
    }];
    registry_from_reports(&reports).unwrap()
}

#[test]
fn change_is_seen_in_models_and_engines() {
    assert!(!models_changed(&names(&["a", "b"]), &names(&["a", "b"])));
    assert!(models_changed(&names(&["a", "b"]), &names(&["b", "a"])));
    assert!(models_changed(&names(&["a"]), &names(&["a", "b"])));
    assert!(models_changed(&names(&["a"]), &[]));
    assert!(!models_changed(&[], &[]));

    let base = vec![engine("ollama", "0.5", 11434), engine("vllm", "ok", 8000)];
    assert!(!engines_changed(&base, &base.clone()));
    assert!(engines_changed(&base, &base[..1]));
    assert!(engines_changed(&base[..1], &base));
    assert!(engines_changed(&base, &[engine("ollama", "0.5", 11434), engine("vllm", "ok", 8001)]));
    assert!(engines_changed(&base, &[engine("ollama", "0.6", 11434), engine("vllm", "ok", 8000)]));
    assert!(engines_changed(&base, &[engine("ollama", "0.5", 11434), engine("tgi", "ok", 8000)]));
    assert!(engines_changed(&base, &[engine("vllm", "ok", 8000), engine("ollama", "0.5", 11434)]));

    assert!(!heartbeat_needed(&names(&["a"]), &names(&["a"]), &base, &base.clone()));
    assert!(heartbeat_needed(&names(&["a"]), &names(&["b"]), &base, &base.clone()));
    assert!(heartbeat_needed(&names(&["a"]), &names(&["a"]), &base, &[]));
}

#[test]
fn status_follows_the_probe() {
    assert_eq!(status_from_probe(Some(true)), NodeStatus::Idle);
    assert_eq!(status_from_probe(Some(false)), NodeStatus::Busy);
    assert_eq!(status_from_probe(None), NodeStatus::Busy);
    assert!(delivered(Some(200)));
    assert!(delivered(Some(204)));
    assert!(!delivered(Some(199)));
    assert!(!delivered(Some(300)));
    assert!(!delivered(Some(500)));
    assert!(!delivered(None));
}

#[test]
fn heartbeat_carries_the_registry() {
    let reg = registry("0.5", &["mistral", "llama3:8b"]);
    let hb = compose_heartbeat("node-1", "100.64.0.7", Some(true), "RTX".to_string(), 24000, &reg);
    assert_eq!(hb.node_id, "node-1");
    assert_eq!(hb.tailscale_ip, "100.64.0.7");
    assert_eq!(hb.status, NodeStatus::Idle);
    assert_eq!(hb.models, names(&["llama3:8b", "mistral"]));
    assert_eq!(hb.hardware.gpu, "RTX");
    assert_eq!(hb.hardware.vram_free, 24000);
    assert_eq!(hb.engines.len(), 1);
    assert_eq!(hb.engines[0].version, "0.5");
    assert_eq!(heartbeat_url("https://c"), "https://c/heartbeat");
}

#[test]
fn heartbeat_suppression() {
    let reg = registry("0.5", &["llama3:8b"]);
    let mut state = HeartbeatLoop::new(180, 0);
    assert_eq!(state.next_action(0, &reg), HeartbeatAction::Send);
    let hb = compose_heartbeat("n", "ip", None, "g".to_string(), 0, &reg);
    state.send_succeeded(&hb);

    let mut posts = 0;
    for tick in 1..=2u64 {
        if state.next_action(tick * 10_000, &reg) == HeartbeatAction::Send {
            posts += 1;
        }
    }
    assert_eq!(posts, 0);
    assert_eq!(state.next_action(30_000, &reg), HeartbeatAction::Unchanged);

    let changed = registry("0.6", &["llama3:8b"]);
    assert_eq!(state.next_action(40_000, &changed), HeartbeatAction::Send);
    let more = registry("0.5", &["llama3:8b", "mistral"]);
    assert_eq!(state.next_action(40_000, &more), HeartbeatAction::Send);
}

#[test]
fn a_heartbeat_that_failed_is_due_again() {
    let reg = registry("0.5", &["m"]);
    let mut state = HeartbeatLoop::new(180, 0);
    assert_eq!(state.next_action(0, &reg), HeartbeatAction::Send);
    state.send_failed(0);
    assert_eq!(state.failures(), 1);
    assert_eq!(state.next_action(10_000, &reg), HeartbeatAction::Send);
}

#[test]
fn breaker_holds_heartbeats_back() {
    let reg = registry("0.5", &["m"]);
    let mut state = HeartbeatLoop::new(180, 0);
    for i in 0..5u64 {
        assert_eq!(state.next_action(i * 10_000, &reg), HeartbeatAction::Send);
        state.send_failed(i * 10_000);
    }
    assert_eq!(state.failures(), 5);
    assert_eq!(state.next_action(50_000, &reg), HeartbeatAction::Skip);
    assert_eq!(state.next_action(99_999, &reg), HeartbeatAction::Skip);
    assert_eq!(state.failures(), 5);
    assert_eq!(state.next_action(100_000, &reg), HeartbeatAction::Send);
    let hb = compose_heartbeat("n", "ip", None, "g".to_string(), 0, &reg);
    state.send_succeeded(&hb);
    assert_eq!(state.failures(), 0);
    assert_eq!(state.next_action(110_000, &reg), HeartbeatAction::Unchanged);
}

#[test]
fn an_unchanged_cycle_counts_as_a_success() {
    let reg = registry("0.5", &["m"]);
    let mut state = HeartbeatLoop::new(180, 0);
    assert_eq!(state.next_action(0, &reg), HeartbeatAction::Send);
    let hb = compose_heartbeat("n", "ip", None, "g".to_string(), 0, &reg);
    state.send_succeeded(&hb);
    let changed = registry("0.6", &["m"]);
    assert_eq!(state.next_action(1, &changed), HeartbeatAction::Send);
    state.send_failed(1);
    assert_eq!(state.failures(), 1);
    assert_eq!(state.next_action(2, &reg), HeartbeatAction::Unchanged);
    assert_eq!(state.failures(), 0);
}

#[test]
fn refresh_is_due_after_the_interval() {
    let mut state = HeartbeatLoop::new(180, 1_000);
    assert!(!state.refresh_due(1_000));
    assert!(!state.refresh_due(180_999));
    assert!(state.refresh_due(181_000));
    assert!(!state.refresh_due(0));
    state.refreshed(181_000);
    assert!(!state.refresh_due(181_000));
    assert!(!state.refresh_due(360_999));
    assert!(state.refresh_due(361_000));
    assert!(HeartbeatLoop::new(0, 5).refresh_due(5));
}

#[test]
fn refresh_without_engines_keeps_the_registry() {
    let mut current = registry("0.5", &["llama3:8b"]);
    let none: Vec<EngineReport> = Vec::new();
    assert!(matches!(
        replace_registry(&mut current, &none),
        Err(TroopError::InternalError(m)) if m == "No engines detected"
    ));
    assert_eq!(current.get_engine_url("llama3:8b").unwrap(), "http://localhost:11434");
    assert_eq!(current.models().to_vec(), names(&["llama3:8b"]));

    let no_models = vec![EngineReport {
        info: engine("vllm", "ok", 8000),
        models: Vec::new(),
        base_url: "http://localhost:8000".to_string(),
    }];
    assert!(matches!(
        replace_registry(&mut current, &no_models),
        Err(TroopError::InternalError(m)) if m == "No models found in any engine"
    ));
    assert_eq!(current.get_engine_url("llama3:8b").unwrap(), "http://localhost:11434");
    assert_eq!(current.engines()[0].engine_type, "ollama");

    let fresh = vec![EngineReport {
        info: engine("vllm", "ok", 8000),
        models: names(&["qwen"]),
        base_url: "http://localhost:8000".to_string(),
    }];
    assert!(replace_registry(&mut current, &fresh).is_ok());
    assert_eq!(current.get_engine_url("llama3:8b"), None);
    assert_eq!(current.get_engine_url("qwen").unwrap(), "http://localhost:8000");
}

#[test]
fn gpu_info_is_read_or_unknown() {
    assert_eq!(get_gpu_info(None), ("Unknown GPU".to_string(), 0));
    assert_eq!(get_gpu_info(Some(("A100".to_string(), 40000))), ("A100".to_string(), 40000));
    assert_eq!(
        nvidia_info_from("NVIDIA GeForce RTX 4090\n", "23028\n"),
        ("NVIDIA GeForce RTX 4090".to_string(), 23028)
    );
    assert_eq!(nvidia_info_from("", "").1, 0);
    assert_eq!(nvidia_info_from("x", "12 MiB").1, 0);
    assert_eq!(nvidia_info_from("x", "1\n2\n").1, 0);
    assert_eq!(nvidia_info_from(" x ", " +7 "), ("x".to_string(), 7));
}

#[test]
fn tailscale_address_is_trimmed_or_unknown() {
    assert_eq!(tailscale_ip_from(true, "100.64.0.7\n"), Some("100.64.0.7".to_string()));
    assert_eq!(tailscale_ip_from(true, ""), Some(String::new()));
    assert_eq!(tailscale_ip_from(false, "100.64.0.7\n"), None);
    assert_eq!(address_or_unknown(None), "unknown");
    assert_eq!(address_or_unknown(Some("100.64.0.7".to_string())), "100.64.0.7");
}
