use monkey_troop::shared::errors::TroopError;
use monkey_troop::shared::models::EngineInfo;
use monkey_troop::worker::engines::lmstudio::LMStudioDriver;
use monkey_troop::worker::engines::ollama::OllamaDriver;
use monkey_troop::worker::engines::vllm::VllmDriver;
use monkey_troop::worker::engines::{
    build_model_registry, detect_engines, engine_rank, registry_from_reports, select_detected,
    EngineDriver, EngineReport, ModelRegistry,
};

fn report(engine_type: &str, base_url: &str, models: &[&str]) -> EngineReport {
    EngineReport {
        info: EngineInfo {
            engine_type: engine_type.to_string(),
            version: "1".to_string(),
            port: 1,
        },
        models: models.iter().map(|m| m.to_string()).collect(),
        base_url: base_url.to_string(),
    }
}

struct Fake {
    engine_type: &'static str,
    base_url: &'static str,
    models: Vec<&'static str>,
    answers: Result<bool, ()>,
    fails_info: bool,
    fails_models: bool,
}

impl Fake {
    fn new(engine_type: &'static str, base_url: &'static str, models: &[&'static str]) -> Fake {
        Fake {
            engine_type,
            base_url,
            models: models.to_vec(),
            answers: Ok(true),
            fails_info: false,
            fails_models: false,
        }
    }
}

impl EngineDriver for Fake {
    fn detect(&self) -> Result<bool, TroopError> {
        self.answers.map_err(|_| TroopError::NetworkError("refused".to_string()))
    }

    fn get_info(&self) -> Result<EngineInfo, TroopError> {
        if self.fails_info {
            return Err(TroopError::Timeout("info".to_string()));
        }
        Ok(EngineInfo { engine_type: self.engine_type.to_string(), version: "v".to_string(), port: 9 })
    }

    fn get_models(&self) -> Result<Vec<String>, TroopError> {
        if self.fails_models {
            return Err(TroopError::NetworkError("models".to_string()));
        }
        Ok(self.models.iter().map(|m| m.to_string()).collect())
    }

    fn get_base_url(&self) -> String {
        self.base_url.to_string()
    }
}

#[test]
fn new_registry_is_empty() {
    let registry = ModelRegistry::new();
    assert!(registry.is_empty());
    assert!(registry.models().is_empty());
    assert!(registry.engines().is_empty());
    assert_eq!(registry.get_engine_url("llama3:8b"), None);
}

#[test]
fn priority_merge() {
    let reports = vec![
        report("ollama", "http://localhost:11434", &["llama3:8b", "mistral"]),
        report("vllm", "http://localhost:8000", &["llama3:8b"]),
    ];
    let registry = registry_from_reports(&reports).unwrap();
    assert_eq!(registry.get_engine_url("llama3:8b"), Some(&"http://localhost:8000".to_string()));
    assert_eq!(registry.get_engine_url("mistral"), Some(&"http://localhost:11434".to_string()));
    assert_eq!(registry.models().to_vec(), vec!["llama3:8b".to_string(), "mistral".to_string()]);
    assert_eq!(registry.get_engine_url("gpt"), None);
    assert!(!registry.is_empty());
    assert_eq!(registry.engines().len(), 2);
    assert_eq!(registry.engines()[0].engine_type, "ollama");
    assert_eq!(registry.engines()[1].engine_type, "vllm");
}

#[test]
fn priority_is_vllm_then_ollama_then_lmstudio() {
    let reports = vec![
        report("lmstudio", "L", &["a", "b", "c"]),
        report("ollama", "O", &["b", "c"]),
        report("vllm", "V", &["c"]),
    ];
    let registry = registry_from_reports(&reports).unwrap();
    assert_eq!(registry.get_engine_url("a").unwrap(), "L");
    assert_eq!(registry.get_engine_url("b").unwrap(), "O");
    assert_eq!(registry.get_engine_url("c").unwrap(), "V");
}

#[test]
fn of_two_engines_of_one_type_the_first_wins() {
    let reports = vec![report("ollama", "first", &["m"]), report("ollama", "second", &["m", "n"])];
    let registry = registry_from_reports(&reports).unwrap();
    assert_eq!(registry.get_engine_url("m").unwrap(), "first");
    assert_eq!(registry.get_engine_url("n").unwrap(), "second");
}

#[test]
fn models_are_sorted_and_listed_once() {
    let reports = vec![
        report("ollama", "O", &["zeta", "Alpha", "mistral", "mistral", "é", "llama3:8b", "llama3"]),
        report("vllm", "V", &["mistral", "beta", "😀"]),
    ];
    let registry = registry_from_reports(&reports).unwrap();
    let mut expected: Vec<String> =
        ["zeta", "Alpha", "mistral", "é", "llama3:8b", "llama3", "beta", "😀"]
            .iter()
            .map(|m| m.to_string())
            .collect();
    expected.sort();
    assert_eq!(registry.models().to_vec(), expected);
    for model in registry.models() {
        assert!(registry.get_engine_url(model).is_some());
    }
}

#[test]
fn engine_without_rank_is_listed_but_serves_nothing() {
    let reports = vec![report("tgi", "T", &["x"]), report("vllm", "V", &["y"])];
    let registry = registry_from_reports(&reports).unwrap();
    assert_eq!(registry.get_engine_url("x"), None);
    assert_eq!(registry.get_engine_url("y").unwrap(), "V");
    assert_eq!(registry.models().to_vec(), vec!["y".to_string()]);
    assert_eq!(registry.engines().len(), 2);
    assert_eq!(engine_rank("vllm"), Some(0));
    assert_eq!(engine_rank("ollama"), Some(1));
    assert_eq!(engine_rank("lmstudio"), Some(2));
    assert_eq!(engine_rank("tgi"), None);
    assert_eq!(engine_rank("VLLM"), None);
}

#[test]
fn no_engines_or_no_models_is_an_error() {
    let none: Vec<EngineReport> = Vec::new();
    assert!(matches!(
        registry_from_reports(&none),
        Err(TroopError::InternalError(m)) if m == "No models found in any engine"
    ));
    let empty = vec![report("vllm", "V", &[]), report("ollama", "O", &[])];
    assert!(matches!(
        registry_from_reports(&empty),
        Err(TroopError::InternalError(m)) if m == "No models found in any engine"
    ));
    let unranked = vec![report("tgi", "T", &["x"])];
    assert!(registry_from_reports(&unranked).is_err());
}

#[test]
fn registry_is_built_from_what_drivers_say() {
    let engines = vec![
        Fake::new("ollama", "http://o", &["llama3:8b", "mistral"]),
        Fake::new("vllm", "http://v", &["llama3:8b"]),
    ];
    let registry = build_model_registry(&engines).unwrap();
    assert_eq!(registry.get_engine_url("llama3:8b").unwrap(), "http://v");
    assert_eq!(registry.get_engine_url("mistral").unwrap(), "http://o");
    assert_eq!(registry.engines().len(), 2);
    assert_eq!(registry.engines()[0].version, "v");
}

#[test]
fn a_failing_driver_ends_the_build() {
    let mut broken = Fake::new("vllm", "http://v", &["m"]);
    broken.fails_info = true;
    let engines = vec![Fake::new("ollama", "http://o", &["m"]), broken];
    assert!(matches!(build_model_registry(&engines), Err(TroopError::Timeout(_))));

    let mut no_models = Fake::new("vllm", "http://v", &["m"]);
    no_models.fails_models = true;
    assert!(matches!(build_model_registry(&[no_models]), Err(TroopError::NetworkError(_))));

    let mut unranked = Fake::new("tgi", "http://t", &["m"]);
    unranked.fails_models = true;
    let engines = vec![unranked, Fake::new("ollama", "http://o", &["m"])];
    assert!(build_model_registry(&engines).is_ok());

    let none: Vec<Fake> = Vec::new();
    assert!(matches!(
        build_model_registry(&none),
        Err(TroopError::InternalError(m)) if m == "No models found in any engine"
    ));
}

#[test]
fn every_engine_is_asked_what_it_is_before_any_is_asked_for_models() {
    let mut no_models = Fake::new("ollama", "http://o", &["m"]);
    no_models.fails_models = true;
    let mut no_info = Fake::new("vllm", "http://v", &["m"]);
    no_info.fails_info = true;
    assert!(matches!(build_model_registry(&[no_models, no_info]), Err(TroopError::Timeout(_))));
}

#[test]
fn detection_keeps_the_engines_that_answer() {
    let mut silent = Fake::new("vllm", "http://v", &[]);
    silent.answers = Ok(false);
    let mut unreachable = Fake::new("lmstudio", "http://l", &[]);
    unreachable.answers = Err(());
    let candidates = vec![
        Fake::new("ollama", "http://o", &[]),
        silent,
        unreachable,
        Fake::new("ollama", "http://o2", &[]),
    ];
    let found = detect_engines(candidates);
    let urls: Vec<String> = found.iter().map(|d| d.get_base_url()).collect();
    assert_eq!(urls, vec!["http://o".to_string(), "http://o2".to_string()]);

    let probes = vec![Ok(false), Ok(true), Err(TroopError::NoNodesAvailable)];
    assert_eq!(select_detected(vec![1, 2, 3], &probes), vec![2]);
    assert_eq!(select_detected(Vec::<u8>::new(), &Vec::new()), Vec::<u8>::new());
}

#[test]
fn drivers_know_their_engines() {
    let lm = LMStudioDriver::new();
    assert_eq!(lm.get_base_url(), "http://localhost:1234");
    assert_eq!(lm.models_url(), "http://localhost:1234/v1/models");
    let info = lm.get_info().unwrap();
    assert_eq!((info.engine_type.as_str(), info.version.as_str(), info.port), ("lmstudio", "unknown", 1234));

    let ollama = OllamaDriver::new(None);
    assert_eq!(ollama.get_base_url(), "http://localhost:11434");
    assert_eq!(ollama.version_url(), "http://localhost:11434/api/version");
    assert_eq!(ollama.models_url(), "http://localhost:11434/api/tags");
    assert_eq!(OllamaDriver::new(Some("http://gpu:1".to_string())).get_base_url(), "http://gpu:1");
    let info = OllamaDriver::info("0.5.1".to_string());
    assert_eq!((info.engine_type.as_str(), info.version.as_str(), info.port), ("ollama", "0.5.1", 11434));

    let vllm = VllmDriver::new(None);
    assert_eq!(vllm.get_base_url(), "http://localhost:8000");
    assert_eq!(vllm.models_url(), "http://localhost:8000/v1/models");
    assert_eq!(vllm.health_url(), "http://localhost:8000/health");
    assert_eq!(VllmDriver::new(Some("http://gpu:2".to_string())).get_base_url(), "http://gpu:2");
    assert_eq!(VllmDriver::info(Some("ok".to_string())).version, "ok");
    assert_eq!(VllmDriver::info(Some(String::new())).version, "unknown");
    let info = VllmDriver::info(None);
    assert_eq!((info.engine_type.as_str(), info.version.as_str(), info.port), ("vllm", "unknown", 8000));
}
