//! End-to-end flows over a real filesystem: placeholder gating,
//! configured-name resolution, the detector's scan, and the loader's
//! load/infer chain.

use aios::loader::{ModelLoader, LoaderEndpoints};
use aios::manager::{ModelManager, ModelConfig, ModelSize};
use aios::detector::{ModelDetector, ModelProvider};
use aios::errors::ModelError;
use aios::bridge::run_script;

fn rt() -> tokio::runtime::Runtime {
    tokio::runtime::Builder::new_current_thread().enable_all().build().unwrap()
}

fn write_file(path: &str, contents: &str) {
    let r = rt();
    let dir = path.rsplit_once('/').unwrap().0;
    r.block_on(tokio::fs::create_dir_all(dir)).unwrap();
    r.block_on(tokio::fs::write(path, contents)).unwrap();
}

fn remove_tree(path: &str) {
    let r = rt();
    let _ = r.block_on(tokio::fs::remove_dir_all(path));
}

const SENTINEL_FILE: &str = "digiOS Model Placeholder\nURL: https://example.com/models/small.bin\nStatus: placeholder standing in for a real download\n";

#[test]
fn placeholder_weight_file_never_binds() {
    // A weight-named file whose contents open with the sentinel: the loader
    // binds nothing and load fails with the placeholder error, not a
    // generic one.
    let base = "/tmp/aios_test_ph_bind";
    remove_tree(base);
    let path = format!("{base}/fake.gguf");
    write_file(&path, SENTINEL_FILE);

    let mut loader = ModelLoader::new(&path);
    assert!(loader.placeholder);
    assert!(loader.ollama_client.is_none());
    assert!(loader.python_ollama_client.is_none());
    assert!(loader.lm_studio_client.is_none());
    assert!(loader.huggingface_client.is_none());
    assert!(!loader.is_loaded());

    match loader.load() {
        Err(ModelError::PlaceholderModel { path: p }) => assert_eq!(p, path),
        other => panic!("expected the placeholder error, got {other:?}"),
    }
    assert!(!loader.is_loaded());
    remove_tree(base);
}

#[test]
fn configured_name_resolves_to_placeholder_and_fails_at_load() {
    // The configured name has no matching file, but a placeholder under one
    // of the fixed names is present: model_exists answers true, resolution
    // picks the placeholder, and loading fails with the placeholder error —
    // never the not-found error.
    let base = "/tmp/aios_test_ph_chain";
    remove_tree(base);
    write_file(&format!("{base}/digios-default-small"), SENTINEL_FILE);

    let mut manager = ModelManager::from_config(ModelConfig {
        name: String::from("digios-default"),
        size: ModelSize::Medium,
        url: None,
        local_path: String::from(base),
    });
    assert!(manager.model_exists());

    match manager.load_model() {
        Err(ModelError::PlaceholderModel { path }) => {
            assert_eq!(path, format!("{base}/digios-default-small"));
        }
        other => panic!("expected the placeholder error, got {other:?}"),
    }
    assert!(manager.get_model().is_none());
    remove_tree(base);
}

#[test]
fn missing_model_reports_what_was_searched() {
    let base = "/tmp/aios_test_missing";
    remove_tree(base);
    write_file(&format!("{base}/unrelated.txt"), "x");

    let mut manager = ModelManager::from_config(ModelConfig {
        name: String::from("digios-default"),
        size: ModelSize::Medium,
        url: None,
        local_path: String::from(base),
    });
    match manager.load_model() {
        Err(ModelError::ModelFileNotFound { searched, listing }) => {
            assert_eq!(searched, format!("{base}/digios-default"));
            assert_eq!(listing, vec![String::from("unrelated.txt")]);
        }
        other => panic!("expected the not-found error, got {other:?}"),
    }
    remove_tree(base);
}

#[test]
fn detector_scan_keeps_one_of_two_files() {
    // One weight file and one text file under the home models directory:
    // exactly one record from that directory, tagged as a local file.
    let home = "/tmp/aios_test_scan_home";
    remove_tree(home);
    write_file(&format!("{home}/models/tiny.gguf"), "not really weights");
    write_file(&format!("{home}/models/notes.txt"), "prose");

    let detector = ModelDetector::with_home(String::from(home));
    let found = detector.detect_models();
    let from_home: Vec<_> =
        found.iter().filter(|m| m.path.starts_with(home)).collect();
    assert_eq!(from_home.len(), 1);
    assert_eq!(from_home[0].name, "local:tiny");
    assert!(matches!(from_home[0].provider, ModelProvider::LocalFile));
    assert_eq!(from_home[0].path, format!("{home}/models/tiny.gguf"));
    assert_eq!(from_home[0].description, "Local model file: tiny (gguf)");
    remove_tree(home);
}

#[test]
fn unbound_identifier_loads_trivially_and_echoes() {
    let path = String::from("no-such-model-file-anywhere");
    let mut loader = ModelLoader::new(&path);
    assert!(!loader.placeholder);
    assert!(loader.ollama_client.is_none() && loader.lm_studio_client.is_none());

    // Before load, inference is refused.
    match loader.infer(&String::from("hi")) {
        Err(ModelError::NotLoaded) => {}
        other => panic!("expected the not-loaded error, got {other:?}"),
    }

    loader.load().expect("an unbound non-placeholder identifier loads trivially");
    assert!(loader.is_loaded());
    let reply = loader.infer(&String::from("hi")).unwrap();
    assert_eq!(reply, "[Model response to: hi]");
}

#[test]
fn real_weight_file_without_backends_stays_unbound() {
    // A real (non-placeholder) weight file with no serving daemon reachable:
    // nothing is bound, the name is the file's stem, and loading is the
    // trivial local-file success.
    let base = "/tmp/aios_test_real_weights";
    remove_tree(base);
    let path = format!("{base}/tiny-llm.gguf");
    write_file(&path, "GGUF-ish bytes, but text so the scan can read them");

    // Probe against a port nothing can answer on, so the test does not
    // depend on what runs on this host's real daemon ports.
    let endpoints = LoaderEndpoints {
        ollama_base: String::from("http://127.0.0.1:0"),
        lm_studio_base: String::from("http://127.0.0.1:0"),
    };
    let mut loader = ModelLoader::new_at(&path, &endpoints);
    assert!(!loader.placeholder);
    assert_eq!(loader.model_name, "tiny-llm");
    assert!(loader.lm_studio_client.is_none() && loader.huggingface_client.is_none());

    loader.load().expect("a real local file loads trivially when nothing is bound");
    assert!(loader.is_loaded());
    remove_tree(base);
}

#[test]
fn load_checks_the_sentinel_again_on_disk() {
    // A plain file that turns into a placeholder after construction: the
    // load-time re-check catches it.
    let base = "/tmp/aios_test_fresh_sentinel";
    remove_tree(base);
    let path = format!("{base}/notes.txt");
    write_file(&path, "ordinary contents");

    let mut loader = ModelLoader::new(&path);
    assert!(!loader.placeholder, "no sentinel at construction");

    write_file(&path, SENTINEL_FILE);
    match loader.load() {
        Err(ModelError::PlaceholderModel { path: p }) => assert_eq!(p, path),
        other => panic!("expected the placeholder error, got {other:?}"),
    }
    assert!(!loader.is_loaded());
    remove_tree(base);
}

#[test]
fn bridge_runs_a_plain_script_when_an_interpreter_exists() {
    // Environment-tolerant: with no interpreter on the host the bridge
    // reports a spawn failure; with one, the script's trimmed output comes
    // back.
    match run_script(&String::from("print('bridge says hi')")) {
        Some(o) => {
            if o.success {
                assert_eq!(o.stdout.trim(), "bridge says hi");
            }
        }
        None => {}
    }
}
