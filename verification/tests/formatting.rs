//! Display formatting, the catalog, and fixed configuration data.

use aios::detector::ModelDetector;
use aios::downloader::ModelDownloader;
use aios::sources::{ModelSources, ModelSize, ModelSourceProvider};
use aios::bootloader::BootloaderConfig;
use aios::config::Config;
use aios::errors::{ModelError, ProviderKind};
use aios::paths::{get_config_dir, get_data_dir, get_model_config_path, get_models_dir};

#[test]
fn format_size_boundaries() {
    assert_eq!(ModelDetector::format_size(Some(0)), "0 B");
    assert_eq!(ModelDetector::format_size(Some(500)), "500 B");
    assert_eq!(ModelDetector::format_size(Some(1023)), "1023 B");
    assert_eq!(ModelDetector::format_size(Some(1024)), "1.00 KB");
    assert_eq!(ModelDetector::format_size(Some(1536)), "1.50 KB");
    assert_eq!(ModelDetector::format_size(Some(1048575)), "1024.00 KB");
    assert_eq!(ModelDetector::format_size(Some(1048576)), "1.00 MB");
    assert_eq!(ModelDetector::format_size(Some(1073741823)), "1024.00 MB");
    assert_eq!(ModelDetector::format_size(Some(1073741824)), "1.00 GB");
    assert_eq!(ModelDetector::format_size(Some(5100273664)), "4.75 GB");
}

#[test]
fn format_size_unknown() {
    assert_eq!(ModelDetector::format_size(None), "Unknown");
}

#[test]
fn format_bytes_matches_format_size() {
    assert_eq!(ModelDownloader::format_bytes(2048), "2.00 KB");
    assert_eq!(ModelDownloader::format_bytes(999), "999 B");
    assert_eq!(ModelDownloader::format_bytes(3221225472), "3.00 GB");
}

#[test]
fn recommended_models_catalog() {
    let models = ModelSources::get_recommended_models();
    assert_eq!(models.len(), 6);
    assert_eq!(models[0].name, "Phi-3-mini-4k-instruct");
    assert_eq!(models[1].name, "Qwen2-0.5B-Instruct");
    assert_eq!(models[2].name, "Llama-3.2-3B-Instruct");
    assert_eq!(models[3].name, "Mistral-7B-Instruct-v0.3");
    assert_eq!(models[4].name, "Llama-3.1-8B-Instruct");
    assert_eq!(models[5].name, "Qwen2.5-7B-Instruct");
    for m in &models {
        assert_eq!(m.provider, ModelSourceProvider::HuggingFace);
        assert!(m.url.starts_with("https://huggingface.co/"));
    }
}

#[test]
fn catalog_filtered_by_size() {
    let medium = ModelSources::get_by_size(&ModelSize::Medium);
    assert_eq!(medium.len(), 2);
    assert_eq!(medium[0].name, "Llama-3.2-3B-Instruct");
    assert_eq!(medium[1].name, "Mistral-7B-Instruct-v0.3");
    assert!(medium.iter().all(|m| m.size == ModelSize::Medium));
    let tiny = ModelSources::get_by_size(&ModelSize::Tiny);
    assert_eq!(tiny.len(), 1);
    assert_eq!(tiny[0].name, "Qwen2-0.5B-Instruct");
    assert_eq!(ModelSources::get_by_size(&ModelSize::XLarge).len(), 0);
}

#[test]
fn size_and_provider_words() {
    assert_eq!(ModelSources::format_size(&ModelSize::Tiny), "< 1GB");
    assert_eq!(ModelSources::format_size(&ModelSize::Small), "1-3GB");
    assert_eq!(ModelSources::format_size(&ModelSize::Medium), "3-7GB");
    assert_eq!(ModelSources::format_size(&ModelSize::Large), "7-15GB");
    assert_eq!(ModelSources::format_size(&ModelSize::XLarge), "15GB+");
    assert_eq!(ModelSources::format_provider(&ModelSourceProvider::HuggingFace), "Hugging Face");
    assert_eq!(ModelSources::format_provider(&ModelSourceProvider::Ollama), "Ollama");
    assert_eq!(ModelSources::format_provider(&ModelSourceProvider::LMStudio), "LM Studio");
    assert_eq!(
        ModelSources::format_provider(&ModelSourceProvider::DirectDownload),
        "Direct Download"
    );
}

#[test]
fn grub_entry_rendering() {
    let c = BootloaderConfig::default();
    assert_eq!(c.kernel_path, "/boot/digios-kernel");
    assert_eq!(c.initrd_path, "/boot/initrd.img");
    assert_eq!(c.cmdline, "quiet splash");
    let entry = c.generate_grub_config();
    assert_eq!(
        entry,
        "menuentry \"digiOS\" {\n    linux /boot/digios-kernel quiet splash\n    initrd /boot/initrd.img\n}"
    );
}

#[test]
fn config_defaults() {
    let c = Config::default();
    assert_eq!(c.api.port, 8765);
    assert_eq!(c.api.host, "0.0.0.0");
    assert_eq!(c.memory.path, "aios_memory");
    assert_eq!(c.memory.max_history, 10000);
    assert!(c.system.safety_mode);
    assert!(!c.system.enable_kernel_ops);
    assert_eq!(c.system.max_concurrent_tasks, 10);
    assert!(c.features.vision && c.features.ocr && c.features.object_detection);
}

#[test]
fn well_known_paths() {
    assert_eq!(get_config_dir(), "/etc/digios");
    assert_eq!(get_data_dir(), "/var/lib/digios");
    assert_eq!(get_model_config_path(), "/etc/digios/model.json");
    assert_eq!(get_models_dir(), "/var/lib/digios/models");
}

#[test]
fn error_messages_name_their_backend() {
    let e = ModelError::ApiError {
        backend: ProviderKind::OllamaServer,
        status: 500,
        body: String::from("boom"),
    };
    assert_eq!(e.message(), "Ollama API error: 500 boom");
    let e = ModelError::BackendUnavailable { backend: ProviderKind::LmStudio };
    assert!(e.message().contains("LM Studio"));
    let e = ModelError::BackendUnavailable { backend: ProviderKind::OllamaServer };
    assert!(e.message().contains("Ollama"));
    let e = ModelError::NotLoaded;
    assert_eq!(e.message(), "Model not loaded");
    let e = ModelError::PlaceholderModel { path: String::from("/x/y") };
    assert_eq!(e.message(), "Placeholder model file detected: /x/y");
}

#[test]
fn bridge_and_inference_errors_name_their_backend() {
    let e = ModelError::BridgeFailure {
        backend: ProviderKind::PythonOllama,
        detail: String::from("trace"),
    };
    assert_eq!(e.message(), "Python ollama error: trace");
    let e = ModelError::BridgeFailure {
        backend: ProviderKind::HuggingFaceBridge,
        detail: String::from("trace"),
    };
    assert_eq!(e.message(), "Hugging Face inference error: trace");
    let e = ModelError::InferenceFailed {
        backend: ProviderKind::LmStudio,
        detail: String::from("inner"),
    };
    let msg = e.message();
    assert!(msg.starts_with("LM Studio inference failed."));
    assert!(msg.ends_with("Error: inner"));
}
