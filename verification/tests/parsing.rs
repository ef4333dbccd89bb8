//! Listing parsing, classification, request building, reply interpretation,
//! and the persisted configuration codec.

use aios::detector::{parse_ollama_list, models_from_listing, has_weight_file, ModelProvider};
use aios::fsio::FsEntry;
use aios::loader::{classify_path, PathClass};
use aios::fsio::FsNodeKind;
use aios::manager::{ModelConfig, ModelSize, size_class_for, parent_dir, config_for_selection};
use aios::detector::DetectedModel;
use aios::configjson::{render_config, parse_config};
use aios::ollama::{build_generate_request, interpret_generate_reply, interpret_tags_reply, strip_ollama_tag};
use aios::lm_studio::{build_chat_request, interpret_chat_reply};
use aios::bridge::interpret_bridge_output;
use aios::procio::ProcOutput;
use aios::errors::{ModelError, ProviderKind};
use aios::pathstr::{file_name_of, stem_of, extension_of};
use aios::downloader::build_placeholder_contents;
use aios::placeholder::is_placeholder_content;
use aios::ollama::OllamaClient;
use aios::python_ollama::PythonOllamaClient;
use aios::huggingface::HuggingFaceClient;
use aios::lm_studio::LMStudioClient;
use aios::manager::find_model_file;

#[test]
fn daemon_list_two_models() {
    let out = "NAME            SIZE    MODIFIED\nllama3:latest   4.7GB   2 days ago\nmistral         4.1GB   5 days ago\n";
    let models = parse_ollama_list(out);
    assert_eq!(models.len(), 2);
    assert_eq!(models[0].name, "ollama:llama3:latest");
    assert_eq!(models[0].path, "ollama://llama3:latest");
    assert!(matches!(models[0].provider, ModelProvider::Ollama));
    assert_eq!(models[0].size, None);
    assert_eq!(models[0].description, "Ollama model: llama3:latest");
    assert_eq!(models[1].name, "ollama:mistral");
}

#[test]
fn daemon_list_header_only() {
    assert_eq!(parse_ollama_list("NAME SIZE MODIFIED\n").len(), 0);
    assert_eq!(parse_ollama_list("NAME SIZE MODIFIED").len(), 0);
    assert_eq!(parse_ollama_list("").len(), 0);
}

#[test]
fn daemon_list_blank_lines_and_crlf() {
    let out = "NAME\r\n\r\nqwen2\r\n   \r\n";
    let models = parse_ollama_list(out);
    assert_eq!(models.len(), 1);
    assert_eq!(models[0].name, "ollama:qwen2");
}

fn entry(name: &str, is_file: bool, size: u64) -> FsEntry {
    FsEntry { name: String::from(name), is_file, size }
}

#[test]
fn local_listing_keeps_only_weight_files() {
    // One weight file and one text file: exactly one record comes out,
    // tagged as a local file.
    let entries = vec![
        entry("tiny.gguf", true, 7340032),
        entry("notes.txt", true, 10),
    ];
    let models = models_from_listing(
        "/tmp/models",
        &entries,
        &ModelProvider::LocalFile,
        "local:",
        "Local model file: ",
    );
    assert_eq!(models.len(), 1);
    assert_eq!(models[0].name, "local:tiny");
    assert!(matches!(models[0].provider, ModelProvider::LocalFile));
    assert_eq!(models[0].path, "/tmp/models/tiny.gguf");
    assert_eq!(models[0].size, Some(7340032));
    assert_eq!(models[0].description, "Local model file: tiny (gguf)");
}

#[test]
fn listing_ignores_directories_and_odd_extensions() {
    let entries = vec![
        entry("weights.gguf", false, 0),
        entry("model.zip", true, 5),
        entry("README", true, 5),
        entry("good.safetensors", true, 123),
    ];
    let models = models_from_listing(
        "/d",
        &entries,
        &ModelProvider::LMStudio,
        "lmstudio:",
        "LM Studio model: ",
    );
    assert_eq!(models.len(), 1);
    assert_eq!(models[0].name, "lmstudio:good");
    assert_eq!(models[0].description, "LM Studio model: good (safetensors)");
}

#[test]
fn hub_directory_weight_check() {
    let with = vec![entry("config.json", true, 1), entry("model.safetensors", true, 9)];
    let without = vec![entry("config.json", true, 1), entry("tokenizer.json", true, 2)];
    assert!(has_weight_file(&with));
    assert!(!has_weight_file(&without));
}

#[test]
fn classify_weight_file_with_sentinel_is_placeholder() {
    // A recognized weight extension does not rescue a placeholder: the
    // sentinel wins and no provider may be bound.
    let path = String::from("/m/fake.gguf");
    let contents = Some(String::from("digiOS Model Placeholder\nURL: x\n"));
    let class = classify_path(&path, FsNodeKind::File, &contents);
    assert!(matches!(class, PathClass::PlaceholderFile));
}

#[test]
fn classify_real_weight_file() {
    let path = String::from("/home/u/.cache/huggingface/hub/m/pytorch_model.bin");
    let contents = Some(String::from("not a placeholder"));
    match classify_path(&path, FsNodeKind::File, &contents) {
        PathClass::WeightFile { stem, in_cache } => {
            assert_eq!(stem, "pytorch_model");
            assert!(in_cache);
        }
        _ => panic!("expected a weight file"),
    }
    let plain = String::from("/srv/models/m.gguf");
    match classify_path(&plain, FsNodeKind::File, &None) {
        PathClass::WeightFile { stem, in_cache } => {
            assert_eq!(stem, "m");
            assert!(!in_cache);
        }
        _ => panic!("expected a weight file"),
    }
}

#[test]
fn classify_daemon_uri_and_missing() {
    match classify_path(&String::from("ollama://llama3"), FsNodeKind::Missing, &None) {
        PathClass::DaemonUri { raw } => assert_eq!(raw, "llama3"),
        _ => panic!("expected a daemon URI"),
    }
    assert!(matches!(
        classify_path(&String::from("just-a-name"), FsNodeKind::Missing, &None),
        PathClass::NotAFile
    ));
    assert!(matches!(
        classify_path(&String::from("/etc/digios/model.json"), FsNodeKind::File, &None),
        PathClass::OtherFile
    ));
}

#[test]
fn config_round_trip_preserves_fields() {
    // The persisted format round-trips: name, size class and URL survive.
    let c = ModelConfig {
        name: String::from("ollama:llama3"),
        size: ModelSize::Medium,
        url: Some(String::from("https://example.com/models/medium.bin")),
        local_path: String::from("/var/lib/digios/models"),
    };
    let text = render_config(&c);
    let back = parse_config(&text).expect("rendered configuration must parse");
    assert_eq!(back.name, "ollama:llama3");
    assert_eq!(back.size, ModelSize::Medium);
    assert_eq!(back.url.as_deref(), Some("https://example.com/models/medium.bin"));
}

#[test]
fn config_round_trip_null_url_and_odd_name() {
    let c = ModelConfig {
        name: String::from("we\"ird\nname\tx"),
        size: ModelSize::Large,
        url: None,
        local_path: String::from("/tmp/m"),
    };
    let text = render_config(&c);
    let back = parse_config(&text).expect("rendered configuration must parse");
    assert_eq!(back.name, "we\"ird\nname\tx");
    assert_eq!(back.size, ModelSize::Large);
    assert_eq!(back.url, None);
}

#[test]
fn config_parses_pretty_layout() {
    let text = "{\n  \"name\": \"digios-default\",\n  \"size\": \"Small\",\n  \"url\": null,\n  \"local_path\": \"/var/lib/digios/models\"\n}\n";
    let c = parse_config(text).expect("pretty layout must parse");
    assert_eq!(c.name, "digios-default");
    assert_eq!(c.size, ModelSize::Small);
    assert_eq!(c.url, None);
    assert_eq!(c.local_path, "/var/lib/digios/models");
}

#[test]
fn config_parses_unicode_escape() {
    let text = "{\"name\":\"\\u0041x\",\"size\":\"Small\",\"url\":null,\"local_path\":\"/m\"}";
    let c = parse_config(text).expect("escape must parse");
    assert_eq!(c.name, "Ax");
}

#[test]
fn config_rejects_malformed_text() {
    assert!(parse_config("").is_none());
    assert!(parse_config("{}").is_none());
    assert!(
        parse_config("{\"name\":\"x\",\"size\":\"Huge\",\"url\":null,\"local_path\":\"/m\"}")
            .is_none()
    );
    assert!(
        parse_config("{\"name\":\"x\",\"size\":\"Small\",\"url\":null,\"local_path\":\"/m\"} junk")
            .is_none()
    );
}

#[test]
fn generate_request_body() {
    let body = build_generate_request(&String::from("llama3"), &String::from("say \"hi\"\n"));
    assert_eq!(
        body,
        "{\"model\":\"llama3\",\"prompt\":\"say \\\"hi\\\"\\n\",\"stream\":false,\"options\":{\"temperature\":0.7,\"top_p\":0.9,\"top_k\":40}}"
    );
    let v: serde_json::Value = serde_json::from_str(&body).unwrap();
    assert_eq!(v.get("model").unwrap().as_str(), Some("llama3"));
    assert_eq!(v.get("prompt").unwrap().as_str(), Some("say \"hi\"\n"));
}

#[test]
fn chat_request_body() {
    let body = build_chat_request(&String::from("m"), &String::from("hello"));
    let v: serde_json::Value = serde_json::from_str(&body).unwrap();
    assert_eq!(v.pointer("/messages/0/role").unwrap().as_str(), Some("user"));
    assert_eq!(v.pointer("/messages/0/content").unwrap().as_str(), Some("hello"));
    assert_eq!(v.get("stream").unwrap().as_bool(), Some(false));
}

#[test]
fn generate_reply_interpretation() {
    let ok = interpret_generate_reply(
        200,
        String::from("{\"model\":\"m\",\"response\":\"hi there\",\"done\":true}"),
    );
    assert_eq!(ok.unwrap(), "hi there");

    let err = interpret_generate_reply(500, String::from("boom"));
    match err {
        Err(ModelError::ApiError { backend, status, body }) => {
            assert_eq!(backend, ProviderKind::OllamaServer);
            assert_eq!(status, 500);
            assert_eq!(body, "boom");
        }
        _ => panic!("expected an API error"),
    }

    let malformed = interpret_generate_reply(200, String::from("{\"done\":true}"));
    assert!(matches!(
        malformed,
        Err(ModelError::MalformedResponse { backend: ProviderKind::OllamaServer })
    ));
}

#[test]
fn chat_reply_interpretation() {
    let ok = interpret_chat_reply(
        200,
        String::from("{\"choices\":[{\"message\":{\"role\":\"assistant\",\"content\":\"sure\"}}]}"),
    );
    assert_eq!(ok.unwrap(), "sure");

    let empty = interpret_chat_reply(200, String::from("{\"choices\":[]}"));
    assert!(matches!(
        empty,
        Err(ModelError::MalformedResponse { backend: ProviderKind::LmStudio })
    ));

    let err = interpret_chat_reply(404, String::from("nope"));
    assert!(matches!(err, Err(ModelError::ApiError { status: 404, .. })));
}

#[test]
fn tags_reply_interpretation() {
    let ok = interpret_tags_reply(
        200,
        String::from("{\"models\":[{\"name\":\"a\"},{\"name\":\"b\"}]}"),
    );
    assert_eq!(ok.unwrap(), vec![String::from("a"), String::from("b")]);
    assert!(interpret_tags_reply(200, String::from("{}")).is_err());
}

#[test]
fn bridge_output_interpretation() {
    let clean = ProcOutput {
        success: true,
        stdout: String::from("  the reply \n"),
        stderr: String::new(),
    };
    assert_eq!(
        interpret_bridge_output(ProviderKind::PythonOllama, clean).unwrap(),
        "the reply"
    );

    let err_line = ProcOutput {
        success: true,
        stdout: String::from("partial"),
        stderr: String::from("warning\nERROR: model missing\n"),
    };
    assert!(matches!(
        interpret_bridge_output(ProviderKind::PythonOllama, err_line),
        Err(ModelError::BridgeFailure { .. })
    ));

    let failed = ProcOutput {
        success: false,
        stdout: String::from("ignored"),
        stderr: String::from("traceback"),
    };
    match interpret_bridge_output(ProviderKind::HuggingFaceBridge, failed) {
        Err(ModelError::BridgeFailure { backend, detail }) => {
            assert_eq!(backend, ProviderKind::HuggingFaceBridge);
            assert_eq!(detail, "traceback");
        }
        _ => panic!("expected a bridge failure"),
    }
}

#[test]
fn name_tag_stripping() {
    assert_eq!(strip_ollama_tag(String::from("ollama:llama3")), "llama3");
    assert_eq!(strip_ollama_tag(String::from("llama3")), "llama3");
}

#[test]
fn path_string_pieces() {
    assert_eq!(file_name_of("/a/b/c.gguf"), "c.gguf");
    assert_eq!(file_name_of("bare"), "bare");
    assert_eq!(stem_of("c.gguf"), "c");
    assert_eq!(stem_of(".hidden"), ".hidden");
    assert_eq!(stem_of("noext"), "noext");
    assert_eq!(extension_of("c.gguf"), "gguf");
    assert_eq!(extension_of(".hidden"), "");
    assert_eq!(extension_of("noext"), "");
    assert_eq!(parent_dir("/a/b/c.gguf"), "/a/b");
    assert_eq!(parent_dir("/c.gguf"), "/");
    assert_eq!(parent_dir("bare"), "/var/lib/digios/models");
}

#[test]
fn size_class_boundaries() {
    assert_eq!(size_class_for(Some(1999999999)), ModelSize::Small);
    assert_eq!(size_class_for(Some(2000000000)), ModelSize::Medium);
    assert_eq!(size_class_for(Some(7999999999)), ModelSize::Medium);
    assert_eq!(size_class_for(Some(8000000000)), ModelSize::Large);
    assert_eq!(size_class_for(None), ModelSize::Medium);
}

#[test]
fn selection_copies_into_config() {
    let m = DetectedModel {
        name: String::from("lmstudio:phi"),
        provider: ModelProvider::LMStudio,
        path: String::from("/home/u/.local/share/lm-studio/models/phi.gguf"),
        size: Some(1000000),
        description: String::from("LM Studio model: phi (gguf)"),
    };
    let c = config_for_selection(&m);
    assert_eq!(c.name, "lmstudio:phi");
    assert_eq!(c.size, ModelSize::Small);
    assert_eq!(c.url, None);
    assert_eq!(c.local_path, "/home/u/.local/share/lm-studio/models");
}

#[test]
fn client_constructors_normalize_their_names() {
    let c = OllamaClient::new(String::from("ollama:llama3"));
    assert_eq!(c.model_name, "llama3");
    assert_eq!(c.base_url, "http://localhost:11434");

    let p = PythonOllamaClient::new(String::from("llama3"));
    assert_eq!(p.model_name, "llama3");

    let h = HuggingFaceClient::new(String::from("/hub/models--x/snapshot/model.safetensors"));
    assert_eq!(h.model_name, "model.safetensors");
    assert_eq!(h.model_path, "/hub/models--x/snapshot/model.safetensors");

    let l = LMStudioClient::new(String::from("/m/phi.gguf"));
    assert_eq!(l.base_url, "http://localhost:1234");
    assert_eq!(l.model_path, "/m/phi.gguf");
}

#[test]
fn model_file_search_matches_stem_or_path() {
    let entries = vec![
        entry("other.gguf", true, 1),
        entry("phi-3-mini.gguf", true, 2),
        entry("phi-3-mini", false, 0),
    ];
    let hit = find_model_file("/d", &entries, "phi-3-mini");
    assert_eq!(hit.as_deref(), Some("/d/phi-3-mini.gguf"));
    let miss = find_model_file("/d", &entries, "qwen");
    assert_eq!(miss, None);
    // A needle that only occurs in the directory part still matches, because
    // the search looks at the full path.
    let by_path = find_model_file("/models/qwen", &entries, "qwen");
    assert_eq!(by_path.as_deref(), Some("/models/qwen/other.gguf"));
}

#[test]
fn placeholder_contents_carry_the_sentinel() {
    let contents = build_placeholder_contents("https://example.com/models/small.bin", "/m/p");
    assert!(is_placeholder_content(&contents));
    assert!(contents.starts_with("digiOS Model Placeholder"));
    assert!(contents.contains("https://example.com/models/small.bin"));
}
