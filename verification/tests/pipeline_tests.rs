use std::io::Write;

use codex_core::codec::{data_url_from_bytes, decode_data_url};
use codex_core::devin::{is_devin_model, is_devin_model_supported};
use codex_core::errors::CoreError;
use codex_core::providers::{built_in_model_providers, ModelProviderInfo, WireApi};
use codex_core::scanner::detect_local_file_paths;
use codex_core::subst::substitute_file_paths_with_urls;

#[test]
fn end_to_end_detect_encode_substitute() {
    let mut file = tempfile::Builder::new().prefix("report").suffix(".csv").tempfile_in(
        "/tmp",
    ).unwrap();
    file.write_all(b"a,b,c\n1,2,3\n").unwrap();
    file.flush().unwrap();
    let path = file.path().to_str().unwrap().to_string();

    let text = format!("Please check {} for details", path);
    let refs = detect_local_file_paths(&text);
    assert_eq!(refs.len(), 1, "no reference found for {}", path);
    assert_eq!(refs[0].resolved_path, path);

    let url = data_url_from_bytes(&path, b"a,b,c\n1,2,3\n");
    assert_eq!(url, "data:text/csv;base64,YSxiLGMKMSwyLDMK");
    assert_eq!(decode_data_url(&url).unwrap(), b"a,b,c\n1,2,3\n".to_vec());

    let map = vec![(path, "https://files.example/1".to_string())];
    let rewritten = substitute_file_paths_with_urls(&text, &map);
    assert_eq!(rewritten, "Please check https://files.example/1 for details");
}

#[test]
fn devin_model_names() {
    assert!(is_devin_model("devin-standard"));
    assert!(is_devin_model("devin-anything"));
    assert!(!is_devin_model("gpt-4"));
    assert!(is_devin_model_supported("devin-standard"));
    assert!(is_devin_model_supported("devin-deep"));
    assert!(!is_devin_model_supported("devin-anything"));
}

#[test]
fn provider_table_contents() {
    let table = built_in_model_providers();
    assert_eq!(table.len(), 9);
    let openai = &table[0];
    assert_eq!(openai.0, "openai");
    assert_eq!(openai.1.name, "OpenAI");
    assert_eq!(openai.1.base_url, "https://api.openai.com/v1");
    assert_eq!(openai.1.env_key.as_deref(), Some("OPENAI_API_KEY"));
    assert_eq!(openai.1.wire_api, WireApi::Responses);
    let devin = &table[8];
    assert_eq!(devin.0, "devin");
    assert_eq!(devin.1.wire_api, WireApi::Devin);
    assert_eq!(devin.1.env_key.as_deref(), Some("DEVIN_API_KEY"));
    assert!(table.iter().all(|(k, _)| !k.is_empty()));
}

#[test]
fn api_key_resolution() {
    let table = built_in_model_providers();
    let openai: &ModelProviderInfo = &table[0].1;

    let ok = openai.api_key(&Some("sk-value".to_string()));
    assert_eq!(ok.unwrap(), Some("sk-value".to_string()));

    let missing = openai.api_key(&None);
    match missing {
        Err(CoreError::EnvVar(e)) => {
            assert_eq!(e.var, "OPENAI_API_KEY");
            assert!(e.instructions.is_some());
        },
        _ => panic!("expected an EnvVar error"),
    }

    let blank = openai.api_key(&Some("   ".to_string()));
    assert!(matches!(blank, Err(CoreError::EnvVar(_))));

    let ollama: &ModelProviderInfo = &table[3].1;
    assert_eq!(ollama.api_key(&None).unwrap(), None);
}
