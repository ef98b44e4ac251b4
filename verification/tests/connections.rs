use pattern_clock::connections::{
    create_ollama_provider, generate_failure, is_success, list_models_failure, sends_options,
    ConnectionError, LlmResponse, ModelInfo, OllamaConfig, OllamaProvider, DEFAULT_TIMEOUT_SECS,
};

fn network_error() -> reqwest::Error {
    reqwest::Client::new().get("not a url").build().unwrap_err()
}

fn parse_error() -> serde_json::Error {
    serde_json::from_str::<u8>("nonsense").unwrap_err()
}

#[test]
fn default_config_points_at_the_local_server() {
    let config = OllamaConfig::default();
    assert_eq!(config.base_url, "http://localhost:11434");
    assert_eq!(config.timeout_secs, 30);
    assert_eq!(config.default_model, None);
    assert_eq!(DEFAULT_TIMEOUT_SECS, 30);
}

#[test]
fn config_for_takes_the_given_address() {
    let given = OllamaProvider::config_for(Some("http://models:9000".to_string()));
    assert_eq!(given.base_url, "http://models:9000");
    assert_eq!(given.timeout_secs, 30);
    assert_eq!(given.default_model, None);
    let standard = OllamaProvider::config_for(None);
    assert_eq!(standard.base_url, "http://localhost:11434");
}

#[test]
fn provider_keeps_its_configuration() {
    let provider = OllamaProvider::new(Some("http://models:9000".to_string())).unwrap();
    assert_eq!(provider.config().base_url, "http://models:9000");
    assert_eq!(provider.config().timeout_secs, 30);
    assert_eq!(provider.default_model(), None);
    assert_eq!(provider.provider_name(), "Ollama");
    assert_eq!(provider.tags_url(), "http://models:9000/api/tags");
    assert_eq!(provider.generate_url(), "http://models:9000/api/generate");
}

#[test]
fn provider_with_config_offers_its_default_model() {
    let config = OllamaConfig {
        base_url: "http://h".to_string(),
        timeout_secs: 5,
        default_model: Some("llama3".to_string()),
    };
    let provider = OllamaProvider::new_with_config(config).unwrap();
    assert_eq!(provider.default_model(), Some("llama3"));
    assert_eq!(provider.config().timeout_secs, 5);
    assert_eq!(provider.tags_url(), "http://h/api/tags");
}

#[test]
fn provider_with_client_uses_the_defaults() {
    let provider = OllamaProvider::new_with_client(reqwest::Client::new(), "http://x".to_string());
    assert_eq!(provider.config().base_url, "http://x");
    assert_eq!(provider.config().timeout_secs, 30);
    assert_eq!(provider.default_model(), None);
    let _ = provider.client();
}

#[test]
fn default_provider_points_at_the_local_server() {
    let provider = create_ollama_provider().unwrap();
    assert_eq!(provider.generate_url(), "http://localhost:11434/api/generate");
}

#[test]
fn assemble_quotes_the_failure() {
    let failed = OllamaProvider::assemble(Err("no tls".to_string()), OllamaConfig::default());
    match failed {
        Err(ConnectionError::ConfigurationError(text)) => {
            assert_eq!(text, "Failed to create HTTP client: no tls")
        }
        _ => panic!("expected a configuration error"),
    }
    let built = OllamaProvider::assemble(Ok(reqwest::Client::new()), OllamaConfig::default());
    assert_eq!(built.unwrap().tags_url(), "http://localhost:11434/api/tags");
}

#[test]
fn success_is_the_two_hundreds() {
    assert!(!is_success(199));
    assert!(is_success(200));
    assert!(is_success(204));
    assert!(is_success(299));
    assert!(!is_success(300));
    assert!(!is_success(404));
    assert!(!is_success(0));
    for code in 100..600u16 {
        let status = reqwest::StatusCode::from_u16(code).unwrap();
        assert_eq!(is_success(code), status.is_success());
    }
}

#[test]
fn refused_model_list_becomes_an_api_error() {
    let error = list_models_failure(404, "404 Not Found");
    match &error {
        ConnectionError::ApiError { status, message } => {
            assert_eq!(*status, 404);
            assert_eq!(message, "Failed to list models: 404 Not Found");
        }
        _ => panic!("expected an API error"),
    }
    assert_eq!(error.message(), "API error (status 404): Failed to list models: 404 Not Found");
}

#[test]
fn refused_generation_carries_the_body() {
    let with_body = generate_failure(500, Some("model crashed".to_string()));
    assert_eq!(with_body.message(), "API error (status 500): model crashed");
    let without = generate_failure(503, None);
    assert_eq!(without.message(), "API error (status 503): Unknown error");
}

#[test]
fn error_messages_are_prefixed_by_kind() {
    assert_eq!(
        ConnectionError::ModelNotFound("llama9".to_string()).message(),
        "Model not found: llama9"
    );
    assert_eq!(
        ConnectionError::ConfigurationError("bad url".to_string()).message(),
        "Configuration error: bad url"
    );
    assert_eq!(
        ConnectionError::ApiError { status: 65535, message: String::new() }.message(),
        "API error (status 65535): "
    );
    let network = ConnectionError::NetworkError(network_error());
    assert_eq!(network.message(), format!("Network error: {}", network_error()));
    let parse = ConnectionError::ParseError(parse_error());
    assert_eq!(parse.message(), format!("Parse error: {}", parse_error()));
}

#[test]
fn outside_errors_convert_by_kind() {
    assert!(matches!(ConnectionError::from(network_error()), ConnectionError::NetworkError(_)));
    assert!(matches!(ConnectionError::from(parse_error()), ConnectionError::ParseError(_)));
}

#[test]
fn reports_hold_what_the_server_said() {
    let model =
        ModelInfo { name: "llama3".to_string(), size: Some(42), modified_at: None };
    assert_eq!(model.clone().name, "llama3");
    let response = LlmResponse {
        text: "hi".to_string(),
        model: "llama3".to_string(),
        tokens_used: Some(3),
        total_duration: None,
    };
    assert_eq!(response.clone().tokens_used, Some(3));
}

#[test]
fn options_are_sent_as_soon_as_one_is_set() {
    assert!(!sends_options(false, false, false, false, false));
    assert!(sends_options(true, false, false, false, false));
    assert!(sends_options(false, true, false, false, false));
    assert!(sends_options(false, false, true, false, false));
    assert!(sends_options(false, false, false, true, false));
    assert!(sends_options(false, false, false, false, true));
    assert!(sends_options(true, true, true, true, true));
}
