//! The connection to a language-model server: how it is configured, what it
//! reports, and how its failures read.

use crate::text::{decimal, decimal_text};
use vstd::prelude::*;
use vstd::string::*;

verus! {

/// `reqwest::Error`. Nothing inside it is visible here.
#[verifier::external_type_specification]
#[verifier::external_body]
pub struct ExNetworkError(reqwest::Error);

/// `serde_json::Error`. Nothing inside it is visible here.
#[verifier::external_type_specification]
#[verifier::external_body]
pub struct ExParseError(serde_json::Error);

/// `reqwest::Client`. Nothing inside it is visible here.
#[verifier::external_type_specification]
#[verifier::external_body]
pub struct ExHttpClient(reqwest::Client);

/// Where the server listens unless told otherwise.
pub open spec fn default_base_url() -> Seq<char> {
    "http://localhost:11434"@
}

/// Seconds a request may take unless told otherwise.
pub const DEFAULT_TIMEOUT_SECS: u64 = 30;

/// What can go wrong on a connection.
#[derive(Debug)]
pub enum ConnectionError {
    /// The request did not get through.
    NetworkError(reqwest::Error),
    /// The answer could not be read.
    ParseError(serde_json::Error),
    /// The server answered with a failure.
    ApiError { status: u16, message: String },
    /// The server does not know the model.
    ModelNotFound(String),
    /// The connection could not be set up.
    ConfigurationError(String),
}

/// A model that the server offers.
#[derive(Debug, Clone)]
pub struct ModelInfo {
    pub name: String,
    pub size: Option<u64>,
    pub modified_at: Option<String>,
}

/// An answer of the model, with what the server says of it.
#[derive(Debug, Clone)]
pub struct LlmResponse {
    pub text: String,
    pub model: String,
    pub tokens_used: Option<u32>,
    pub total_duration: Option<u64>,
}

/// How to reach an Ollama server.
#[derive(Debug, Clone)]
pub struct OllamaConfig {
    pub base_url: String,
    pub timeout_secs: u64,
    pub default_model: Option<String>,
}

/// A connection to an Ollama server.
pub struct OllamaProvider {
    client: reqwest::Client,
    config: OllamaConfig,
}

impl From<reqwest::Error> for ConnectionError {
    fn from(err: reqwest::Error) -> (error: ConnectionError) {
        ConnectionError::NetworkError(err)
    }
}

impl vstd::std_specs::convert::FromSpecImpl<reqwest::Error> for ConnectionError {
    open spec fn obeys_from_spec() -> bool {
        true
    }

    open spec fn from_spec(err: reqwest::Error) -> ConnectionError {
        ConnectionError::NetworkError(err)
    }
}

impl From<serde_json::Error> for ConnectionError {
    fn from(err: serde_json::Error) -> (error: ConnectionError) {
        ConnectionError::ParseError(err)
    }
}

impl vstd::std_specs::convert::FromSpecImpl<serde_json::Error> for ConnectionError {
    open spec fn obeys_from_spec() -> bool {
        true
    }

    open spec fn from_spec(err: serde_json::Error) -> ConnectionError {
        ConnectionError::ParseError(err)
    }
}

impl Default for OllamaConfig {
    fn default() -> (config: OllamaConfig)
        ensures
            config.base_url@ == default_base_url(),
            config.timeout_secs == DEFAULT_TIMEOUT_SECS,
            config.default_model is None,
    {
        OllamaConfig {
            base_url: String::from_str("http://localhost:11434"),
            timeout_secs: DEFAULT_TIMEOUT_SECS,
            default_model: None,
        }
    }
}

/// The message of an API failure.
pub open spec fn api_error_text(status: u16, message: Seq<char>) -> Seq<char> {
    "API error (status "@ + decimal(status as nat) + "): "@ + message
}

/// Whether an HTTP status stands for success.
pub open spec fn success_status(status: u16) -> bool {
    200 <= status < 300
}

/// The words of `reqwest::Error`'s `Display`. Nothing is claimed of them.
#[verifier::external_body]
fn network_error_text(err: &reqwest::Error) -> (text: String) {
    format!("{}", err)
}

/// The words of `serde_json::Error`'s `Display`. Nothing is claimed of them.
#[verifier::external_body]
fn parse_error_text(err: &serde_json::Error) -> (text: String) {
    format!("{}", err)
}

/// Builds a client with `reqwest::Client::builder`, its `timeout` and
/// `build`; a failure is handed on in the words of its `Display`. Whether the
/// client can be built depends on the machine, so nothing is claimed.
#[verifier::external_body]
fn build_client(timeout_secs: u64) -> (built: Result<reqwest::Client, String>) {
    reqwest::Client::builder()
        .timeout(std::time::Duration::from_secs(timeout_secs))
        .build()
        .map_err(|err| format!("{}", err))
}

impl ConnectionError {
    /// The message of this error. For a failure that comes from outside, its
    /// own words follow the prefix.
    pub fn message(&self) -> (text: String)
        ensures
            match *self {
                ConnectionError::NetworkError(_) => "Network error: "@.is_prefix_of(text@),
                ConnectionError::ParseError(_) => "Parse error: "@.is_prefix_of(text@),
                ConnectionError::ApiError { status, message } => text@ == api_error_text(
                    status,
                    message@,
                ),
                ConnectionError::ModelNotFound(model) => text@ == "Model not found: "@ + model@,
                ConnectionError::ConfigurationError(why) => text@ == "Configuration error: "@
                    + why@,
            },
    {
        match self {
            ConnectionError::NetworkError(err) => {
                let mut text = String::from_str("Network error: ");
                let words = network_error_text(err);
                text.append(words.as_str());
                text
            },
            ConnectionError::ParseError(err) => {
                let mut text = String::from_str("Parse error: ");
                let words = parse_error_text(err);
                text.append(words.as_str());
                text
            },
            ConnectionError::ApiError { status, message } => {
                let mut text = String::from_str("API error (status ");
                let number = decimal_text(*status as u64);
                text.append(number.as_str());
                text.append("): ");
                text.append(message.as_str());
                text
            },
            ConnectionError::ModelNotFound(model) => {
                let mut text = String::from_str("Model not found: ");
                text.append(model.as_str());
                text
            },
            ConnectionError::ConfigurationError(why) => {
                let mut text = String::from_str("Configuration error: ");
                text.append(why.as_str());
                text
            },
        }
    }
}

/// Whether a generation request carries options: it does as soon as one of
/// them is set.
pub fn sends_options(
    temperature: bool,
    max_tokens: bool,
    top_p: bool,
    top_k: bool,
    repeat_penalty: bool,
) -> (sent: bool)
    ensures
        sent == (temperature || max_tokens || top_p || top_k || repeat_penalty),
{
    temperature || max_tokens || top_p || top_k || repeat_penalty
}

/// Whether an HTTP status stands for success.
pub fn is_success(status: u16) -> (success: bool)
    ensures
        success == success_status(status),
{
    200 <= status && status < 300
}

/// The error for a model list that the server refused. `status_line` is the
/// status as the server worded it.
pub fn list_models_failure(status: u16, status_line: &str) -> (error: ConnectionError)
    ensures
        error matches ConnectionError::ApiError { status: code, message } && code == status
            && message@ == "Failed to list models: "@ + status_line@,
{
    let mut message = String::from_str("Failed to list models: ");
    message.append(status_line);
    ConnectionError::ApiError { status, message }
}

/// The error for a generation that the server refused. `body` is what the
/// server sent along, where it could be read.
pub fn generate_failure(status: u16, body: Option<String>) -> (error: ConnectionError)
    ensures
        error matches ConnectionError::ApiError { status: code, message } && code == status
            && message@ == match body {
            Some(words) => words@,
            None => "Unknown error"@,
        },
{
    let message = match body {
        Some(words) => words,
        None => String::from_str("Unknown error"),
    };
    ConnectionError::ApiError { status, message }
}

impl OllamaProvider {
    /// The configuration of this connection.
    pub closed spec fn spec_config(&self) -> OllamaConfig {
        self.config
    }

    /// The client of this connection.
    pub closed spec fn spec_client(&self) -> reqwest::Client {
        self.client
    }

    /// The configuration for a server at `base_url`, or at the default
    /// address where none is given.
    pub fn config_for(base_url: Option<String>) -> (config: OllamaConfig)
        ensures
            config.base_url@ == match base_url {
                Some(url) => url@,
                None => default_base_url(),
            },
            config.timeout_secs == DEFAULT_TIMEOUT_SECS,
            config.default_model is None,
    {
        let standard = OllamaConfig::default();
        match base_url {
            Some(url) => OllamaConfig {
                base_url: url,
                timeout_secs: standard.timeout_secs,
                default_model: standard.default_model,
            },
            None => standard,
        }
    }

    /// Makes the connection out of the attempt to build its client: the
    /// connection where there is a client, else a configuration error that
    /// quotes the failure.
    pub fn assemble(built: Result<reqwest::Client, String>, config: OllamaConfig) -> (result: Result<
        OllamaProvider,
        ConnectionError,
    >)
        ensures
            match built {
                Ok(client) => result matches Ok(provider) && provider.spec_config() == config
                    && provider.spec_client() == client,
                Err(why) => result matches Err(ConnectionError::ConfigurationError(text))
                    && text@ == "Failed to create HTTP client: "@ + why@,
            },
    {
        match built {
            Ok(client) => Ok(OllamaProvider { client, config }),
            Err(why) => {
                let mut text = String::from_str("Failed to create HTTP client: ");
                text.append(why.as_str());
                Err(ConnectionError::ConfigurationError(text))
            },
        }
    }

    /// Connects to the server at `base_url`, or at the default address, with
    /// the default timeout.
    pub fn new(base_url: Option<String>) -> (result: Result<OllamaProvider, ConnectionError>)
        ensures
            match result {
                Ok(provider) => provider.spec_config().base_url@ == match base_url {
                    Some(url) => url@,
                    None => default_base_url(),
                } && provider.spec_config().timeout_secs == DEFAULT_TIMEOUT_SECS
                    && provider.spec_config().default_model is None,
                Err(error) => error matches ConnectionError::ConfigurationError(text)
                    && "Failed to create HTTP client: "@.is_prefix_of(text@),
            },
    {
        OllamaProvider::new_with_config(OllamaProvider::config_for(base_url))
    }

    /// Connects as `config` says.
    pub fn new_with_config(config: OllamaConfig) -> (result: Result<OllamaProvider, ConnectionError>)
        ensures
            match result {
                Ok(provider) => provider.spec_config() == config,
                Err(error) => error matches ConnectionError::ConfigurationError(text)
                    && "Failed to create HTTP client: "@.is_prefix_of(text@),
            },
    {
        let built = build_client(config.timeout_secs);
        OllamaProvider::assemble(built, config)
    }

    /// Connects through a client that the caller has built.
    pub fn new_with_client(client: reqwest::Client, base_url: String) -> (provider: OllamaProvider)
        ensures
            provider.spec_client() == client,
            provider.spec_config().base_url@ == base_url@,
            provider.spec_config().timeout_secs == DEFAULT_TIMEOUT_SECS,
            provider.spec_config().default_model is None,
    {
        OllamaProvider { client, config: OllamaProvider::config_for(Some(base_url)) }
    }

    /// The configuration of this connection.
    pub fn config(&self) -> (config: &OllamaConfig)
        ensures
            *config == self.spec_config(),
    {
        &self.config
    }

    /// The client of this connection.
    pub fn client(&self) -> (client: &reqwest::Client)
        ensures
            *client == self.spec_client(),
    {
        &self.client
    }

    /// The model to use where a request names none.
    pub fn default_model(&self) -> (model: Option<&str>)
        ensures
            match model {
                Some(name) => self.spec_config().default_model matches Some(set) && name@ == set@,
                None => self.spec_config().default_model is None,
            },
    {
        match &self.config.default_model {
            Some(name) => Some(name.as_str()),
            None => None,
        }
    }

    /// The name by which this kind of connection goes.
    pub fn provider_name(&self) -> (name: &'static str)
        ensures
            name@ == "Ollama"@,
    {
        "Ollama"
    }

    /// Where the list of models is asked for.
    pub fn tags_url(&self) -> (url: String)
        ensures
            url@ == self.spec_config().base_url@ + "/api/tags"@,
    {
        let mut url = self.config.base_url.clone();
        url.append("/api/tags");
        url
    }

    /// Where a generation is asked for.
    pub fn generate_url(&self) -> (url: String)
        ensures
            url@ == self.spec_config().base_url@ + "/api/generate"@,
    {
        let mut url = self.config.base_url.clone();
        url.append("/api/generate");
        url
    }
}

/// Connects to the server at the default address.
pub fn create_ollama_provider() -> (result: Result<OllamaProvider, ConnectionError>)
    ensures
        match result {
            Ok(provider) => provider.spec_config().base_url@ == default_base_url()
                && provider.spec_config().timeout_secs == DEFAULT_TIMEOUT_SECS
                && provider.spec_config().default_model is None,
            Err(error) => error matches ConnectionError::ConfigurationError(text)
                && "Failed to create HTTP client: "@.is_prefix_of(text@),
        },
{
    OllamaProvider::new(None)
}

} // verus!
