//! The settings of the language-model providers.

use crate::json::{JsonModel, JsonValue};
use crate::matching::is_blank;
use crate::models::{ErrorKind, PipelineError};
use crate::text::{from_chars, strip_bounds, to_chars, trimmed, Strip};
use vstd::prelude::*;
use vstd::string::StringExecFns;

verus! {

/// How one provider is reached.
#[derive(Debug, Clone, Default)]
pub struct ProviderConfig {
    pub enabled: bool,
    /// The address of a self-hosted model server.
    pub host: Option<String>,
    /// The key of a hosted model service.
    pub api_key: Option<String>,
}

/// The settings that all providers share. There are none.
#[derive(Debug, Clone)]
pub struct ProvidersConfig {}

/// The model to ask for one task.
#[derive(Debug, Clone, Default)]
pub struct ModelConfig {
    /// The model's name where the provider has none of its own.
    pub name: String,
    /// The model's name at the self-hosted server; empty where there is none.
    pub ollama: String,
    /// The model's name at the hosted service; empty where there is none.
    pub claude: String,
    pub max_tokens: u32,
}

/// The models of the two tasks that ask a model.
#[derive(Debug, Clone, Default)]
pub struct ModelsConfig {
    pub sentence_to_json: ModelConfig,
    pub find_endpoint: ModelConfig,
}

/// Chooses a model's name for a provider.
pub struct ProviderSelector;

impl ProviderSelector {
    /// The name by which `config` calls the model at the provider in use.
    pub open spec fn model_name(config: ModelConfig, is_claude: bool) -> Seq<char> {
        let own = if is_claude {
            config.claude@
        } else {
            config.ollama@
        };
        if own.len() > 0 {
            own
        } else {
            config.name@
        }
    }

    /// The model's name for the provider in use: the provider's own name for
    /// it where `config` gives one, else the general name.
    pub fn get_model_name(config: &ModelConfig, is_claude: bool) -> (r: String)
        ensures
            r@ == Self::model_name(*config, is_claude),
    {
        if is_claude {
            if config.claude.as_str().unicode_len() > 0 {
                config.claude.clone()
            } else {
                config.name.clone()
            }
        } else {
            if config.ollama.as_str().unicode_len() > 0 {
                config.ollama.clone()
            } else {
                config.name.clone()
            }
        }
    }
}

/// The hosted model service.
#[derive(Debug, Clone)]
pub struct ClaudeProvider {
    pub api_key: String,
}

impl ClaudeProvider {
    /// The provider that `config` describes, which must hold a key.
    pub fn new(config: &ProviderConfig) -> (r: ClaudeProvider)
        requires
            config.api_key is Some,
        ensures
            r.api_key@ == config.api_key.unwrap()@,
    {
        match &config.api_key {
            Some(key) => ClaudeProvider { api_key: key.clone() },
            None => ClaudeProvider { api_key: String::new() },
        }
    }
}

/// The self-hosted model server.
#[derive(Debug, Clone)]
pub struct OllamaProvider {
    pub host: String,
}

impl OllamaProvider {
    /// The provider that `config` describes, which must hold a host.
    pub fn new(config: &ProviderConfig) -> (r: OllamaProvider)
        requires
            config.host is Some,
        ensures
            r.host@ == config.host.unwrap()@,
    {
        match &config.host {
            Some(host) => OllamaProvider { host: host.clone() },
            None => OllamaProvider { host: String::new() },
        }
    }
}

/// The text of the answer in the body `body` of the hosted service's reply:
/// the text `body.content[0].text`.
pub open spec fn claude_text(body: JsonModel) -> Option<Seq<char>> {
    match body.member("content"@) {
        Some(JsonModel::Array(items)) => if items.len() == 0 {
            None
        } else {
            match items[0].member("text"@) {
                Some(JsonModel::Str(text)) => Some(text),
                _ => None,
            }
        },
        _ => None,
    }
}

impl ClaudeProvider {
    /// The model's answer out of the body of the service's reply. A body of
    /// another shape is an error of class [`ErrorKind::Generation`].
    pub fn read_response(body: &JsonValue) -> (r: Result<String, PipelineError>)
        ensures
            match r {
                Ok(text) => claude_text(body@) == Some(text@),
                Err(e) => {
                    &&& claude_text(body@) is None
                    &&& e.kind == ErrorKind::Generation
                    &&& e.message@ == "Invalid response format"@
                },
            },
    {
        let items = match body.get("content") {
            Some(content) => content.as_array(),
            None => None,
        };
        let first = match items {
            Some(items) => if items.len() > 0 {
                items[0].get("text")
            } else {
                None
            },
            None => None,
        };
        match first {
            Some(JsonValue::Str(text)) => Ok(text.clone()),
            _ => Err(PipelineError::new(ErrorKind::Generation, "Invalid response format")),
        }
    }
}

impl OllamaProvider {
    /// The address to which a prompt is sent.
    pub fn generate_url(&self) -> (r: String)
        ensures
            r@ == self.host@ + "/api/generate"@,
    {
        let mut url = self.host.clone();
        url.append("/api/generate");
        url
    }

    /// The model's answer out of the server's reply: the trimmed text
    /// `response`. A reply whose status `status` is no success, and a blank
    /// answer, are errors of class [`ErrorKind::Generation`].
    pub fn read_response(success: bool, status: &str, response: &str) -> (r: Result<
        String,
        PipelineError,
    >)
        ensures
            match r {
                Ok(text) => success && !is_blank(response@) && text@ == trimmed(response@),
                Err(e) => {
                    &&& e.kind == ErrorKind::Generation
                    &&& if !success {
                        e.message@ == "Ollama request failed: "@ + status@
                    } else {
                        is_blank(response@) && e.message@ == "Empty response from Ollama"@
                    }
                },
            },
    {
        if !success {
            let mut message = String::from_str("Ollama request failed: ");
            message.append(status);
            return Err(PipelineError { kind: ErrorKind::Generation, message });
        }
        let chars = to_chars(response);
        assert(chars@.subrange(0, chars@.len() as int) == chars@);
        let (a, b) = strip_bounds(&chars, 0, chars.len(), Strip::Whitespace);
        if a == b {
            proof {
                crate::text::lemma_strip_all(chars@, Strip::Whitespace);
            }
            return Err(PipelineError::new(ErrorKind::Generation, "Empty response from Ollama"));
        }
        proof {
            crate::text::lemma_strip_all(chars@, Strip::Whitespace);
        }
        Ok(from_chars(&chars, a, b))
    }
}

/// A provider of either kind.
#[derive(Debug, Clone)]
pub enum Provider {
    Claude(ClaudeProvider),
    Ollama(OllamaProvider),
}

/// The provider that `config` describes: none where it is disabled; the
/// hosted service where it holds a key; else the self-hosted server where it
/// holds a host; else none.
pub fn create_provider(config: &ProviderConfig) -> (r: Option<Provider>)
    ensures
        match r {
            None => !config.enabled || (config.api_key is None && config.host is None),
            Some(Provider::Claude(p)) => {
                &&& config.enabled
                &&& config.api_key matches Some(key)
                &&& p.api_key@ == key@
            },
            Some(Provider::Ollama(p)) => {
                &&& config.enabled
                &&& config.api_key is None
                &&& config.host matches Some(host)
                &&& p.host@ == host@
            },
        },
{
    if !config.enabled {
        return None;
    }
    if config.api_key.is_some() {
        Some(Provider::Claude(ClaudeProvider::new(config)))
    } else if config.host.is_some() {
        Some(Provider::Ollama(OllamaProvider::new(config)))
    } else {
        None
    }
}

} // verus!
