//! The static table of named model providers, and the lookup of each
//! provider's API key from its environment variable's value.

use vstd::prelude::*;
use vstd::string::StringExecFns;
use crate::errors::{CoreError, EnvVarError};
use crate::strutil::{all_whitespace, clone_opt_string, is_space_char, opt_str_view};

verus! {

/// Which wire protocol a provider speaks.
#[derive(Debug, Clone, Copy, PartialEq, Eq, Structural)]
pub enum WireApi {
    Responses,
    Chat,
    Devin,
}

impl Default for WireApi {
    fn default() -> (r: Self)
        ensures
            r == WireApi::Responses,
    {
        WireApi::Responses
    }
}

/// One named model-serving endpoint: its display name, base URL, the
/// environment variable holding its key (when it needs one), the
/// instructions shown when that variable is missing, and its wire
/// protocol.
#[derive(Debug, Clone, PartialEq)]
pub struct ModelProviderInfo {
    pub name: String,
    pub base_url: String,
    pub env_key: Option<String>,
    pub env_key_instructions: Option<String>,
    pub wire_api: WireApi,
}

impl ModelProviderInfo {
    /// Resolves this provider's API key from the value its environment
    /// variable currently has (`None` when the variable is unset or not
    /// readable). A provider without an `env_key` needs no key; a set
    /// but all-whitespace value counts as missing.
    pub fn api_key(&self, env_value: &Option<String>) -> (r: Result<Option<String>, CoreError>)
        ensures
            match self.env_key {
                None => r is Ok && r->Ok_0 is None,
                Some(k) => match *env_value {
                    None => r == Err::<Option<String>, CoreError>(
                        CoreError::EnvVar(
                            EnvVarError { var: k, instructions: self.env_key_instructions },
                        ),
                    ),
                    Some(v) => if forall|i: int|
                        0 <= i < v@.len() ==> is_space_char(#[trigger] v@[i]) {
                        r == Err::<Option<String>, CoreError>(
                            CoreError::EnvVar(
                                EnvVarError { var: k, instructions: self.env_key_instructions },
                            ),
                        )
                    } else {
                        r is Ok && r->Ok_0 is Some && r->Ok_0->0@ == v@
                    },
                },
            },
    {
        match &self.env_key {
            None => Ok(None),
            Some(k) => {
                match env_value {
                    None => Err(
                        CoreError::EnvVar(
                            EnvVarError {
                                var: k.clone(),
                                instructions: clone_opt_string(&self.env_key_instructions),
                            },
                        ),
                    ),
                    Some(v) => {
                        if all_whitespace(v.as_str()) {
                            Err(
                                CoreError::EnvVar(
                                    EnvVarError {
                                        var: k.clone(),
                                        instructions: clone_opt_string(&self.env_key_instructions),
                                    },
                                ),
                            )
                        } else {
                            Ok(Some(v.clone()))
                        }
                    },
                }
            },
        }
    }
}

/// The fields one provider entry must carry.
pub open spec fn spec_provider(
    p: ModelProviderInfo,
    name: Seq<char>,
    base_url: Seq<char>,
    env_key: Option<Seq<char>>,
    instructions: Option<Seq<char>>,
    wire_api: WireApi,
) -> bool {
    &&& p.name@ == name
    &&& p.base_url@ == base_url
    &&& opt_str_view(p.env_key) == env_key
    &&& opt_str_view(p.env_key_instructions) == instructions
    &&& p.wire_api == wire_api
}

fn provider(
    name: &str,
    base_url: &str,
    env_key: Option<&str>,
    instructions: Option<&str>,
    wire_api: WireApi,
) -> (p: ModelProviderInfo)
    ensures
        spec_provider(
            p,
            name@,
            base_url@,
            match env_key {
                Some(s) => Some(s@),
                None => None,
            },
            match instructions {
                Some(s) => Some(s@),
                None => None,
            },
            wire_api,
        ),
{
    let ek: Option<String> = match env_key {
        Some(s) => Some(s.to_owned()),
        None => None,
    };
    let ins: Option<String> = match instructions {
        Some(s) => Some(s.to_owned()),
        None => None,
    };
    ModelProviderInfo {
        name: name.to_owned(),
        base_url: base_url.to_owned(),
        env_key: ek,
        env_key_instructions: ins,
        wire_api,
    }
}

/// The built-in provider table, keyed by the provider's short name.
/// The entries are fixed and in fixed order; callers that want a map
/// may key one by the first component.
pub fn built_in_model_providers() -> (r: Vec<(String, ModelProviderInfo)>)
    ensures
        r@.len() == 9,
        r@[0].0@ == "openai"@ && spec_provider(
            r@[0].1,
            "OpenAI"@,
            "https://api.openai.com/v1"@,
            Some("OPENAI_API_KEY"@),
            Some(
                "Create an API key (https://platform.openai.com) and export it as an environment variable."@,
            ),
            WireApi::Responses,
        ),
        r@[1].0@ == "openrouter"@ && spec_provider(
            r@[1].1,
            "OpenRouter"@,
            "https://openrouter.ai/api/v1"@,
            Some("OPENROUTER_API_KEY"@),
            None,
            WireApi::Chat,
        ),
        r@[2].0@ == "gemini"@ && spec_provider(
            r@[2].1,
            "Gemini"@,
            "https://generativelanguage.googleapis.com/v1beta/openai"@,
            Some("GEMINI_API_KEY"@),
            None,
            WireApi::Chat,
        ),
        r@[3].0@ == "ollama"@ && spec_provider(
            r@[3].1,
            "Ollama"@,
            "http://localhost:11434/v1"@,
            None,
            None,
            WireApi::Chat,
        ),
        r@[4].0@ == "mistral"@ && spec_provider(
            r@[4].1,
            "Mistral"@,
            "https://api.mistral.ai/v1"@,
            Some("MISTRAL_API_KEY"@),
            None,
            WireApi::Chat,
        ),
        r@[5].0@ == "deepseek"@ && spec_provider(
            r@[5].1,
            "DeepSeek"@,
            "https://api.deepseek.com"@,
            Some("DEEPSEEK_API_KEY"@),
            None,
            WireApi::Chat,
        ),
        r@[6].0@ == "xai"@ && spec_provider(
            r@[6].1,
            "xAI"@,
            "https://api.x.ai/v1"@,
            Some("XAI_API_KEY"@),
            None,
            WireApi::Chat,
        ),
        r@[7].0@ == "groq"@ && spec_provider(
            r@[7].1,
            "Groq"@,
            "https://api.groq.com/openai/v1"@,
            Some("GROQ_API_KEY"@),
            None,
            WireApi::Chat,
        ),
        r@[8].0@ == "devin"@ && spec_provider(
            r@[8].1,
            "Devin"@,
            "https://api.devin.ai/v1"@,
            Some("DEVIN_API_KEY"@),
            Some(
                "Create a Devin API key (https://docs.devin.ai/api-reference) and export it as an environment variable."@,
            ),
            WireApi::Devin,
        ),
{
    let mut r: Vec<(String, ModelProviderInfo)> = Vec::new();
    r.push(
        (
            String::from_str("openai"),
            provider(
                "OpenAI",
                "https://api.openai.com/v1",
                Some("OPENAI_API_KEY"),
                Some(
                    "Create an API key (https://platform.openai.com) and export it as an environment variable.",
                ),
                WireApi::Responses,
            ),
        ),
    );
    r.push(
        (
            String::from_str("openrouter"),
            provider(
                "OpenRouter",
                "https://openrouter.ai/api/v1",
                Some("OPENROUTER_API_KEY"),
                None,
                WireApi::Chat,
            ),
        ),
    );
    r.push(
        (
            String::from_str("gemini"),
            provider(
                "Gemini",
                "https://generativelanguage.googleapis.com/v1beta/openai",
                Some("GEMINI_API_KEY"),
                None,
                WireApi::Chat,
            ),
        ),
    );
    r.push(
        (
            String::from_str("ollama"),
            provider("Ollama", "http://localhost:11434/v1", None, None, WireApi::Chat),
        ),
    );
    r.push(
        (
            String::from_str("mistral"),
            provider("Mistral", "https://api.mistral.ai/v1", Some("MISTRAL_API_KEY"), None, WireApi::Chat),
        ),
    );
    r.push(
        (
            String::from_str("deepseek"),
            provider("DeepSeek", "https://api.deepseek.com", Some("DEEPSEEK_API_KEY"), None, WireApi::Chat),
        ),
    );
    r.push(
        (
            String::from_str("xai"),
            provider("xAI", "https://api.x.ai/v1", Some("XAI_API_KEY"), None, WireApi::Chat),
        ),
    );
    r.push(
        (
            String::from_str("groq"),
            provider("Groq", "https://api.groq.com/openai/v1", Some("GROQ_API_KEY"), None, WireApi::Chat),
        ),
    );
    r.push(
        (
            String::from_str("devin"),
            provider(
                "Devin",
                "https://api.devin.ai/v1",
                Some("DEVIN_API_KEY"),
                Some(
                    "Create a Devin API key (https://docs.devin.ai/api-reference) and export it as an environment variable.",
                ),
                WireApi::Devin,
            ),
        ),
    );
    r
}

} // verus!
