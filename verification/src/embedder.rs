//! The embedder: one provider selected by configuration, composed with
//! text truncation, an inner retry loop, and an optional validator.
//!
//! The HTTP exchange with a provider happens in the shell; what stands
//! here is everything that decides: which provider a configuration
//! selects, how text is truncated before the call, what a provider
//! response amounts to, and whether an attempt's outcome is accepted,
//! retried, or failed for good.

use vstd::prelude::*;
use vstd::string::StrSliceExecFns;
use vstd::string::StringExecFns;

use crate::config::Config;
use crate::error::EmbedError;
use crate::strutil::string_eq_str;
use crate::validation::spec_verdict;
use crate::validation::together_e5_validator;
use crate::validation::EmbeddingValidator;
use crate::validation::ValidationConfig;

verus! {

/// The local-HTTP provider.
pub struct OllamaEmbedder {
    pub url: String,
    pub model: String,
}

impl OllamaEmbedder {
    pub fn new(url: &str, model: String) -> (r: Result<Self, EmbedError>)
        ensures
            r matches Ok(e) && e.url@ == url@ && e.model@ == model@,
    {
        Ok(OllamaEmbedder { url: url.to_owned(), model })
    }

    pub fn model_name(&self) -> (r: &str)
        ensures
            r@ == self.model@,
    {
        self.model.as_str()
    }
}

/// The cloud provider spoken to through its official client.
pub struct OpenAIEmbedder {
    pub api_key: String,
    pub model: String,
}

impl OpenAIEmbedder {
    pub fn new(api_key: &str, model: String) -> (r: Result<Self, EmbedError>)
        ensures
            r matches Ok(e) && e.api_key@ == api_key@ && e.model@ == model@,
    {
        Ok(OpenAIEmbedder { api_key: api_key.to_owned(), model })
    }

    pub fn model_name(&self) -> (r: &str)
        ensures
            r@ == self.model@,
    {
        self.model.as_str()
    }
}

/// The cloud provider spoken to over plain HTTPS.
pub struct TogetherAIEmbedder {
    pub api_key: String,
    pub model: String,
}

impl TogetherAIEmbedder {
    pub fn new(api_key: &str, model: String) -> (r: Result<Self, EmbedError>)
        ensures
            r matches Ok(e) && e.api_key@ == api_key@ && e.model@ == model@,
    {
        Ok(TogetherAIEmbedder { api_key: api_key.to_owned(), model })
    }

    pub fn model_name(&self) -> (r: &str)
        ensures
            r@ == self.model@,
    {
        self.model.as_str()
    }
}

/// The provider a configuration selected.
pub enum Provider {
    Ollama(OllamaEmbedder),
    OpenAI(OpenAIEmbedder),
    Together(TogetherAIEmbedder),
}

impl Provider {
    pub open spec fn spec_model(&self) -> Seq<char> {
        match self {
            Provider::Ollama(e) => e.model@,
            Provider::OpenAI(e) => e.model@,
            Provider::Together(e) => e.model@,
        }
    }

    pub fn model_name(&self) -> (r: &str)
        ensures
            r@ == self.spec_model(),
    {
        match self {
            Provider::Ollama(e) => e.model.as_str(),
            Provider::OpenAI(e) => e.model.as_str(),
            Provider::Together(e) => e.model.as_str(),
        }
    }
}

/// What one provider response amounts to: a non-2xx status is a provider
/// error, an empty embedding list is a provider error, and otherwise the
/// first returned vector is the result.
pub fn provider_response_outcome(status: u16, first_embedding: Option<Vec<u32>>) -> (r: Result<
    Vec<u32>,
    EmbedError,
>)
    ensures
        !(200 <= status < 300) ==> (r matches Err(e) && e is EmbeddingProvider),
        (200 <= status < 300) && first_embedding is None ==> (r matches Err(e)
            && e is EmbeddingProvider),
        (200 <= status < 300) ==> (first_embedding matches Some(bits) ==> r == Ok::<
            Vec<u32>,
            EmbedError,
        >(bits)),
{
    if !(200 <= status && status < 300) {
        return Err(EmbedError::EmbeddingProvider("provider returned a non-success status".to_owned()));
    }
    match first_embedding {
        Some(bits) => Ok(bits),
        None => Err(EmbedError::EmbeddingProvider("provider returned no embeddings".to_owned())),
    }
}

/// What the embedder does with the outcome of one attempt.
pub enum EmbedStep {
    /// The vector is accepted.
    Done(Vec<u32>),
    /// Sleep this many milliseconds and try again.
    RetryAfter(u64),
    /// Give up with this error.
    Fail(EmbedError),
}

/// Generates embeddings through the selected provider, truncating input
/// text and retrying failed or rejected attempts.
pub struct Embedder {
    pub provider: Provider,
    pub retry_attempts: u32,
    pub retry_delay_ms: u64,
    pub token_limit: usize,
    pub validator: Option<EmbeddingValidator>,
}

/// The configuration selects a provider it has credentials for.
pub open spec fn spec_provider_selection_valid(config: Config) -> bool {
    ||| config.embedding_provider@ == "ollama"@
    ||| (config.embedding_provider@ == "openai"@ && config.openai_api_key is Some)
    ||| ((config.embedding_provider@ == "together"@ || config.embedding_provider@ == "togetherai"@)
        && config.together_api_key is Some)
}

/// The model that gets a validator: 1024-dimensional normalized vectors.
pub open spec fn spec_validated_model() -> Seq<char> {
    "intfloat/multilingual-e5-large-instruct"@
}

impl Embedder {
    /// Builds the embedder that `config` describes: the named provider
    /// with its credentials, the configured truncation and retry settings,
    /// and a validator for the one model whose shape is pinned. A missing
    /// credential or an unknown provider name is a configuration error.
    pub fn new(config: &Config) -> (r: Result<Self, EmbedError>)
        ensures
            r is Ok <==> spec_provider_selection_valid(*config),
            r matches Err(e) ==> e is Configuration,
            r matches Ok(em) ==> {
                &&& em.retry_attempts == config.retry_attempts
                &&& em.retry_delay_ms == config.retry_delay_ms
                &&& em.token_limit == config.token_limit
                &&& em.provider.spec_model() == config.embedding_model@
                &&& (config.embedding_provider@ == "ollama"@ ==> (em.provider matches
                    Provider::Ollama(p) && p.url@ == config.ollama_url@))
                &&& (config.embedding_provider@ == "openai"@ ==> (em.provider matches
                    Provider::OpenAI(p) && p.api_key@ == config.openai_api_key->Some_0@))
                &&& ((config.embedding_provider@ == "together"@ || config.embedding_provider@
                    == "togetherai"@) ==> (em.provider matches Provider::Together(p) && p.api_key@
                    == config.together_api_key->Some_0@))
                &&& (em.validator matches Some(v) <==> config.embedding_model@
                    == spec_validated_model())
                &&& (em.validator matches Some(v) ==> v == together_e5_validator_config())
            },
    {
        proof {
            reveal_strlit("ollama");
            reveal_strlit("openai");
            reveal_strlit("together");
            reveal_strlit("togetherai");
            assert("ollama"@ != "openai"@) by {
                assert("ollama"@[1] == 'l');
                assert("openai"@[1] == 'p');
            }
            assert("ollama"@.len() == 6 && "openai"@.len() == 6 && "together"@.len() == 8
                && "togetherai"@.len() == 10);
        }
        let provider: Provider = if string_eq_str(&config.embedding_provider, "ollama") {
            match OllamaEmbedder::new(config.ollama_url.as_str(), config.embedding_model.clone()) {
                Ok(p) => Provider::Ollama(p),
                Err(e) => {
                    return Err(e);
                },
            }
        } else if string_eq_str(&config.embedding_provider, "openai") {
            match &config.openai_api_key {
                Some(key) => {
                    match OpenAIEmbedder::new(key.as_str(), config.embedding_model.clone()) {
                        Ok(p) => Provider::OpenAI(p),
                        Err(e) => {
                            return Err(e);
                        },
                    }
                },
                None => {
                    return Err(
                        EmbedError::Configuration("OpenAI API key not provided".to_owned()),
                    );
                },
            }
        } else if string_eq_str(&config.embedding_provider, "together") || string_eq_str(
            &config.embedding_provider,
            "togetherai",
        ) {
            match &config.together_api_key {
                Some(key) => {
                    match TogetherAIEmbedder::new(key.as_str(), config.embedding_model.clone()) {
                        Ok(p) => Provider::Together(p),
                        Err(e) => {
                            return Err(e);
                        },
                    }
                },
                None => {
                    return Err(
                        EmbedError::Configuration("Together AI API key not provided".to_owned()),
                    );
                },
            }
        } else {
            return Err(EmbedError::Configuration("Unknown embedding provider".to_owned()));
        };
        let validator: Option<EmbeddingValidator> = if string_eq_str(
            &config.embedding_model,
            "intfloat/multilingual-e5-large-instruct",
        ) {
            Some(together_e5_validator())
        } else {
            None
        };
        Ok(
            Embedder {
                provider,
                retry_attempts: config.retry_attempts,
                retry_delay_ms: config.retry_delay_ms,
                token_limit: config.token_limit,
                validator,
            },
        )
    }

    pub fn model_name(&self) -> (r: &str)
        ensures
            r@ == self.provider.spec_model(),
    {
        self.provider.model_name()
    }

    /// Truncates `text` to the token limit: text within the limit is
    /// returned unchanged; longer text is cut so that, with the three-dot
    /// ellipsis appended, exactly `token_limit` characters remain.
    pub fn truncate_text(&self, text: &str) -> (r: String)
        requires
            text@.len() <= self.token_limit || self.token_limit >= 3,
        ensures
            text@.len() <= self.token_limit ==> r@ == text@,
            text@.len() > self.token_limit ==> {
                &&& r@.len() == self.token_limit
                &&& r@ == text@.subrange(0, self.token_limit - 3) + "..."@
                &&& r@.subrange(self.token_limit - 3, self.token_limit as int) == "..."@
            },
    {
        let n = text.unicode_len();
        if n <= self.token_limit {
            return text.to_owned();
        }
        proof {
            reveal_strlit("...");
        }
        let head = text.substring_char(0, self.token_limit - 3);
        let mut s = head.to_owned();
        s.append("...");
        proof {
            assert(s@.len() == self.token_limit);
            assert(s@.subrange(self.token_limit - 3, self.token_limit as int) =~= "..."@);
        }
        s
    }

    /// Decides what to do with the outcome of one provider attempt.
    ///
    /// `attempts` counts this attempt. A provider error is retried after
    /// the configured delay until the attempt budget is spent, then handed
    /// back. An accepted vector is validated when a validator is
    /// installed; a rejected vector is retried like a failure while
    /// attempts remain, and otherwise fails with the validator's error.
    pub fn generate_step(
        &self,
        attempts: u32,
        outcome: Result<Vec<u32>, EmbedError>,
        magnitude_micros: u64,
        variance_picos: u64,
        context: &str,
    ) -> (r: EmbedStep)
        ensures
            outcome matches Err(e) ==> if attempts >= self.retry_attempts {
                r == EmbedStep::Fail(e)
            } else {
                r == EmbedStep::RetryAfter(self.retry_delay_ms)
            },
            outcome matches Ok(bits) ==> match self.validator {
                None => r == EmbedStep::Done(bits),
                Some(v) => {
                    let verdict = spec_verdict(v.config, bits@, magnitude_micros, variance_picos);
                    if verdict is None {
                        r == EmbedStep::Done(bits)
                    } else if attempts < self.retry_attempts {
                        r == EmbedStep::RetryAfter(self.retry_delay_ms)
                    } else {
                        r matches EmbedStep::Fail(e) && match e {
                            EmbedError::Validation { context: c, reason } => c@ == context@
                                && Some(reason) == verdict,
                            EmbedError::InvalidDimension { expected, actual } => Some(
                                crate::error::ValidationFailure::WrongDimension { expected, actual },
                            ) == verdict,
                            _ => false,
                        }
                    }
                },
            },
    {
        match outcome {
            Err(e) => {
                if attempts >= self.retry_attempts {
                    EmbedStep::Fail(e)
                } else {
                    EmbedStep::RetryAfter(self.retry_delay_ms)
                }
            },
            Ok(bits) => {
                match &self.validator {
                    None => EmbedStep::Done(bits),
                    Some(v) => {
                        match v.validate(&bits, magnitude_micros, variance_picos, context) {
                            Ok(()) => EmbedStep::Done(bits),
                            Err(e) => {
                                if attempts < self.retry_attempts {
                                    EmbedStep::RetryAfter(self.retry_delay_ms)
                                } else {
                                    EmbedStep::Fail(e)
                                }
                            },
                        }
                    },
                }
            },
        }
    }

    /// Installs or removes the validator.
    pub fn set_validator(&mut self, validator: Option<EmbeddingValidator>)
        ensures
            *final(self) == (Embedder { validator, ..*old(self) }),
    {
        self.validator = validator;
    }

    /// Installs the default validator where none is set.
    pub fn enable_validation(&mut self)
        ensures
            old(self).validator is None ==> (final(self).validator matches Some(v) && v.config
                == ValidationConfig::spec_default()),
            old(self).validator is Some ==> *final(self) == *old(self),
            final(self).provider == old(self).provider,
            final(self).retry_attempts == old(self).retry_attempts,
            final(self).retry_delay_ms == old(self).retry_delay_ms,
            final(self).token_limit == old(self).token_limit,
    {
        if self.validator.is_none() {
            self.validator = Some(EmbeddingValidator::default());
        }
    }

    /// Removes the validator.
    pub fn disable_validation(&mut self)
        ensures
            *final(self) == (Embedder { validator: None, ..*old(self) }),
    {
        self.validator = None;
    }
}

/// The validator [`together_e5_validator`] builds, as a value.
pub open spec fn together_e5_validator_config() -> EmbeddingValidator {
    EmbeddingValidator {
        config: ValidationConfig {
            expected_dimension: Some(1024usize),
            min_dimension: 1024,
            max_dimension: 1024,
            min_magnitude_micros: 500_000,
            max_magnitude_micros: 2_000_000,
            ..ValidationConfig::spec_default()
        },
    }
}

} // verus!
