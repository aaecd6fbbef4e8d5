//! Service configuration and its startup validation.

use vstd::prelude::*;

use crate::error::EmbedError;
use crate::strutil::string_eq_str;

verus! {

/// All recognized options of the service. The unverified shell fills this in
/// from flags and environment variables; the checks in [`Config::validate`]
/// decide whether the process may start.
#[derive(Debug, Clone)]
pub struct Config {
    pub db_url: String,
    pub db_user: String,
    pub db_pass: String,
    pub db_namespace: String,
    pub db_database: String,
    /// Embedding provider: "ollama", "openai", or "together".
    pub embedding_provider: String,
    pub ollama_url: String,
    pub openai_api_key: Option<String>,
    pub together_api_key: Option<String>,
    pub embedding_model: String,
    pub batch_size: usize,
    pub pool_size: usize,
    pub retry_attempts: u32,
    pub retry_delay_ms: u64,
    pub batch_delay_ms: u64,
    pub monitoring_port: Option<u16>,
    pub parallel_workers: usize,
    /// Truncation limit, in characters, for the text sent to a provider.
    pub token_limit: usize,
    pub pool_max_size: usize,
    pub pool_timeout_secs: u64,
    pub pool_wait_timeout_secs: u64,
    pub pool_create_timeout_secs: u64,
    pub pool_recycle_timeout_secs: u64,
}

impl Config {
    /// A configuration is acceptable when provider credentials match the
    /// selected provider and every count or limit that must be positive is.
    pub open spec fn spec_valid(&self) -> bool {
        &&& !(self.embedding_provider@ == "openai"@ && self.openai_api_key is None)
        &&& !(self.embedding_provider@ == "together"@ && self.together_api_key is None)
        &&& self.batch_size != 0
        &&& self.pool_size != 0
        &&& self.pool_max_size != 0
        &&& self.pool_max_size >= self.pool_size
        &&& self.parallel_workers != 0
        &&& self.token_limit != 0
    }

    /// Checks the configuration, returning the first violated rule as a
    /// `Configuration` error.
    pub fn validate(&self) -> (r: Result<(), EmbedError>)
        ensures
            r is Ok <==> self.spec_valid(),
            r is Err ==> (r->Err_0) is Configuration,
    {
        if string_eq_str(&self.embedding_provider, "openai") && self.openai_api_key.is_none() {
            return Err(EmbedError::Configuration(
                "OpenAI API key is required when using OpenAI as embedding provider".to_owned(),
            ));
        }
        if string_eq_str(&self.embedding_provider, "together") && self.together_api_key.is_none() {
            return Err(EmbedError::Configuration(
                "Together AI API key is required when using Together AI as embedding provider"
                    .to_owned(),
            ));
        }
        if self.batch_size == 0 {
            return Err(EmbedError::Configuration(
                "Batch size must be greater than 0".to_owned(),
            ));
        }
        if self.pool_size == 0 {
            return Err(EmbedError::Configuration(
                "Pool size must be greater than 0".to_owned(),
            ));
        }
        if self.pool_max_size == 0 {
            return Err(EmbedError::Configuration(
                "Pool max size must be greater than 0".to_owned(),
            ));
        }
        if self.pool_max_size < self.pool_size {
            return Err(EmbedError::Configuration(
                "Pool max size must be greater than or equal to pool size".to_owned(),
            ));
        }
        if self.parallel_workers == 0 {
            return Err(EmbedError::Configuration(
                "Parallel workers must be greater than 0".to_owned(),
            ));
        }
        if self.token_limit == 0 {
            return Err(EmbedError::Configuration(
                "Token limit must be greater than 0".to_owned(),
            ));
        }
        Ok(())
    }
}

} // verus!
