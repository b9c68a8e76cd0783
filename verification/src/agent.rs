use std::sync::Arc;
use vstd::prelude::*;
use crate::budget::IterationBudget;
use crate::message::Message;

verus! {

/// Receives the finished conversation of an agent, for example to store it.
pub trait SessionLogger: Send + Sync {
    fn log_session(&self, messages: &[Message], system_message: Option<&str>);
}

/// A batch of prompts that the agent answers one after another.
#[derive(Clone, Debug)]
pub struct BatchConfig {
    pub prompts: Vec<String>,
}

impl BatchConfig {
    /// The heading printed before the `i`-th prompt (counting from 0):
    /// "Batch i+1/n: prompt".
    pub fn heading(&self, i: usize) -> (h: String)
        requires
            i < self.prompts@.len(),
        ensures
            h@ == "Batch "@ + crate::text::decimal((i + 1) as nat) + "/"@
                + crate::text::decimal(self.prompts@.len()) + ": "@ + self.prompts@[i as int]@,
    {
        let n = self.prompts.len();
        let mut h = String::from_str("Batch ");
        crate::text::push_u64(&mut h, (i + 1) as u64);
        h.append("/");
        crate::text::push_u64(&mut h, n as u64);
        h.append(": ");
        h.append(self.prompts[i].as_str());
        h
    }
}

/// The settings with which an agent talks to its model.
#[derive(Clone)]
pub struct AgentConfig {
    pub model: String,
    pub base_url: Option<String>,
    pub api_key: Option<String>,
    pub max_iterations: usize,
    pub max_tokens: Option<usize>,
}

/// An agent: its settings, what is left of its iteration budget, and where
/// its finished sessions go.
#[derive(Clone)]
pub struct AIAgent {
    pub config: AgentConfig,
    pub budget: IterationBudget,
    pub logger: Option<Arc<dyn SessionLogger>>,
}

/// The token limit of the conversation context unless the settings name one.
pub const DEFAULT_CONTEXT_TOKENS: usize = 80000;

impl AgentConfig {
    /// The token limit of the conversation context: the configured one, or 80000.
    pub fn context_limit(&self) -> (n: usize)
        ensures
            self.max_tokens is Some ==> n == self.max_tokens->0,
            self.max_tokens is None ==> n == DEFAULT_CONTEXT_TOKENS,
    {
        match self.max_tokens {
            Some(n) => n,
            None => DEFAULT_CONTEXT_TOKENS,
        }
    }
}

impl AIAgent {
    /// Hands the finished conversation to the session logger, if the agent has one.
    pub fn log_session_to_db(&self, messages: &[Message], system_message: Option<&str>) {
        match &self.logger {
            Some(logger) => logger.log_session(messages, system_message),
            None => {},
        }
    }
}

} // verus!

verus! {

/// The model that an agent talks to unless its builder names another.
pub const DEFAULT_MODEL: &'static str = "gpt-4o";

/// The number of model calls that one conversation may make unless the builder says otherwise.
pub const DEFAULT_MAX_ITERATIONS: usize = 90;

/// Builds an [`AIAgent`] setting by setting.
pub struct AIAgentBuilder {
    pub config: AgentConfig,
    pub logger: Option<Arc<dyn SessionLogger>>,
}

impl AIAgentBuilder {
    /// A builder with the default model, no endpoint or key of its own, the
    /// default iteration limit, no token limit and no session logger.
    pub fn new() -> (b: Self)
        ensures
            b.config.model@ == DEFAULT_MODEL@,
            b.config.base_url.is_none(),
            b.config.api_key.is_none(),
            b.config.max_iterations == DEFAULT_MAX_ITERATIONS,
            b.config.max_tokens.is_none(),
            b.logger.is_none(),
    {
        AIAgentBuilder {
            config: AgentConfig {
                model: String::from_str(DEFAULT_MODEL),
                base_url: None,
                api_key: None,
                max_iterations: DEFAULT_MAX_ITERATIONS,
                max_tokens: None,
            },
            logger: None,
        }
    }

    /// Sets the model name.
    pub fn model(self, model: &str) -> (b: Self)
        ensures
            b.config.model@ == model@,
            b.config.base_url == self.config.base_url,
            b.config.api_key == self.config.api_key,
            b.config.max_iterations == self.config.max_iterations,
            b.config.max_tokens == self.config.max_tokens,
            b.logger == self.logger,
    {
        let mut b = self;
        b.config.model = String::from_str(model);
        b
    }

    /// Sets the endpoint that requests go to.
    pub fn base_url(self, url: String) -> (b: Self)
        ensures
            b.config.model == self.config.model,
            b.config.base_url == Some(url),
            b.config.api_key == self.config.api_key,
            b.config.max_iterations == self.config.max_iterations,
            b.config.max_tokens == self.config.max_tokens,
            b.logger == self.logger,
    {
        let mut b = self;
        b.config.base_url = Some(url);
        b
    }

    /// Sets the key that requests carry.
    pub fn api_key(self, key: &str) -> (b: Self)
        ensures
            b.config.model == self.config.model,
            b.config.base_url == self.config.base_url,
            b.config.api_key is Some,
            b.config.api_key->0@ == key@,
            b.config.max_iterations == self.config.max_iterations,
            b.config.max_tokens == self.config.max_tokens,
            b.logger == self.logger,
    {
        let mut b = self;
        b.config.api_key = Some(String::from_str(key));
        b
    }

    /// Sets how many model calls one conversation may make.
    pub fn max_iterations(self, n: usize) -> (b: Self)
        ensures
            b.config.model == self.config.model,
            b.config.base_url == self.config.base_url,
            b.config.api_key == self.config.api_key,
            b.config.max_iterations == n,
            b.config.max_tokens == self.config.max_tokens,
            b.logger == self.logger,
    {
        let mut b = self;
        b.config.max_iterations = n;
        b
    }

    /// Sets the token limit above which the context is compressed.
    pub fn max_tokens(self, n: usize) -> (b: Self)
        ensures
            b.config.model == self.config.model,
            b.config.base_url == self.config.base_url,
            b.config.api_key == self.config.api_key,
            b.config.max_iterations == self.config.max_iterations,
            b.config.max_tokens == Some(n),
            b.logger == self.logger,
    {
        let mut b = self;
        b.config.max_tokens = Some(n);
        b
    }

    /// Sets where finished sessions are handed (`None` hands them nowhere).
    pub fn logger(self, logger: Option<Arc<dyn SessionLogger>>) -> (b: Self)
        ensures
            b.config == self.config,
            b.logger == logger,
    {
        let mut b = self;
        b.logger = logger;
        b
    }

    /// The agent with these settings and a full iteration budget.
    pub fn build(self) -> (agent: AIAgent)
        ensures
            agent.config == self.config,
            agent.budget@ == self.config.max_iterations,
            agent.logger == self.logger,
    {
        let budget = IterationBudget::new(self.config.max_iterations);
        AIAgent { config: self.config, budget, logger: self.logger }
    }
}

impl AIAgent {
    /// A builder with the default settings.
    pub fn builder() -> (b: AIAgentBuilder)
        ensures
            b.config.model@ == DEFAULT_MODEL@,
            b.config.base_url.is_none(),
            b.config.api_key.is_none(),
            b.config.max_iterations == DEFAULT_MAX_ITERATIONS,
            b.config.max_tokens.is_none(),
            b.logger.is_none(),
    {
        AIAgentBuilder::new()
    }

    /// The name of the model the agent talks to.
    pub fn model(&self) -> (m: &str)
        ensures
            m@ == self.config.model@,
    {
        self.config.model.as_str()
    }

    /// The endpoint the agent sends its requests to, if it has one of its own.
    pub fn base_url(&self) -> (u: Option<&str>)
        ensures
            u.is_some() == self.config.base_url.is_some(),
            u.is_some() ==> u->0@ == self.config.base_url->0@,
    {
        match &self.config.base_url {
            Some(url) => Some(url.as_str()),
            None => None,
        }
    }

    /// The key the agent's requests carry, if it has one of its own.
    pub fn api_key(&self) -> (k: Option<&str>)
        ensures
            k.is_some() == self.config.api_key.is_some(),
            k.is_some() ==> k->0@ == self.config.api_key->0@,
    {
        match &self.config.api_key {
            Some(key) => Some(key.as_str()),
            None => None,
        }
    }
}

} // verus!
