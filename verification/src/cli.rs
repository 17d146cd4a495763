//! The settings the bot's program starts with: its command line and its
//! secrets file.
use vstd::prelude::*;

use crate::nlp::lm::ModelName;
use crate::nlp::ChatAgentConfig;
use crate::text::{nat_digits, trim};

verus! {

/// The log level when none is given.
pub const DEFAULT_RUST_LOG: &'static str = "info";

/// The language model service when none is given.
pub const DEFAULT_LM_ENDPOINT: &'static str = "https://hoss.faun-truck.ts.net/llm/";

/// The model the chat agent talks to.
pub const CHAT_MODEL: &'static str = "llama3.2:latest";

/// The file holding the chat agent's system prompt.
pub const SYSTEM_PROMPT_FILE: &'static str = "./prompts/ultron.md";

/// The Discord credentials, read from the secrets file.
#[derive(Debug, Clone, PartialEq)]
pub struct Secrets {
    pub discord_app_id: String,
    pub discord_public_key: String,
    pub discord_token: String,
}

/// The command line of the bot's program.
#[derive(Debug, Clone, PartialEq)]
pub struct Cli {
    /// port to listen on for HTTP requests
    pub port: u16,
    /// log filter, e.g. `info` or `ultron=debug`
    pub rust_log: String,
    /// address of the language model service
    pub lm_endpoint: String,
    /// port of the bot's tool server
    pub mcp_port: u16,
    /// path to the secrets file
    pub secrets: String,
}

impl Cli {
    /// The command line with the given required arguments and the
    /// defaults for the others.
    pub fn new(port: u16, mcp_port: u16, secrets: String) -> (r: Self)
        ensures
            r.port == port,
            r.mcp_port == mcp_port,
            r.secrets == secrets,
            r.rust_log@ == DEFAULT_RUST_LOG@,
            r.lm_endpoint@ == DEFAULT_LM_ENDPOINT@,
    {
        Cli {
            port,
            rust_log: String::from_str(DEFAULT_RUST_LOG),
            lm_endpoint: String::from_str(DEFAULT_LM_ENDPOINT),
            mcp_port,
            secrets,
        }
    }

    /// The address of the bot's tool server on this machine.
    pub fn mcp_uri(&self) -> (r: String)
        ensures
            r@ == "http://localhost:"@ + nat_digits(self.mcp_port as nat),
    {
        let mut r = String::from_str("http://localhost:");
        r.append(crate::text::string_of(&crate::text::format_u64(self.mcp_port as u64)).as_str());
        r
    }

    /// The chat agent's settings: the given language model service, the
    /// chat model, and the system prompt file.
    pub fn chat_agent_config(&self) -> (r: ChatAgentConfig)
        ensures
            r.llm_uri == self.lm_endpoint,
            r.llm_model.name() == CHAT_MODEL@,
            r.system_prompt@ == SYSTEM_PROMPT_FILE@,
    {
        ChatAgentConfig {
            llm_uri: self.lm_endpoint.clone(),
            llm_model: ModelName::from_name(CHAT_MODEL),
            system_prompt: String::from_str(SYSTEM_PROMPT_FILE),
        }
    }
}

/// The message the bot posts when it comes online: where it listens.
pub fn startup_message(hostname: &str, port: u16) -> (r: String)
    ensures
        r@ == "coming online, listening from "@ + trim(hostname@) + ":"@ + nat_digits(port as nat),
{
    let mut r = String::from_str("coming online, listening from ");
    let h = crate::text::trim_chars(&crate::text::chars_of(hostname));
    r.append(crate::text::string_of(&h).as_str());
    r.append(":");
    r.append(crate::text::string_of(&crate::text::format_u64(port as u64)).as_str());
    r
}

} // verus!
