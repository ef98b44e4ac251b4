//! The tools that the server offers: what each one answers, and which command
//! it hands to which agent.

use crate::agents::{
    get_agent, pool_ready, process_command, resolve, send_command, startup_error_text,
    valid_agent_id, AgentMessage, AgentRegistry, StartupError, AGENT_COUNT,
};
use crate::text::{decimal, decimal_text};
use vstd::prelude::*;
use vstd::string::*;

verus! {

/// The tool server.
pub struct PatternClockMCP {}

/// The greeting of the example tool.
pub open spec fn greeting() -> Seq<char> {
    "Hello from pattern-clock MCP server!"@
}

/// The answer of the random-number tool for the entropy it was given.
pub open spec fn random_number_reply(entropy: u64) -> Seq<char> {
    "Random number: "@ + decimal((entropy % 1000) as nat)
}

/// The answer to a request that names no agent of the pool.
pub open spec fn agent_id_error(agent_id: u8) -> Seq<char> {
    "Error: agent_id must be between 1 and 5, got "@ + decimal(agent_id as nat)
}

/// The answer to a request that was put into an agent's mailbox.
pub open spec fn queued_reply(agent_id: u8, data: Seq<char>) -> Seq<char> {
    "Message queued for Agent"@ + decimal(agent_id as nat) + ": "@ + data
}

/// The text that says that an agent cannot be reached.
pub open spec fn unavailable_text(agent_id: u8) -> Seq<char> {
    "Agent"@ + decimal(agent_id as nat) + " is not available"@
}

/// The text that says that the pool could not be started.
pub open spec fn startup_failure_text(error: StartupError) -> Seq<char> {
    "Failed to initialize agents: "@ + startup_error_text(
        error->SpawnFailed_agent_id,
        error->SpawnFailed_reason@,
    )
}

/// The answer of the process-agent tool. The id is judged first, then the
/// startup, then whether the agent is there.
pub open spec fn process_agent_reply(
    pool: Seq<ractor::ActorRef<AgentMessage>>,
    startup: Result<(), StartupError>,
    agent_id: u8,
    data: Seq<char>,
) -> Seq<char> {
    if !valid_agent_id(agent_id) {
        agent_id_error(agent_id)
    } else {
        match startup {
            Err(error) => "Error: "@ + startup_failure_text(error),
            Ok(_) => if resolve(pool, agent_id) is Some {
                queued_reply(agent_id, data)
            } else {
                "Error: "@ + unavailable_text(agent_id)
            },
        }
    }
}

/// Writes the text that says that an agent cannot be reached.
pub fn unavailable(agent_id: u8) -> (text: String)
    ensures
        text@ == unavailable_text(agent_id),
{
    let mut text = String::from_str("Agent");
    let id = decimal_text(agent_id as u64);
    text.append(id.as_str());
    text.append(" is not available");
    text
}

/// Writes the answer to a request that was put into an agent's mailbox.
pub fn queued(agent_id: u8, data: &str) -> (text: String)
    ensures
        text@ == queued_reply(agent_id, data@),
{
    let mut text = String::from_str("Message queued for Agent");
    let id = decimal_text(agent_id as u64);
    text.append(id.as_str());
    text.append(": ");
    text.append(data);
    text
}

/// Writes the text that says that the pool could not be started.
pub fn startup_failure(error: &StartupError) -> (text: String)
    ensures
        text@ == startup_failure_text(*error),
{
    let mut text = String::from_str("Failed to initialize agents: ");
    let reason = error.message();
    text.append(reason.as_str());
    text
}

impl PatternClockMCP {
    /// A tool server.
    pub fn new() -> PatternClockMCP {
        PatternClockMCP {}
    }

    /// The example tool: a greeting.
    pub fn example_tool(&self) -> (text: String)
        ensures
            text@ == greeting(),
    {
        String::from_str("Hello from pattern-clock MCP server!")
    }

    /// The random-number tool: a number below 1000, drawn from `entropy`.
    pub fn get_random_number(&self, entropy: u64) -> (text: String)
        ensures
            text@ == random_number_reply(entropy),
    {
        let mut text = String::from_str("Random number: ");
        let number = decimal_text(entropy % 1000);
        text.append(number.as_str());
        text
    }

    /// The example tool, for callers inside the program.
    pub fn call_example_tool(&self) -> (text: String)
        ensures
            text@ == greeting(),
    {
        self.example_tool()
    }

    /// The random-number tool, for callers inside the program.
    pub fn call_get_random_number(&self, entropy: u64) -> (text: String)
        ensures
            text@ == random_number_reply(entropy),
    {
        self.get_random_number(entropy)
    }

    /// Judges the id of a process-agent request before anything is asked of
    /// the registry: an id outside the pool is answered at once.
    pub fn admit_process_agent(&self, agent_id: u8) -> (admitted: Result<(), String>)
        ensures
            admitted is Ok <==> valid_agent_id(agent_id),
            admitted matches Err(text) ==> text@ == agent_id_error(agent_id),
    {
        if agent_id < 1 || agent_id > AGENT_COUNT {
            let mut text = String::from_str("Error: agent_id must be between 1 and 5, got ");
            let id = decimal_text(agent_id as u64);
            text.append(id.as_str());
            Err(text)
        } else {
            Ok(())
        }
    }

    /// The process-agent tool: hands `data` to the agent with the given id
    /// and says so, or says why it could not. `startup` is how the startup of
    /// the pool went; it counts only for an id of the pool.
    pub fn call_process_agent(
        &self,
        registry: &AgentRegistry,
        startup: &Result<(), StartupError>,
        agent_id: u8,
        data: String,
    ) -> (text: String)
        ensures
            text@ == process_agent_reply(registry@, *startup, agent_id, data@),
    {
        match self.admit_process_agent(agent_id) {
            Err(text) => {
                return text;
            },
            Ok(_) => {},
        }
        if let Err(error) = startup {
            let mut text = String::from_str("Error: ");
            let failure = startup_failure(error);
            text.append(failure.as_str());
            return text;
        }
        match get_agent(registry, agent_id) {
            Some(handle) => {
                send_command(handle, process_command(data.as_str()));
                queued(agent_id, data.as_str())
            },
            None => {
                let mut text = String::from_str("Error: ");
                let missing = unavailable(agent_id);
                text.append(missing.as_str());
                text
            },
        }
    }
}

/// A request for an id outside the pool is answered before the registry is
/// looked at: its answer depends neither on the pool nor on how the startup
/// went.
pub proof fn lemma_invalid_id_is_answered_at_once(
    pool: Seq<ractor::ActorRef<AgentMessage>>,
    startup: Result<(), StartupError>,
    agent_id: u8,
    data: Seq<char>,
)
    requires
        !valid_agent_id(agent_id),
    ensures
        process_agent_reply(pool, startup, agent_id, data) == agent_id_error(agent_id),
{
}

/// Once the pool is complete and its startup went well, a request for any
/// of its agents is queued; while the pool is incomplete, none is.
pub proof fn lemma_complete_pool_takes_requests(
    pool: Seq<ractor::ActorRef<AgentMessage>>,
    agent_id: u8,
    data: Seq<char>,
)
    requires
        valid_agent_id(agent_id),
    ensures
        pool_ready(pool) ==> process_agent_reply(pool, Ok(()), agent_id, data) == queued_reply(
            agent_id,
            data,
        ),
        !pool_ready(pool) ==> process_agent_reply(pool, Ok(()), agent_id, data) == "Error: "@
            + unavailable_text(agent_id),
{
}

} // verus!
