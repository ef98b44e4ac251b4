//! The endpoints: each one hands a command to an agent or a result to the
//! bridge, and answers with a text.

use crate::agents::{
    get_agent, process_command, resolve, send_command, status_command, AgentMessage,
    AgentRegistry, StartupError,
};
use crate::bridge::{settled, Bridge, Cursor, Receipt, Received, ReceivedView};
use crate::mcp_server::{
    greeting, process_agent_reply, queued, queued_reply, random_number_reply, startup_failure,
    startup_failure_text, unavailable, unavailable_text, PatternClockMCP,
};
use crate::text::{decimal, decimal_text};
use vstd::prelude::*;
use vstd::string::*;

verus! {

/// The answer to a status request that was put into an agent's mailbox.
pub open spec fn status_requested_text(agent_id: u8) -> Seq<char> {
    "Status request sent to Agent"@ + decimal(agent_id as nat)
}

/// The answer of the endpoints that no longer exist.
pub open spec fn removed_text() -> Seq<char> {
    "Endpoint removed - use MCP endpoints instead"@
}

/// What a process endpoint answers: the failure of the startup, else the
/// confirmation where the agent is there, else that it is not available.
pub open spec fn process_outcome(
    pool: Seq<ractor::ActorRef<AgentMessage>>,
    startup: Result<(), StartupError>,
    agent_id: u8,
    data: Seq<char>,
) -> Result<Seq<char>, Seq<char>> {
    match startup {
        Err(error) => Err(startup_failure_text(error)),
        Ok(_) => if resolve(pool, agent_id) is Some {
            Ok(queued_reply(agent_id, data))
        } else {
            Err(unavailable_text(agent_id))
        },
    }
}

/// What the status endpoint answers.
pub open spec fn status_outcome(
    pool: Seq<ractor::ActorRef<AgentMessage>>,
    startup: Result<(), StartupError>,
    agent_id: u8,
) -> Result<Seq<char>, Seq<char>> {
    match startup {
        Err(error) => Err(startup_failure_text(error)),
        Ok(_) => if resolve(pool, agent_id) is Some {
            Ok(status_requested_text(agent_id))
        } else {
            Err(unavailable_text(agent_id))
        },
    }
}

/// Whether `result` holds the texts of `outcome`.
pub open spec fn answers(result: Result<String, String>, outcome: Result<Seq<char>, Seq<char>>) -> bool {
    match result {
        Ok(text) => outcome == Ok::<Seq<char>, Seq<char>>(text@),
        Err(text) => outcome == Err::<Seq<char>, Seq<char>>(text@),
    }
}

/// Echoes `input`, and hands it to the first agent where that agent is there.
pub fn echo_server(registry: &AgentRegistry, input: String) -> (echoed: String)
    ensures
        echoed@ == input@,
{
    if let Some(handle) = get_agent(registry, 1) {
        send_command(handle, process_command(input.as_str()));
    }
    input
}

/// Hands `data` to the agent with the given id. `startup` is how the startup
/// of the pool went.
pub fn process_agent_dynamic(
    registry: &AgentRegistry,
    startup: &Result<(), StartupError>,
    id: u8,
    data: String,
) -> (result: Result<String, String>)
    ensures
        answers(result, process_outcome(registry@, *startup, id, data@)),
{
    if let Err(error) = startup {
        return Err(startup_failure(error));
    }
    match get_agent(registry, id) {
        Some(handle) => {
            send_command(handle, process_command(data.as_str()));
            Ok(queued(id, data.as_str()))
        },
        None => Err(unavailable(id)),
    }
}

/// Hands `data` to agent 1.
pub fn process_agent1(
    registry: &AgentRegistry,
    startup: &Result<(), StartupError>,
    data: String,
) -> (result: Result<String, String>)
    ensures
        answers(result, process_outcome(registry@, *startup, 1, data@)),
{
    process_agent_dynamic(registry, startup, 1, data)
}

/// Hands `data` to agent 2.
pub fn process_agent2(
    registry: &AgentRegistry,
    startup: &Result<(), StartupError>,
    data: String,
) -> (result: Result<String, String>)
    ensures
        answers(result, process_outcome(registry@, *startup, 2, data@)),
{
    process_agent_dynamic(registry, startup, 2, data)
}

/// Hands `data` to agent 3.
pub fn process_agent3(
    registry: &AgentRegistry,
    startup: &Result<(), StartupError>,
    data: String,
) -> (result: Result<String, String>)
    ensures
        answers(result, process_outcome(registry@, *startup, 3, data@)),
{
    process_agent_dynamic(registry, startup, 3, data)
}

/// Hands `data` to agent 4.
pub fn process_agent4(
    registry: &AgentRegistry,
    startup: &Result<(), StartupError>,
    data: String,
) -> (result: Result<String, String>)
    ensures
        answers(result, process_outcome(registry@, *startup, 4, data@)),
{
    process_agent_dynamic(registry, startup, 4, data)
}

/// Hands `data` to agent 5.
pub fn process_agent5(
    registry: &AgentRegistry,
    startup: &Result<(), StartupError>,
    data: String,
) -> (result: Result<String, String>)
    ensures
        answers(result, process_outcome(registry@, *startup, 5, data@)),
{
    process_agent_dynamic(registry, startup, 5, data)
}

/// Asks the agent with the given id to report its status.
pub fn get_agent_status(registry: &AgentRegistry, startup: &Result<(), StartupError>, id: u8) -> (result:
    Result<String, String>)
    ensures
        answers(result, status_outcome(registry@, *startup, id)),
{
    if let Err(error) = startup {
        return Err(startup_failure(error));
    }
    match get_agent(registry, id) {
        Some(handle) => {
            send_command(handle, status_command());
            let mut text = String::from_str("Status request sent to Agent");
            let number = decimal_text(id as u64);
            text.append(number.as_str());
            Ok(text)
        },
        None => Err(unavailable(id)),
    }
}

/// Publishes `result` on the bridge for whoever listens, and hands it back.
pub fn republish(bridge: &Bridge, result: String) -> (same: String)
    ensures
        same@ == result@,
{
    let _ = bridge.publish(result.clone());
    result
}

/// Runs the example tool and publishes its answer.
pub fn mcp_example_tool(bridge: &Bridge) -> (text: String)
    ensures
        text@ == greeting(),
{
    let mcp_server = PatternClockMCP::new();
    let result = mcp_server.call_example_tool();
    republish(bridge, result)
}

/// Runs the random-number tool on `entropy` and publishes its answer.
pub fn mcp_random_number(bridge: &Bridge, entropy: u64) -> (text: String)
    ensures
        text@ == random_number_reply(entropy),
{
    let mcp_server = PatternClockMCP::new();
    let result = mcp_server.call_get_random_number(entropy);
    republish(bridge, result)
}

/// Runs the process-agent tool and publishes its answer.
pub fn mcp_process_agent(
    bridge: &Bridge,
    registry: &AgentRegistry,
    startup: &Result<(), StartupError>,
    agent_id: u8,
    data: String,
) -> (text: String)
    ensures
        text@ == process_agent_reply(registry@, *startup, agent_id, data@),
{
    let mcp_server = PatternClockMCP::new();
    let result = mcp_server.call_process_agent(registry, startup, agent_id, data);
    republish(bridge, result)
}

/// Answers a long poll whose bounded wait found `waited`: an event, nothing
/// this time, or that the bridge is closed, with the number of events the
/// subscriber lost to lag. A lagged subscriber gets one more look at once.
pub fn mcp_receive(cursor: &mut Cursor, waited: Received) -> (receipt: Receipt)
    ensures
        !(waited is Lagged) ==> receipt@ == settled(waited@, ReceivedView::NoEvent)
            && *final(cursor) == *old(cursor),
        exists|drained: ReceivedView| receipt@ == settled(waited@, drained),
{
    cursor.receive(waited)
}

/// The answer of an endpoint that no longer exists.
pub fn receive_signal_removed() -> (result: Result<String, String>)
    ensures
        result matches Err(text) && text@ == removed_text(),
{
    Err(String::from_str("Endpoint removed - use MCP endpoints instead"))
}

/// The answer of an endpoint that no longer exists.
pub fn send_signal_removed(_data: String) -> (result: Result<String, String>)
    ensures
        result matches Err(text) && text@ == removed_text(),
{
    Err(String::from_str("Endpoint removed - use MCP endpoints instead"))
}

} // verus!
