use pattern_clock::agents::{
    ensure_agents_initialized, initialize_agents, Agent, AgentMessage, AgentRegistry, AgentState,
    SpawnOutcome, StartupError, StartupStep,
};
use pattern_clock::bridge::{Bridge, Delivery, Receipt, Received};
use pattern_clock::mcp_server::{queued, startup_failure, unavailable, PatternClockMCP};
use pattern_clock::shared::api::{
    echo_server, get_agent_status, mcp_example_tool, mcp_process_agent, mcp_random_number,
    mcp_receive, process_agent1, process_agent2, process_agent3, process_agent4, process_agent5,
    process_agent_dynamic, receive_signal_removed, republish, send_signal_removed,
};
use ractor::{Actor, ActorProcessingErr, ActorRef};
use std::sync::{Arc, Mutex};
use std::time::Duration;

type Lines = Arc<Mutex<Vec<String>>>;

struct Recorder {
    lines: Lines,
}

impl Actor for Recorder {
    type Msg = AgentMessage;
    type State = AgentState;
    type Arguments = u8;

    async fn pre_start(
        &self,
        _myself: ActorRef<Self::Msg>,
        agent_id: u8,
    ) -> Result<Self::State, ActorProcessingErr> {
        Ok(Agent { id: agent_id }.pre_start(agent_id).0)
    }

    async fn handle(
        &self,
        _myself: ActorRef<Self::Msg>,
        message: Self::Msg,
        state: &mut Self::State,
    ) -> Result<(), ActorProcessingErr> {
        let effect = Agent { id: state.id }.handle(message, state);
        self.lines.lock().unwrap().push(effect.log_line);
        Ok(())
    }
}

async fn ready_registry(lines: &Lines) -> AgentRegistry {
    let mut registry = AgentRegistry::new();
    while let StartupStep::Spawn(id) = ensure_agents_initialized(&registry) {
        let (handle, _running) =
            Actor::spawn(None, Recorder { lines: lines.clone() }, id).await.unwrap();
        initialize_agents(&mut registry, SpawnOutcome::Started(handle)).unwrap();
    }
    registry
}

async fn until_traced(lines: &Lines, wanted: &str) {
    for _ in 0..2000 {
        if lines.lock().unwrap().iter().any(|line| line == wanted) {
            return;
        }
        tokio::time::sleep(Duration::from_millis(1)).await;
    }
    panic!("never traced: {}", wanted);
}

fn with_pool<F, Fut>(work: F)
where
    F: FnOnce(AgentRegistry, Lines) -> Fut,
    Fut: std::future::Future<Output = ()>,
{
    let runtime = tokio::runtime::Builder::new_current_thread().enable_all().build().unwrap();
    runtime.block_on(async {
        let lines: Lines = Arc::new(Mutex::new(Vec::new()));
        let registry = ready_registry(&lines).await;
        work(registry, lines).await;
    });
}

fn started() -> Result<(), StartupError> {
    Ok(())
}

fn failed(agent_id: u8, reason: &str) -> Result<(), StartupError> {
    Err(StartupError::SpawnFailed { agent_id, reason: reason.to_string() })
}

#[test]
fn reply_texts_are_exact() {
    assert_eq!(queued(3, "hello"), "Message queued for Agent3: hello");
    assert_eq!(queued(5, ""), "Message queued for Agent5: ");
    assert_eq!(unavailable(0), "Agent0 is not available");
    assert_eq!(unavailable(200), "Agent200 is not available");
    let error = StartupError::SpawnFailed { agent_id: 4, reason: "boom".to_string() };
    assert_eq!(startup_failure(&error), "Failed to initialize agents: Failed to spawn Agent4: boom");
}

#[test]
fn example_tool_greets() {
    let tools = PatternClockMCP::new();
    assert_eq!(tools.example_tool(), "Hello from pattern-clock MCP server!");
    assert_eq!(tools.call_example_tool(), "Hello from pattern-clock MCP server!");
}

#[test]
fn random_number_is_below_a_thousand() {
    let tools = PatternClockMCP::new();
    assert_eq!(tools.get_random_number(0), "Random number: 0");
    assert_eq!(tools.get_random_number(999), "Random number: 999");
    assert_eq!(tools.get_random_number(1000), "Random number: 0");
    assert_eq!(tools.get_random_number(123456), "Random number: 456");
    assert_eq!(tools.call_get_random_number(u64::MAX), "Random number: 615");
}

#[test]
fn process_agent_tool_rejects_ids_outside_the_pool() {
    let tools = PatternClockMCP::new();
    for id in 1..=5u8 {
        assert_eq!(tools.admit_process_agent(id), Ok(()));
    }
    assert_eq!(
        tools.admit_process_agent(0),
        Err("Error: agent_id must be between 1 and 5, got 0".to_string())
    );
    assert_eq!(
        tools.admit_process_agent(6),
        Err("Error: agent_id must be between 1 and 5, got 6".to_string())
    );
    let registry = AgentRegistry::new();
    assert_eq!(
        tools.call_process_agent(&registry, &started(), 255, "x".to_string()),
        "Error: agent_id must be between 1 and 5, got 255"
    );
    assert_eq!(
        tools.call_process_agent(&registry, &failed(1, "down"), 0, "x".to_string()),
        "Error: agent_id must be between 1 and 5, got 0"
    );
}

#[test]
fn process_agent_tool_reports_a_failed_startup() {
    let tools = PatternClockMCP::new();
    let registry = AgentRegistry::new();
    assert_eq!(
        tools.call_process_agent(&registry, &failed(2, "down"), 3, "x".to_string()),
        "Error: Failed to initialize agents: Failed to spawn Agent2: down"
    );
}

#[test]
fn process_agent_tool_reports_a_missing_agent() {
    let tools = PatternClockMCP::new();
    let registry = AgentRegistry::new();
    assert_eq!(
        tools.call_process_agent(&registry, &started(), 3, "x".to_string()),
        "Error: Agent3 is not available"
    );
}

#[test]
fn process_agent_tool_hands_the_data_to_the_agent() {
    with_pool(|registry, lines| async move {
        let tools = PatternClockMCP::new();
        let reply = tools.call_process_agent(&registry, &started(), 4, "work".to_string());
        assert_eq!(reply, "Message queued for Agent4: work");
        until_traced(&lines, "[Agent4] Processing data: 'work' | Total processed: 1").await;
    });
}

#[test]
fn commands_reach_one_agent_in_the_order_sent() {
    with_pool(|registry, lines| async move {
        for n in 0..50 {
            let reply = process_agent_dynamic(&registry, &started(), 2, format!("d{}", n));
            assert_eq!(reply, Ok(format!("Message queued for Agent2: d{}", n)));
        }
        until_traced(&lines, "[Agent2] Processing data: 'd49' | Total processed: 50").await;
        let traced = lines.lock().unwrap().clone();
        let expected: Vec<String> = (0..50)
            .map(|n| format!("[Agent2] Processing data: 'd{}' | Total processed: {}", n, n + 1))
            .collect();
        assert_eq!(traced, expected);
    });
}

#[test]
fn dynamic_endpoint_answers_for_every_id() {
    with_pool(|registry, lines| async move {
        for id in 1..=5u8 {
            let reply = process_agent_dynamic(&registry, &started(), id, "hello".to_string());
            assert_eq!(reply, Ok(format!("Message queued for Agent{}: hello", id)));
            until_traced(
                &lines,
                &format!("[Agent{}] Processing data: 'hello' | Total processed: 1", id),
            )
            .await;
        }
        assert_eq!(
            process_agent_dynamic(&registry, &started(), 0, "x".to_string()),
            Err("Agent0 is not available".to_string())
        );
        assert_eq!(
            process_agent_dynamic(&registry, &started(), 6, "x".to_string()),
            Err("Agent6 is not available".to_string())
        );
    });
}

#[test]
fn dynamic_endpoint_reports_a_failed_startup() {
    let registry = AgentRegistry::new();
    assert_eq!(
        process_agent_dynamic(&registry, &failed(1, "no runtime"), 1, "x".to_string()),
        Err("Failed to initialize agents: Failed to spawn Agent1: no runtime".to_string())
    );
    assert_eq!(
        process_agent_dynamic(&registry, &started(), 1, "x".to_string()),
        Err("Agent1 is not available".to_string())
    );
}

#[test]
fn numbered_endpoints_address_their_agents() {
    with_pool(|registry, lines| async move {
        let ok = started();
        assert_eq!(
            process_agent1(&registry, &ok, "a".to_string()),
            Ok("Message queued for Agent1: a".to_string())
        );
        assert_eq!(
            process_agent2(&registry, &ok, "b".to_string()),
            Ok("Message queued for Agent2: b".to_string())
        );
        assert_eq!(
            process_agent3(&registry, &ok, "c".to_string()),
            Ok("Message queued for Agent3: c".to_string())
        );
        assert_eq!(
            process_agent4(&registry, &ok, "d".to_string()),
            Ok("Message queued for Agent4: d".to_string())
        );
        assert_eq!(
            process_agent5(&registry, &ok, "e".to_string()),
            Ok("Message queued for Agent5: e".to_string())
        );
        until_traced(&lines, "[Agent1] Processing data: 'a' | Total processed: 1").await;
        until_traced(&lines, "[Agent2] Processing data: 'b' | Total processed: 1").await;
        until_traced(&lines, "[Agent3] Processing data: 'c' | Total processed: 1").await;
        until_traced(&lines, "[Agent4] Processing data: 'd' | Total processed: 1").await;
        until_traced(&lines, "[Agent5] Processing data: 'e' | Total processed: 1").await;
    });
}

#[test]
fn numbered_endpoints_report_missing_agents() {
    let registry = AgentRegistry::new();
    let ok = started();
    assert_eq!(process_agent1(&registry, &ok, String::new()), Err("Agent1 is not available".to_string()));
    assert_eq!(process_agent2(&registry, &ok, String::new()), Err("Agent2 is not available".to_string()));
    assert_eq!(process_agent3(&registry, &ok, String::new()), Err("Agent3 is not available".to_string()));
    assert_eq!(process_agent4(&registry, &ok, String::new()), Err("Agent4 is not available".to_string()));
    assert_eq!(process_agent5(&registry, &ok, String::new()), Err("Agent5 is not available".to_string()));
    let down = failed(5, "late");
    assert_eq!(
        process_agent3(&registry, &down, String::new()),
        Err("Failed to initialize agents: Failed to spawn Agent5: late".to_string())
    );
}

#[test]
fn status_endpoint_asks_the_agent() {
    with_pool(|registry, lines| async move {
        let ok = started();
        process_agent_dynamic(&registry, &ok, 2, "x".to_string()).unwrap();
        assert_eq!(
            get_agent_status(&registry, &ok, 2),
            Ok("Status request sent to Agent2".to_string())
        );
        until_traced(&lines, "[Agent2] Status - Processed: 1 messages, Last data: x").await;
        assert_eq!(get_agent_status(&registry, &ok, 9), Err("Agent9 is not available".to_string()));
        assert_eq!(
            get_agent_status(&registry, &failed(1, "down"), 2),
            Err("Failed to initialize agents: Failed to spawn Agent1: down".to_string())
        );
    });
}

#[test]
fn echo_returns_its_input_and_feeds_the_first_agent() {
    with_pool(|registry, lines| async move {
        assert_eq!(echo_server(&registry, "ping".to_string()), "ping");
        until_traced(&lines, "[Agent1] Processing data: 'ping' | Total processed: 1").await;
    });
    assert_eq!(echo_server(&AgentRegistry::new(), "alone".to_string()), "alone");
}

#[test]
fn tool_results_are_republished_on_the_bridge() {
    let bridge = Bridge::new();
    let mut cursor = bridge.subscribe();
    assert_eq!(republish(&bridge, "plain".to_string()), "plain");
    assert_eq!(mcp_example_tool(&bridge), "Hello from pattern-clock MCP server!");
    assert_eq!(mcp_random_number(&bridge, 4242), "Random number: 242");
    let registry = AgentRegistry::new();
    assert_eq!(
        mcp_process_agent(&bridge, &registry, &started(), 7, "x".to_string()),
        "Error: agent_id must be between 1 and 5, got 7"
    );
    assert_eq!(cursor.poll(), Received::Event("plain".to_string()));
    assert_eq!(cursor.poll(), Received::Event("Hello from pattern-clock MCP server!".to_string()));
    assert_eq!(cursor.poll(), Received::Event("Random number: 242".to_string()));
    assert_eq!(
        cursor.poll(),
        Received::Event("Error: agent_id must be between 1 and 5, got 7".to_string())
    );
    assert_eq!(cursor.poll(), Received::NoEvent);
}

#[test]
fn process_agent_endpoint_queues_and_republishes() {
    with_pool(|registry, lines| async move {
        let bridge = Bridge::new();
        let mut cursor = bridge.subscribe();
        let reply = mcp_process_agent(&bridge, &registry, &started(), 5, "job".to_string());
        assert_eq!(reply, "Message queued for Agent5: job");
        assert_eq!(cursor.poll(), Received::Event("Message queued for Agent5: job".to_string()));
        until_traced(&lines, "[Agent5] Processing data: 'job' | Total processed: 1").await;
    });
}

#[test]
fn long_poll_hands_back_the_event() {
    let bridge = Bridge::new();
    let mut cursor = bridge.subscribe();
    let receipt = mcp_receive(&mut cursor, Received::Event("r1".to_string()));
    assert_eq!(receipt, Receipt { delivery: Delivery::Event("r1".to_string()), skipped: 0 });
    assert_eq!(receipt.into_text(), "r1");
}

#[test]
fn long_poll_tells_a_closed_bridge_from_a_timeout() {
    let bridge = Bridge::new();
    let mut cursor = bridge.subscribe();
    let timed_out = mcp_receive(&mut cursor, Received::NoEvent);
    let closed = mcp_receive(&mut cursor, Received::Closed);
    assert_eq!(timed_out, Receipt { delivery: Delivery::Empty, skipped: 0 });
    assert_eq!(closed, Receipt { delivery: Delivery::Closed, skipped: 0 });
    assert_ne!(timed_out, closed);
    assert_eq!(timed_out.into_text(), "");
    assert_eq!(closed.into_text(), "");
}

#[test]
fn long_poll_signals_a_lag() {
    let bridge = Bridge::new();
    let mut cursor = bridge.subscribe();
    let nothing = mcp_receive(&mut cursor, Received::Lagged(2));
    assert_eq!(nothing, Receipt { delivery: Delivery::Empty, skipped: 2 });
    assert_ne!(nothing, mcp_receive(&mut cursor, Received::NoEvent));
    bridge.publish("retained".to_string());
    let recovered = mcp_receive(&mut cursor, Received::Lagged(2));
    assert_eq!(
        recovered,
        Receipt { delivery: Delivery::Event("retained".to_string()), skipped: 2 }
    );
    assert_ne!(recovered, mcp_receive(&mut cursor, Received::Event("retained".to_string())));
}

#[test]
fn long_poll_on_a_really_closed_bridge_is_terminal() {
    let bridge = Bridge::new();
    let mut cursor = bridge.subscribe();
    drop(bridge);
    let waited = cursor.poll();
    assert_eq!(waited, Received::Closed);
    assert_eq!(
        mcp_receive(&mut cursor, waited),
        Receipt { delivery: Delivery::Closed, skipped: 0 }
    );
}

#[test]
fn long_poll_on_a_really_lagged_cursor_recovers() {
    let bridge = Bridge::new();
    let mut cursor = bridge.subscribe();
    for n in 0..300 {
        bridge.publish(format!("e{}", n));
    }
    let waited = cursor.poll();
    let skipped = match waited {
        Received::Lagged(skipped) => skipped,
        other => panic!("expected a lag, found {:?}", other),
    };
    let receipt = mcp_receive(&mut cursor, waited);
    assert_eq!(receipt.skipped, skipped);
    assert_eq!(receipt.delivery, Delivery::Event(format!("e{}", skipped)));
}

#[test]
fn removed_endpoints_say_so() {
    let gone = Err("Endpoint removed - use MCP endpoints instead".to_string());
    assert_eq!(receive_signal_removed(), gone);
    assert_eq!(send_signal_removed("anything".to_string()), gone);
}
