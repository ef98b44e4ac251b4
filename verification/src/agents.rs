//! Worker agents: the commands they accept, the state each one owns, and the
//! single step that turns a command into a state change and a trace line.

use crate::text::{decimal, decimal_text};
use vstd::prelude::*;
use vstd::string::*;

verus! {

/// Number of agents in the pool. Agent ids run from 1 to this value.
pub const AGENT_COUNT: u8 = 5;

/// Milliseconds an agent stays busy after it has processed data.
pub const PROCESSING_DELAY_MS: u64 = 10;

/// Whether `agent_id` names one of the agents of the pool.
pub open spec fn valid_agent_id(agent_id: u8) -> bool {
    1 <= agent_id <= AGENT_COUNT
}

/// A worker of the pool, known by its id.
pub struct Agent {
    /// The id of this agent, from 1 to `AGENT_COUNT`.
    pub id: u8,
}

/// A command that an agent accepts.
#[derive(Debug, Clone)]
pub enum AgentMessage {
    /// Process a payload and remember it.
    ProcessData { data: String },
    /// Report the current state.
    GetStatus,
    /// Run a named action with parameters.
    CustomAction { action: String, params: Vec<String> },
}

/// What an agent keeps between commands.
#[derive(Debug, Clone)]
pub struct AgentState {
    /// The id of the owning agent.
    pub id: u8,
    /// How many commands have changed this state.
    pub processed_count: u64,
    /// The payload processed last, if any.
    pub last_data: Option<String>,
}

/// What handling one command asks of the agent's surroundings.
#[derive(Debug, Clone)]
pub struct AgentEffect {
    /// The trace line to emit.
    pub log_line: String,
    /// How long the agent pauses before it takes the next command.
    pub delay_ms: u64,
}

/// A command as a mathematical value.
pub enum CommandView {
    ProcessData { data: Seq<char> },
    GetStatus,
    CustomAction { action: Seq<char>, params: Seq<Seq<char>> },
}

/// An agent's state as a mathematical value.
pub struct AgentStateView {
    pub id: u8,
    pub processed_count: nat,
    pub last_data: Option<Seq<char>>,
}

impl View for AgentMessage {
    type V = CommandView;

    open spec fn view(&self) -> CommandView {
        match *self {
            AgentMessage::ProcessData { data } => CommandView::ProcessData { data: data@ },
            AgentMessage::GetStatus => CommandView::GetStatus,
            AgentMessage::CustomAction { action, params } => CommandView::CustomAction {
                action: action@,
                params: params.deep_view(),
            },
        }
    }
}

impl View for AgentState {
    type V = AgentStateView;

    open spec fn view(&self) -> AgentStateView {
        AgentStateView {
            id: self.id,
            processed_count: self.processed_count as nat,
            last_data: match self.last_data {
                Some(data) => Some(data@),
                None => None,
            },
        }
    }
}

/// The state of an agent that has handled nothing yet.
pub open spec fn initial_state(agent_id: u8) -> AgentStateView {
    AgentStateView { id: agent_id, processed_count: 0, last_data: None }
}

/// Whether handling `command` counts as processed work.
pub open spec fn counts_as_processed(command: CommandView) -> bool {
    !(command is GetStatus)
}

/// The state that follows `state` once `command` has been handled.
pub open spec fn after_command(state: AgentStateView, command: CommandView) -> AgentStateView {
    match command {
        CommandView::ProcessData { data } => AgentStateView {
            id: state.id,
            processed_count: state.processed_count + 1,
            last_data: Some(data),
        },
        CommandView::GetStatus => state,
        CommandView::CustomAction { .. } => AgentStateView {
            id: state.id,
            processed_count: state.processed_count + 1,
            last_data: state.last_data,
        },
    }
}

/// The pause that follows `command`, in milliseconds.
pub open spec fn command_delay_ms(command: CommandView) -> u64 {
    if command is ProcessData {
        PROCESSING_DELAY_MS
    } else {
        0
    }
}

/// The prefix of every trace line of agent `agent_id`.
pub open spec fn agent_tag(agent_id: u8) -> Seq<char> {
    "[Agent"@ + decimal(agent_id as nat) + "] "@
}

/// The trace line of an agent that starts.
pub open spec fn start_line(agent_id: u8) -> Seq<char> {
    agent_tag(agent_id) + "Starting agent with ID "@ + decimal(agent_id as nat)
}

/// The trace line of processed data; `processed_count` is the count after it.
pub open spec fn processing_line(agent_id: u8, data: Seq<char>, processed_count: nat) -> Seq<
    char,
> {
    agent_tag(agent_id) + "Processing data: '"@ + data + "' | Total processed: "@ + decimal(
        processed_count,
    )
}

/// How a status line shows the last payload.
pub open spec fn last_data_text(last_data: Option<Seq<char>>) -> Seq<char> {
    match last_data {
        Some(data) => data,
        None => "none"@,
    }
}

/// The trace line of a status report.
pub open spec fn status_line(state: AgentStateView) -> Seq<char> {
    agent_tag(state.id) + "Status - Processed: "@ + decimal(state.processed_count)
        + " messages, Last data: "@ + last_data_text(state.last_data)
}

/// The list notation that `std` gives a vector of strings under `{:?}`.
pub uninterp spec fn debug_list(items: Seq<Seq<char>>) -> Seq<char>;

/// The trace line of a custom action whose parameters are listed as `listed`.
pub open spec fn custom_action_listed(agent_id: u8, action: Seq<char>, listed: Seq<char>) -> Seq<
    char,
> {
    agent_tag(agent_id) + "Custom action: '"@ + action + "' with params: "@ + listed
}

/// The trace line of a custom action.
pub open spec fn custom_action_line(agent_id: u8, action: Seq<char>, params: Seq<Seq<char>>) -> Seq<
    char,
> {
    custom_action_listed(agent_id, action, debug_list(params))
}

/// The trace line that handling `command` in `state` emits.
pub open spec fn command_line(state: AgentStateView, command: CommandView) -> Seq<char> {
    match command {
        CommandView::ProcessData { data } => processing_line(
            state.id,
            data,
            state.processed_count + 1,
        ),
        CommandView::GetStatus => status_line(state),
        CommandView::CustomAction { action, params } => custom_action_line(
            state.id,
            action,
            params,
        ),
    }
}

/// Formats a list of strings as `std`'s `Debug` does (`format!("{:?}", items)`):
/// trusted to be a function of the strings alone.
#[verifier::external_body]
fn debug_list_text(items: &Vec<String>) -> (text: String)
    ensures
        text@ == debug_list(items.deep_view()),
{
    format!("{:?}", items)
}

/// Writes the prefix of the trace lines of agent `agent_id`.
fn agent_tag_text(agent_id: u8) -> (text: String)
    ensures
        text@ == agent_tag(agent_id),
{
    let mut text = String::from_str("[Agent");
    let id = decimal_text(agent_id as u64);
    text.append(id.as_str());
    text.append("] ");
    text
}

/// Writes the trace line of a custom action whose parameters are listed as
/// `listed`.
pub fn custom_action_text(agent_id: u8, action: &str, listed: &str) -> (line: String)
    ensures
        line@ == custom_action_listed(agent_id, action@, listed@),
{
    let mut line = agent_tag_text(agent_id);
    line.append("Custom action: '");
    line.append(action);
    line.append("' with params: ");
    line.append(listed);
    line
}

/// The command that carries `data` to an agent for processing.
pub fn process_command(data: &str) -> (command: AgentMessage)
    ensures
        command@ == (CommandView::ProcessData { data: data@ }),
{
    AgentMessage::ProcessData { data: String::from_str(data) }
}

/// The command that asks an agent for its status.
pub fn status_command() -> (command: AgentMessage)
    ensures
        command@ == CommandView::GetStatus,
{
    AgentMessage::GetStatus
}

impl Agent {
    /// Starts the agent: the state it begins with, and the trace line that
    /// announces it.
    pub fn pre_start(&self, agent_id: u8) -> (started: (AgentState, String))
        ensures
            started.0@ == initial_state(agent_id),
            started.1@ == start_line(agent_id),
    {
        let mut line = agent_tag_text(agent_id);
        line.append("Starting agent with ID ");
        let id = decimal_text(agent_id as u64);
        line.append(id.as_str());
        (AgentState { id: agent_id, processed_count: 0, last_data: None }, line)
    }

    /// Handles one command: updates `state` and says what to trace and how
    /// long to pause. A status request leaves the state as it is.
    pub fn handle(&self, message: AgentMessage, state: &mut AgentState) -> (effect: AgentEffect)
        requires
            counts_as_processed(message@) ==> old(state).processed_count < u64::MAX,
        ensures
            final(state)@ == after_command(old(state)@, message@),
            effect.log_line@ == command_line(old(state)@, message@),
            effect.delay_ms == command_delay_ms(message@),
    {
        match message {
            AgentMessage::ProcessData { data } => {
                state.processed_count = state.processed_count + 1;
                let mut line = agent_tag_text(state.id);
                line.append("Processing data: '");
                line.append(data.as_str());
                line.append("' | Total processed: ");
                let count = decimal_text(state.processed_count);
                line.append(count.as_str());
                state.last_data = Some(data);
                AgentEffect { log_line: line, delay_ms: PROCESSING_DELAY_MS }
            },
            AgentMessage::GetStatus => {
                let mut line = agent_tag_text(state.id);
                line.append("Status - Processed: ");
                let count = decimal_text(state.processed_count);
                line.append(count.as_str());
                line.append(" messages, Last data: ");
                match &state.last_data {
                    Some(data) => {
                        line.append(data.as_str());
                    },
                    None => {
                        line.append("none");
                    },
                }
                AgentEffect { log_line: line, delay_ms: 0 }
            },
            AgentMessage::CustomAction { action, params } => {
                let listed = debug_list_text(&params);
                let line = custom_action_text(state.id, action.as_str(), listed.as_str());
                state.processed_count = state.processed_count + 1;
                AgentEffect { log_line: line, delay_ms: 0 }
            },
        }
    }
}

/// The state that follows `state` once all of `commands` have been handled in
/// order.
pub open spec fn after_commands(state: AgentStateView, commands: Seq<CommandView>) -> AgentStateView
    decreases commands.len(),
{
    if commands.len() == 0 {
        state
    } else {
        after_command(after_commands(state, commands.drop_last()), commands.last())
    }
}

/// How many of `commands` count as processed work.
pub open spec fn processed_among(commands: Seq<CommandView>) -> nat
    decreases commands.len(),
{
    if commands.len() == 0 {
        0
    } else {
        processed_among(commands.drop_last()) + if counts_as_processed(commands.last()) {
            1nat
        } else {
            0nat
        }
    }
}

/// The payload that `commands` leave behind: that of the last `ProcessData`
/// among them, or `before` where there is none.
pub open spec fn last_data_after(before: Option<Seq<char>>, commands: Seq<CommandView>) -> Option<
    Seq<char>,
>
    decreases commands.len(),
{
    if commands.len() == 0 {
        before
    } else {
        match commands.last() {
            CommandView::ProcessData { data } => Some(data),
            _ => last_data_after(before, commands.drop_last()),
        }
    }
}

/// No command lowers the counter or changes the id, and only a command that
/// counts as processed work raises the counter, by one.
pub proof fn lemma_counter_only_grows(state: AgentStateView, command: CommandView)
    ensures
        after_command(state, command).id == state.id,
        after_command(state, command).processed_count >= state.processed_count,
        after_command(state, command).processed_count == state.processed_count + if counts_as_processed(
            command,
        ) {
            1nat
        } else {
            0nat
        },
        !counts_as_processed(command) ==> after_command(state, command) == state,
{
}

/// After any run of commands the id is as before, the counter has grown by
/// the number of commands that count as processed work, and the remembered
/// payload is that of the last `ProcessData`.
pub proof fn lemma_commands_counted(state: AgentStateView, commands: Seq<CommandView>)
    ensures
        after_commands(state, commands).id == state.id,
        after_commands(state, commands).processed_count == state.processed_count
            + processed_among(commands),
        after_commands(state, commands).last_data == last_data_after(state.last_data, commands),
    decreases commands.len(),
{
    if commands.len() > 0 {
        lemma_commands_counted(state, commands.drop_last());
    }
}

/// `ractor::ActorRef`, the handle by which a running actor is reached.
/// Nothing inside it is visible here.
#[verifier::external_type_specification]
#[verifier::external_body]
#[verifier::reject_recursive_types(TMessage)]
pub struct ExActorRef<TMessage>(ractor::ActorRef<TMessage>);

/// Hands a command to an agent with `ractor::ActorRef::send_message`, which
/// puts it at the end of the agent's mailbox and does not wait for it to be
/// handled. A mailbox that no longer takes commands is passed over in silence,
/// as the callers do not act on it. Nothing is claimed of the call.
#[verifier::external_body]
pub(crate) fn send_command(handle: &ractor::ActorRef<AgentMessage>, command: AgentMessage) {
    let _ = handle.send_message(command);
}

/// What the registry asks of its driver next.
#[derive(Debug, Clone, Copy, PartialEq, Eq, Structural)]
pub enum StartupStep {
    /// The pool is complete: nothing is left to do.
    Ready,
    /// Spawn the agent with this id and report how it went.
    Spawn(u8),
}

/// How the attempt to spawn one agent ended.
pub enum SpawnOutcome {
    /// The agent runs and answers to this handle.
    Started(ractor::ActorRef<AgentMessage>),
    /// The agent could not be started, for the reason given.
    Failed(String),
}

/// Why the pool could not be started.
#[derive(Debug, Clone)]
pub enum StartupError {
    /// The agent with this id failed to spawn.
    SpawnFailed { agent_id: u8, reason: String },
}

/// Whether `pool` holds every agent.
pub open spec fn pool_ready(pool: Seq<ractor::ActorRef<AgentMessage>>) -> bool {
    pool.len() == AGENT_COUNT
}

/// What a driver has to do when the registry holds `pool`.
pub open spec fn next_step(pool: Seq<ractor::ActorRef<AgentMessage>>) -> StartupStep {
    if pool_ready(pool) {
        StartupStep::Ready
    } else {
        StartupStep::Spawn((pool.len() + 1) as u8)
    }
}

/// The pool that follows `pool` once `outcome` has been reported: a complete
/// pool never changes, a started agent joins, and a failure discards what was
/// collected.
pub open spec fn pool_after(
    pool: Seq<ractor::ActorRef<AgentMessage>>,
    outcome: SpawnOutcome,
) -> Seq<ractor::ActorRef<AgentMessage>> {
    if pool_ready(pool) {
        pool
    } else {
        match outcome {
            SpawnOutcome::Started(handle) => pool.push(handle),
            SpawnOutcome::Failed(_) => Seq::empty(),
        }
    }
}

/// The pool that follows `pool` once all of `outcomes` have been reported in
/// order.
pub open spec fn pool_after_all(
    pool: Seq<ractor::ActorRef<AgentMessage>>,
    outcomes: Seq<SpawnOutcome>,
) -> Seq<ractor::ActorRef<AgentMessage>>
    decreases outcomes.len(),
{
    if outcomes.len() == 0 {
        pool
    } else {
        pool_after(pool_after_all(pool, outcomes.drop_last()), outcomes.last())
    }
}

/// The agent that `agent_id` resolves to in `pool`: none unless the pool is
/// complete and the id is one of its agents.
pub open spec fn resolve(pool: Seq<ractor::ActorRef<AgentMessage>>, agent_id: u8) -> Option<
    ractor::ActorRef<AgentMessage>,
> {
    if pool_ready(pool) && valid_agent_id(agent_id) {
        Some(pool[agent_id - 1])
    } else {
        None
    }
}

/// The message of a startup error.
pub open spec fn startup_error_text(agent_id: u8, reason: Seq<char>) -> Seq<char> {
    "Failed to spawn Agent"@ + decimal(agent_id as nat) + ": "@ + reason
}

impl StartupError {
    /// The message of this error.
    pub fn message(&self) -> (text: String)
        ensures
            *self matches StartupError::SpawnFailed { agent_id, reason } && text@
                == startup_error_text(agent_id, reason@),
    {
        match self {
            StartupError::SpawnFailed { agent_id, reason } => {
                let mut text = String::from_str("Failed to spawn Agent");
                let id = decimal_text(*agent_id as u64);
                text.append(id.as_str());
                text.append(": ");
                text.append(reason.as_str());
                text
            },
        }
    }
}

/// The agents of the pool, in the order of their ids. It is empty at first,
/// grows while the pool starts, and is complete from then on.
pub struct AgentRegistry {
    handles: Vec<ractor::ActorRef<AgentMessage>>,
}

impl View for AgentRegistry {
    type V = Seq<ractor::ActorRef<AgentMessage>>;

    closed spec fn view(&self) -> Seq<ractor::ActorRef<AgentMessage>> {
        self.handles@
    }
}

impl AgentRegistry {
    /// A registry never holds more agents than the pool has.
    #[verifier::type_invariant]
    spec fn within_pool(&self) -> bool {
        self.handles@.len() <= AGENT_COUNT
    }

    /// A registry that holds no agent yet.
    pub fn new() -> (registry: AgentRegistry)
        ensures
            registry@ == Seq::<ractor::ActorRef<AgentMessage>>::empty(),
    {
        AgentRegistry { handles: Vec::new() }
    }

    /// Whether the pool is complete.
    pub fn is_initialized(&self) -> (ready: bool)
        ensures
            ready == pool_ready(self@),
    {
        self.handles.len() == AGENT_COUNT as usize
    }
}

/// Says what is left to do before the agents can be used: nothing once the
/// pool is complete, else the next agent to spawn.
pub fn ensure_agents_initialized(registry: &AgentRegistry) -> (step: StartupStep)
    ensures
        step == next_step(registry@),
        registry@.len() <= AGENT_COUNT,
{
    proof {
        use_type_invariant(registry);
    }
    let started: usize = registry.handles.len();
    if started == AGENT_COUNT as usize {
        StartupStep::Ready
    } else {
        StartupStep::Spawn((started + 1) as u8)
    }
}

/// Takes in the outcome of one spawn. A complete pool stays as it is. A
/// started agent joins the pool, which is published once the last one is in. A
/// failure fails the whole startup: what was collected is discarded.
pub fn initialize_agents(registry: &mut AgentRegistry, outcome: SpawnOutcome) -> (result: Result<
    StartupStep,
    StartupError,
>)
    ensures
        final(registry)@ == pool_after(old(registry)@, outcome),
        final(registry)@.len() <= AGENT_COUNT,
        match result {
            Ok(step) => (pool_ready(old(registry)@) || outcome is Started) && step == next_step(
                final(registry)@,
            ),
            Err(StartupError::SpawnFailed { agent_id, reason }) => !pool_ready(old(registry)@)
                && agent_id == old(registry)@.len() + 1 && (outcome matches SpawnOutcome::Failed(
                why,
            ) && reason@ == why@),
        },
{
    proof {
        use_type_invariant(&*registry);
    }
    let started: usize = registry.handles.len();
    if started == AGENT_COUNT as usize {
        return Ok(StartupStep::Ready);
    }
    match outcome {
        SpawnOutcome::Started(handle) => {
            let mut taken = AgentRegistry { handles: Vec::new() };
            core::mem::swap(registry, &mut taken);
            let mut handles = taken.handles;
            handles.push(handle);
            *registry = AgentRegistry { handles };
            Ok(ensure_agents_initialized(&*registry))
        },
        SpawnOutcome::Failed(reason) => {
            *registry = AgentRegistry { handles: Vec::new() };
            Err(StartupError::SpawnFailed { agent_id: (started + 1) as u8, reason })
        },
    }
}

/// Looks up the agent with the given id. There is one exactly when the pool
/// is complete and the id lies between 1 and `AGENT_COUNT`.
pub fn get_agent(registry: &AgentRegistry, agent_id: u8) -> (found: Option<
    &ractor::ActorRef<AgentMessage>,
>)
    ensures
        match found {
            Some(handle) => resolve(registry@, agent_id) == Some(*handle),
            None => resolve(registry@, agent_id) is None,
        },
{
    if registry.handles.len() == AGENT_COUNT as usize && 1 <= agent_id && agent_id <= AGENT_COUNT {
        Some(&registry.handles[(agent_id - 1) as usize])
    } else {
        None
    }
}

/// A pool is exposed whole or not at all: while it is incomplete no id
/// resolves, and once it is complete exactly the ids from 1 to `AGENT_COUNT`
/// resolve, each to the agent that was started for it.
pub proof fn lemma_resolve_all_or_nothing(pool: Seq<ractor::ActorRef<AgentMessage>>, agent_id: u8)
    ensures
        !pool_ready(pool) ==> resolve(pool, agent_id) is None,
        pool_ready(pool) ==> (resolve(pool, agent_id) is Some <==> valid_agent_id(agent_id)),
        pool_ready(pool) && valid_agent_id(agent_id) ==> resolve(pool, agent_id) == Some(
            pool[agent_id - 1],
        ),
{
}

/// A complete pool is final: whatever is reported afterwards, it stays as it
/// is and nothing more is asked for.
pub proof fn lemma_ready_pool_is_final(
    pool: Seq<ractor::ActorRef<AgentMessage>>,
    outcomes: Seq<SpawnOutcome>,
)
    requires
        pool_ready(pool),
    ensures
        pool_after_all(pool, outcomes) == pool,
        next_step(pool_after_all(pool, outcomes)) == StartupStep::Ready,
    decreases outcomes.len(),
{
    if outcomes.len() > 0 {
        lemma_ready_pool_is_final(pool, outcomes.drop_last());
    }
}

/// While every spawn succeeds, an empty registry asks for the agents one by
/// one in the order of their ids, each once, and keeps each handle at the
/// place of its id.
pub proof fn lemma_startup_in_order(outcomes: Seq<SpawnOutcome>)
    requires
        outcomes.len() <= AGENT_COUNT,
        forall|i: int| 0 <= i < outcomes.len() ==> #[trigger] outcomes[i] is Started,
    ensures
        pool_after_all(Seq::empty(), outcomes).len() == outcomes.len(),
        forall|i: int|
            0 <= i < outcomes.len() ==> #[trigger] pool_after_all(Seq::empty(), outcomes)[i]
                == outcomes[i]->Started_0,
        outcomes.len() < AGENT_COUNT ==> next_step(pool_after_all(Seq::empty(), outcomes))
            == StartupStep::Spawn((outcomes.len() + 1) as u8),
        outcomes.len() == AGENT_COUNT ==> next_step(pool_after_all(Seq::empty(), outcomes))
            == StartupStep::Ready,
    decreases outcomes.len(),
{
    if outcomes.len() > 0 {
        lemma_startup_in_order(outcomes.drop_last());
    }
}

/// Once all agents have been started from an empty registry, every id from 1
/// to `AGENT_COUNT` resolves to the agent started for it, and no other id
/// resolves.
pub proof fn lemma_started_pool_resolves(outcomes: Seq<SpawnOutcome>, agent_id: u8)
    requires
        outcomes.len() == AGENT_COUNT,
        forall|i: int| 0 <= i < outcomes.len() ==> #[trigger] outcomes[i] is Started,
    ensures
        valid_agent_id(agent_id) ==> resolve(pool_after_all(Seq::empty(), outcomes), agent_id)
            == Some(outcomes[agent_id - 1]->Started_0),
        !valid_agent_id(agent_id) ==> resolve(pool_after_all(Seq::empty(), outcomes), agent_id)
            is None,
{
    lemma_startup_in_order(outcomes);
}

/// A failed spawn leaves nothing behind: the registry is empty again and the
/// next startup begins with the first agent.
pub proof fn lemma_failure_discards_pool(pool: Seq<ractor::ActorRef<AgentMessage>>, reason: String)
    requires
        !pool_ready(pool),
    ensures
        pool_after(pool, SpawnOutcome::Failed(reason)).len() == 0,
        next_step(pool_after(pool, SpawnOutcome::Failed(reason))) == StartupStep::Spawn(1),
        forall|agent_id: u8| #[trigger]
            resolve(pool_after(pool, SpawnOutcome::Failed(reason)), agent_id) is None,
{
}

} // verus!
