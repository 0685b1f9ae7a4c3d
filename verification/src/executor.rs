//! The reasoning state machine of a turn.
//!
//! The executor alternates between thinking (asking the model for either a
//! final answer or a tool selection) and acting (having the selected tool run
//! and observing its output), recording every exchange in the turn's memory.
//! It terminates in `Respond` with an answer, or in `Failed`; the number of
//! tool cycles never passes the configured cap.  The surrounding application
//! performs the provider calls and feeds their results back in as events.

use vstd::prelude::*;
use vstd::string::*;
use crate::agent::{Agent, ToolDescriptor};
use crate::errors::Error;
use crate::model::{ChatHistory, Message};

verus! {

/// Iteration cap used when a caller has no better-informed configuration: the
/// largest number of think/act cycles one turn may spend.
pub const DEFAULT_ITERATION_CAP: u32 = 8;

/// The states of the reasoning loop.  `Respond` and `Failed` are terminal;
/// the loop rests in `Think` or `Observe` before a model call and in
/// `ToolCall` while a tool runs.
#[derive(Clone, Copy, Debug, PartialEq, Eq, Structural)]
pub enum State {
    Think,
    ToolCall,
    Observe,
    Respond,
    Failed,
}

/// What the model answered when asked to think: a final reply, the selection
/// of a tool to run, or output that could not be understood.
#[derive(Debug)]
pub enum ModelOutput {
    FinalAnswer { text: String },
    ToolSelection { name: String, input: String },
    Malformed,
}

/// What came back from running a tool.
#[derive(Debug)]
pub enum ToolOutcome {
    Output { content: String },
    Failure { message: String },
}

/// What the executor asks its caller to do next.
#[derive(Debug)]
pub enum Action {
    CallModel,
    InvokeTool { name: String, input: String },
    Finish { text: String },
    Fail,
}

/// The action tag by which the model ends a turn instead of selecting a tool.
pub open spec fn final_answer_tag() -> Seq<char> {
    "Final Answer"@
}

/// Classifies the action a model reply carries once the transport has read
/// its fields: the closing tag yields a final answer, an empty action is
/// malformed, and anything else selects a tool of that name.
pub fn classify_model_reply(action: &str, input: String) -> (r: ModelOutput)
    ensures
        action@ == final_answer_tag() ==> (r matches ModelOutput::FinalAnswer { text } && text@
            == input@),
        action@ == Seq::<char>::empty() ==> r is Malformed,
        (action@ != final_answer_tag() && action@ != Seq::<char>::empty()) ==> (
        r matches ModelOutput::ToolSelection { name, input: i } && name@ == action@ && i@
            == input@),
{
    proof {
        broadcast use vstd::string::group_string_axioms;

        reveal_strlit("Final Answer");
        assert("Final Answer"@.len() == 12);
    }
    let a = action.to_owned();
    if a == "Final Answer".to_owned() {
        ModelOutput::FinalAnswer { text: input }
    } else if a.as_str().is_empty() {
        proof {
            assert(a@ =~= Seq::<char>::empty());
        }
        ModelOutput::Malformed
    } else {
        ModelOutput::ToolSelection { name: a, input }
    }
}

/// The executor as the contracts see it: plain state, counters, the registry,
/// and the memory as a sequence of messages.
#[verifier::ext_equal]
pub struct ExecutorModel {
    pub state: State,
    pub cycles: int,
    pub cap: int,
    pub registry: Seq<ToolDescriptor>,
    pub memory: Seq<Message>,
}

/// Whether a tool of this name stands in the registry.
pub open spec fn registered(registry: Seq<ToolDescriptor>, name: Seq<char>) -> bool {
    exists|i: int| 0 <= i < registry.len() && registry[i].name@ == name
}

/// The name carried by a pending `ToolCall` message at the end of memory.
pub open spec fn pending_tool_name(memory: Seq<Message>) -> String {
    match memory.last() {
        Message::ToolCall { name, .. } => name,
        _ => vstd::pervasive::arbitrary(),
    }
}

impl ExecutorModel {
    /// Well-formedness: the cycle counter never passes the cap, a running
    /// tool call stands recorded as the latest message, and so does the
    /// assistant's answer once the turn has closed.
    pub open spec fn wf(self) -> bool {
        &&& 0 <= self.cycles <= self.cap
        &&& self.state is ToolCall ==> self.memory.len() > 0 && self.memory.last() is ToolCall
        &&& self.state is Respond ==> self.memory.len() > 0 && self.memory.last() is Assistant
    }

    /// States from which the model is consulted next.
    pub open spec fn can_think(self) -> bool {
        self.state is Think || self.state is Observe
    }

    pub open spec fn terminal(self) -> bool {
        self.state is Respond || self.state is Failed
    }
}

/// The `Think` transition: a final answer moves to `Respond` and records an
/// assistant message; a registered tool selection within the cap starts a
/// cycle and records a `ToolCall` message; an unregistered selection, an
/// exhausted cap, or malformed output moves to `Failed` with nothing recorded.
pub open spec fn think_step(m: ExecutorModel, out: ModelOutput) -> ExecutorModel {
    match out {
        ModelOutput::FinalAnswer { text } => ExecutorModel {
            state: State::Respond,
            cycles: m.cycles,
            cap: m.cap,
            registry: m.registry,
            memory: m.memory.push(Message::Assistant { content: text }),
        },
        ModelOutput::ToolSelection { name, input } => if !registered(m.registry, name@) {
            ExecutorModel { state: State::Failed, ..m }
        } else if m.cycles >= m.cap {
            ExecutorModel { state: State::Failed, ..m }
        } else {
            ExecutorModel {
                state: State::ToolCall,
                cycles: m.cycles + 1,
                cap: m.cap,
                registry: m.registry,
                memory: m.memory.push(Message::ToolCall { name, input }),
            }
        },
        ModelOutput::Malformed => ExecutorModel { state: State::Failed, ..m },
    }
}

/// The action owed to the caller after a `Think` transition.
pub open spec fn think_action(m: ExecutorModel, out: ModelOutput) -> Action {
    match out {
        ModelOutput::FinalAnswer { text } => Action::Finish { text },
        ModelOutput::ToolSelection { name, input } => if !registered(m.registry, name@) {
            Action::Fail
        } else if m.cycles >= m.cap {
            Action::Fail
        } else {
            Action::InvokeTool { name, input }
        },
        ModelOutput::Malformed => Action::Fail,
    }
}

/// The `ToolCall`-to-`Observe` transition: a tool output is recorded as a
/// `ToolResult` answering the pending call; a tool failure fails the turn.
pub open spec fn observe_step(m: ExecutorModel, outcome: ToolOutcome) -> ExecutorModel {
    match outcome {
        ToolOutcome::Output { content } => ExecutorModel {
            state: State::Observe,
            cycles: m.cycles,
            cap: m.cap,
            registry: m.registry,
            memory: m.memory.push(
                Message::ToolResult { name: pending_tool_name(m.memory), output: content },
            ),
        },
        ToolOutcome::Failure { .. } => ExecutorModel { state: State::Failed, ..m },
    }
}

/// The action owed to the caller after an `Observe` transition.
pub open spec fn observe_action(outcome: ToolOutcome) -> Action {
    match outcome {
        ToolOutcome::Output { .. } => Action::CallModel,
        ToolOutcome::Failure { .. } => Action::Fail,
    }
}

/// One turn's executor: the registry of tools the agent may call, the cycle
/// cap and counter, the current state, and the turn-scoped memory.
#[derive(Debug)]
pub struct Executor {
    pub registry: Vec<ToolDescriptor>,
    pub cap: u32,
    pub cycles: u32,
    pub state: State,
    pub memory: ChatHistory,
}

impl View for Executor {
    type V = ExecutorModel;

    open spec fn view(&self) -> ExecutorModel {
        ExecutorModel {
            state: self.state,
            cycles: self.cycles as int,
            cap: self.cap as int,
            registry: self.registry@,
            memory: self.memory@,
        }
    }
}

impl Executor {
    /// Starts a turn: memory is seeded from the persisted history with the
    /// user's question appended, and the loop rests in `Think`.
    pub fn new(registry: Vec<ToolDescriptor>, cap: u32, history: Vec<Message>, question: String)
        -> (r: Executor)
        ensures
            r@.state is Think,
            r@.cycles == 0,
            r@.cap == cap,
            r@.registry == registry@,
            r@.memory == history@.push(Message::User { content: question }),
            r@.wf(),
    {
        let mut memory = ChatHistory::from(history);
        memory.add_message(Message::User { content: question });
        Executor { registry, cap, cycles: 0, state: State::Think, memory }
    }

    /// Starts a turn from an assembled agent, whose registry the executor
    /// takes over.
    pub fn from_agent(agent: Agent, cap: u32, history: Vec<Message>, question: String) -> (r:
        Executor)
        ensures
            r@.state is Think,
            r@.cycles == 0,
            r@.cap == cap,
            r@.registry == agent.tools@,
            r@.memory == history@.push(Message::User { content: question }),
            r@.wf(),
    {
        Executor::new(agent.tools, cap, history, question)
    }

    /// Whether a tool of this name stands in the registry.
    pub fn is_registered(&self, name: &String) -> (r: bool)
        ensures
            r == registered(self.registry@, name@),
    {
        let mut i: usize = 0;
        while i < self.registry.len()
            invariant
                i <= self.registry.len(),
                forall|j: int| 0 <= j < i ==> self.registry@[j].name@ != name@,
            decreases self.registry.len() - i,
        {
            if self.registry[i].name == *name {
                proof {
                    assert(self.registry@[i as int].name@ == name@);
                }
                return true;
            }
            i = i + 1;
        }
        false
    }

    /// Performs the `Think` transition on what the model answered.
    pub fn think(&mut self, out: ModelOutput) -> (a: Action)
        requires
            old(self)@.wf(),
            old(self)@.can_think(),
        ensures
            final(self)@ == think_step(old(self)@, out),
            a == think_action(old(self)@, out),
            final(self)@.wf(),
    {
        match out {
            ModelOutput::FinalAnswer { text } => {
                let reply = text.clone();
                self.memory.add_message(Message::Assistant { content: text });
                self.state = State::Respond;
                Action::Finish { text: reply }
            },
            ModelOutput::ToolSelection { name, input } => {
                if !self.is_registered(&name) {
                    self.state = State::Failed;
                    Action::Fail
                } else if self.cycles >= self.cap {
                    self.state = State::Failed;
                    Action::Fail
                } else {
                    self.cycles = self.cycles + 1;
                    let asked_name = name.clone();
                    let asked_input = input.clone();
                    self.memory.add_message(Message::ToolCall { name, input });
                    self.state = State::ToolCall;
                    Action::InvokeTool { name: asked_name, input: asked_input }
                }
            },
            ModelOutput::Malformed => {
                self.state = State::Failed;
                Action::Fail
            },
        }
    }

    /// Performs the `Observe` transition on what the invoked tool returned.
    pub fn observe(&mut self, outcome: ToolOutcome) -> (a: Action)
        requires
            old(self)@.wf(),
            old(self)@.state is ToolCall,
        ensures
            final(self)@ == observe_step(old(self)@, outcome),
            a == observe_action(outcome),
            final(self)@.wf(),
    {
        match outcome {
            ToolOutcome::Output { content } => {
                let last = self.memory.0.len() - 1;
                let name = match &self.memory.0[last] {
                    Message::ToolCall { name, .. } => name.clone(),
                    _ => vstd::pervasive::unreached(),
                };
                self.memory.add_message(Message::ToolResult { name, output: content });
                self.state = State::Observe;
                Action::CallModel
            },
            ToolOutcome::Failure { .. } => {
                self.state = State::Failed;
                Action::Fail
            },
        }
    }

    /// The content of the assistant message that closed the turn.
    pub open spec fn final_answer(self) -> Seq<char> {
        match self.memory@.last() {
            Message::Assistant { content } => content@,
            _ => Seq::empty(),
        }
    }

    /// The turn's result once the loop has come to rest: the final answer on
    /// `Respond`, an internal error on `Failed`.
    pub fn outcome(&self) -> (r: Result<String, Error>)
        requires
            self@.wf(),
            self@.terminal(),
        ensures
            self@.state is Respond ==> (r matches Ok(t) && t@ == self.final_answer()),
            self@.state is Failed ==> (r matches Err(e) && e matches Error::InternalServer(m)
                && m@ == "agent execution failed"@),
    {
        match self.state {
            State::Respond => {
                let last = self.memory.0.len() - 1;
                match &self.memory.0[last] {
                    Message::Assistant { content } => Ok(content.clone()),
                    _ => vstd::pervasive::unreached(),
                }
            },
            State::Failed => Err(Error::internal_server_error("agent execution failed".to_owned())),
            _ => vstd::pervasive::unreached(),
        }
    }
}

/// The executor never asks its caller to invoke a tool that is not in the
/// registry; a selection of an unregistered name fails the turn at once, with
/// no cycle spent and nothing appended to memory.
pub proof fn lemma_registry_guard(m: ExecutorModel, out: ModelOutput)
    requires
        m.wf(),
        m.can_think(),
    ensures
        think_action(m, out) matches Action::InvokeTool { name, .. } ==> registered(
            m.registry,
            name@,
        ),
        (out matches ModelOutput::ToolSelection { name, .. } && !registered(m.registry, name@))
            ==> think_step(m, out).state is Failed && think_step(m, out).cycles == m.cycles
            && think_step(m, out).memory == m.memory,
{
}

/// Every `Think` transition keeps the executor well formed and either ends
/// the turn or spends exactly one cycle, never passing the cap: the loop
/// cannot run unboundedly.
pub proof fn lemma_think_progress(m: ExecutorModel, out: ModelOutput)
    requires
        m.wf(),
        m.can_think(),
    ensures
        think_step(m, out).wf(),
        think_step(m, out).cap == m.cap,
        think_step(m, out).cycles <= m.cap,
        think_step(m, out).terminal() || (think_step(m, out).state is ToolCall && think_step(
            m,
            out,
        ).cycles == m.cycles + 1),
{
}

/// Every `Observe` transition keeps the executor well formed, spends no
/// cycle, and either fails the turn or hands control back to thinking.
pub proof fn lemma_observe_progress(m: ExecutorModel, outcome: ToolOutcome)
    requires
        m.wf(),
        m.state is ToolCall,
    ensures
        observe_step(m, outcome).wf(),
        observe_step(m, outcome).cap == m.cap,
        observe_step(m, outcome).cycles == m.cycles,
        observe_step(m, outcome).state is Observe || observe_step(m, outcome).state is Failed,
{
}

/// With the cap already exhausted, any further tool selection fails the turn
/// immediately.
pub proof fn lemma_cap_exhausted(m: ExecutorModel, name: String, input: String)
    requires
        m.wf(),
        m.can_think(),
        m.cycles == m.cap,
    ensures
        think_step(m, ModelOutput::ToolSelection { name, input }).state is Failed,
        think_step(m, ModelOutput::ToolSelection { name, input }).memory == m.memory,
{
}

/// Memory is append-only: whatever the event, the memory before a transition
/// is a prefix of the memory after it.
pub proof fn lemma_memory_append_only(m: ExecutorModel, out: ModelOutput, outcome: ToolOutcome)
    ensures
        m.memory.is_prefix_of(think_step(m, out).memory),
        m.memory.is_prefix_of(observe_step(m, outcome).memory),
{
    assert(m.memory =~= m.memory.subrange(0, m.memory.len() as int));
    assert forall|x: Message| m.memory.is_prefix_of(#[trigger] m.memory.push(x)) by {
        assert(m.memory =~= m.memory.push(x).subrange(0, m.memory.len() as int));
    }
}

/// Across one full think/act cycle — whatever the model answered and however
/// the tool fared — the memory at the start of the cycle is a prefix of the
/// memory at its end: nothing is rewritten or dropped.
pub proof fn lemma_cycle_append_only(m: ExecutorModel, out: ModelOutput, outcome: ToolOutcome)
    ensures
        m.memory.is_prefix_of(observe_step(think_step(m, out), outcome).memory),
{
    let mid = think_step(m, out);
    lemma_memory_append_only(m, out, outcome);
    lemma_memory_append_only(mid, out, outcome);
    assert(m.memory =~= observe_step(mid, outcome).memory.subrange(0, m.memory.len() as int));
}

/// The run of a pathological model that always selects the same registered
/// tool and always sees the tool succeed: `k` full think/act cycles.
pub open spec fn pathological_run(
    m: ExecutorModel,
    name: String,
    input: String,
    output: String,
    k: nat,
) -> ExecutorModel
    decreases k,
{
    if k == 0 {
        m
    } else {
        pathological_run(
            observe_step(
                think_step(m, ModelOutput::ToolSelection { name, input }),
                ToolOutcome::Output { content: output },
            ),
            name,
            input,
            output,
            (k - 1) as nat,
        )
    }
}

/// A model that always issues a registered tool call terminates: after the
/// remaining `cap - cycles` full cycles the executor is still well formed and
/// about to think, every cycle is spent, and the next tool selection moves it
/// to `Failed`.
pub proof fn lemma_pathological_run_fails(
    m: ExecutorModel,
    name: String,
    input: String,
    output: String,
    k: nat,
)
    requires
        m.wf(),
        m.can_think(),
        registered(m.registry, name@),
        k == m.cap - m.cycles,
    ensures
        ({
            let f = pathological_run(m, name, input, output, k);
            f.wf() && f.can_think() && f.cap == m.cap && f.cycles == f.cap && think_step(
                f,
                ModelOutput::ToolSelection { name, input },
            ).state is Failed
        }),
    decreases k,
{
    if k == 0 {
    } else {
        let m1 = think_step(m, ModelOutput::ToolSelection { name, input });
        let m2 = observe_step(m1, ToolOutcome::Output { content: output });
        lemma_think_progress(m, ModelOutput::ToolSelection { name, input });
        lemma_observe_progress(m1, ToolOutcome::Output { content: output });
        lemma_pathological_run_fails(m2, name, input, output, (k - 1) as nat);
    }
}

} // verus!
