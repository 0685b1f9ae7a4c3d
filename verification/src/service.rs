//! One turn of the chat service: from a loaded session to a running
//! executor.
//!
//! The surrounding application loads the session, then drives the executor
//! this function hands back: it calls the model, runs the retrieval tool,
//! and feeds the results in as events until the executor comes to rest.

use vstd::prelude::*;
use crate::agent::{build_agent, ToolDescriptor};
use crate::executor::Executor;
use crate::model::{select_prompt, Chat, Message};
use crate::retrieval::GetInfoTool;

verus! {

/// Starts a reasoning turn: selects the prompt the session's channel calls
/// for, assembles the agent with the retrieval tool bound to the session's
/// organization, and seeds the executor's memory with the persisted history
/// and the user's question.  The tool set is never empty, so assembly cannot
/// be rejected.
pub fn start_turn(session: Chat, question: String, cap: u32) -> (r: (Executor, String))
    ensures
        session.source@ == "widget"@ ==> r.1@ == session.web_prompt@,
        session.source@ != "widget"@ ==> r.1@ == session.apps_prompt@,
        r.0@.state is Think,
        r.0@.cycles == 0,
        r.0@.cap == cap,
        r.0@.memory == session.history@.push(Message::User { content: question }),
        r.0@.registry.len() == 1,
        r.0@.registry[0].name@ == "Get_Info"@,
        r.0@.wf(),
{
    let prompt = select_prompt(&session);
    let tool = GetInfoTool::new(session.organization_id);
    let mut tools: Vec<ToolDescriptor> = Vec::new();
    tools.push(tool.descriptor());
    let agent = match build_agent(session.organization_id, prompt.as_str(), tools) {
        Ok(a) => a,
        Err(_) => vstd::pervasive::unreached(),
    };
    let executor = Executor::from_agent(agent, cap, session.history, question);
    (executor, prompt)
}

} // verus!
