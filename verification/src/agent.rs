//! Agent assembly: the tool registry and the deterministic model settings
//! bound to one organization's system prompt.

use vstd::prelude::*;
use vstd::string::*;
use crate::errors::Error;

verus! {

/// A named capability the agent may invoke, described to the model.
#[derive(Debug)]
pub struct ToolDescriptor {
    pub name: String,
    pub description: String,
}

impl Clone for ToolDescriptor {
    fn clone(&self) -> (r: Self)
        ensures
            r == *self,
    {
        ToolDescriptor { name: self.name.clone(), description: self.description.clone() }
    }
}

/// A reasoning agent: a system prompt, the registry of tools it may call, and
/// a sampling temperature in hundredths, held at zero so that decoding is
/// deterministic.
#[derive(Debug)]
pub struct Agent {
    pub organization_id: i32,
    pub system_prompt: String,
    pub tools: Vec<ToolDescriptor>,
    pub temperature_hundredths: u8,
}

/// Assembles an agent from a prompt and a tool registry.  Construction is
/// rejected with an internal error when the registry is empty: an agent of
/// this service must be able to retrieve.
pub fn build_agent(organization_id: i32, prompt: &str, tools: Vec<ToolDescriptor>) -> (r: Result<
    Agent,
    Error,
>)
    ensures
        tools@.len() > 0 ==> (r matches Ok(a) && a.organization_id == organization_id
            && a.system_prompt@ == prompt@ && a.tools == tools && a.temperature_hundredths == 0),
        tools@.len() == 0 ==> (r matches Err(e) && e matches Error::InternalServer(m)
            && m@ == "agent built with an empty tool set"@),
{
    if tools.len() == 0 {
        Err(Error::internal_server_error("agent built with an empty tool set".to_owned()))
    } else {
        Ok(
            Agent {
                organization_id,
                system_prompt: prompt.to_owned(),
                tools,
                temperature_hundredths: 0,
            },
        )
    }
}

} // verus!
