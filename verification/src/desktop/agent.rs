//! The ReAct agent of the desktop application: its steps, the observations
//! of its actions, and when it stops.

use vstd::prelude::*;
use crate::error::{error_text, AppError};
use crate::text::{decimal, has_substring, contains, owned, push_decimal, push_str};

verus! {

/// A step of reasoning, with the action it chose, if any.
#[derive(Debug)]
pub struct Thought {
    pub reasoning: String,
    pub action: Option<Action>,
}

/// A tool the agent chose to call.
#[derive(Debug)]
pub struct Action {
    pub tool_name: String,
    pub arguments: serde_json::Value,
}

/// What an action gave.
#[derive(Debug, Clone)]
pub struct Observation {
    pub result: String,
    pub success: bool,
}

/// The record of a run.
#[derive(Debug)]
pub struct AgentTrace {
    pub thoughts: Vec<Thought>,
    pub observations: Vec<Observation>,
    pub final_answer: Option<String>,
}

impl Observation {
    /// An observation with the given result.
    pub fn new(result: String, success: bool) -> (r: Self)
        ensures
            r.result == result,
            r.success == success,
    {
        Observation { result, success }
    }
}

/// The observation of a page loaded from the sandbox.
pub fn page_loaded_observation(content_bytes: usize) -> (r: Observation)
    ensures
        r.result@ == "Loaded web page content ("@ + decimal(content_bytes as nat) + " bytes)"@,
        r.success,
{
    let mut m = owned("Loaded web page content (");
    push_decimal(&mut m, content_bytes);
    push_str(&mut m, " bytes)");
    Observation::new(m, true)
}

/// The observation of a page that is not in the sandbox.
pub fn page_missing_observation() -> (r: Observation)
    ensures
        r.result@ == "Web page not found in cache"@,
        !r.success,
{
    Observation::new(owned("Web page not found in cache"), false)
}

/// The observation of a memory lookup: the value, or a note that the key is
/// not known.
pub fn memory_observation(key: &str, value: Option<String>) -> (r: Observation)
    ensures
        match value {
            Some(v) => r.result == v && r.success,
            None => r.result@ == "Memory '"@ + key@ + "' not found"@ && !r.success,
        },
{
    match value {
        Some(v) => Observation::new(v, true),
        None => {
            let mut m = owned("Memory '");
            push_str(&mut m, key);
            push_str(&mut m, "' not found");
            Observation::new(m, false)
        },
    }
}

/// The observation of a memory search.
pub fn memories_found_observation(count: usize) -> (r: Observation)
    ensures
        r.result@ == "Found "@ + decimal(count as nat) + " memories"@,
        r.success,
{
    let mut m = owned("Found ");
    push_decimal(&mut m, count);
    push_str(&mut m, " memories");
    Observation::new(m, true)
}

/// The observation of a failed action.
pub fn error_observation(e: &AppError) -> (r: Observation)
    ensures
        r.result@ == "Error: "@ + error_text(*e),
        !r.success,
{
    let mut m = owned("Error: ");
    let t = e.message();
    push_str(&mut m, t.as_str());
    Observation::new(m, false)
}

/// The agent stops after an observation that succeeded and does not ask for
/// more information.
pub open spec fn ends_run(o: Observation) -> bool {
    o.success && !has_substring(o.result@, "need more"@)
}

/// Whether the run ends after this observation.
pub fn ends_after(o: &Observation) -> (r: bool)
    ensures
        r == ends_run(*o),
{
    o.success && !contains(o.result.as_str(), "need more")
}

/// The answer of a run that ran out of iterations.
pub open spec fn exhausted_answer() -> Seq<char> {
    "Maximum iterations reached. Could not complete the task."@
}

/// The final answer of a run: the one found, else the note that the run ran
/// out of iterations.
pub fn final_answer(found: Option<String>) -> (r: String)
    ensures
        match found {
            Some(a) => r == a,
            None => r@ == exhausted_answer(),
        },
{
    match found {
        Some(a) => a,
        None => owned("Maximum iterations reached. Could not complete the task."),
    }
}

/// The opening of the agent's prompt for a task.
pub fn task_prompt(task: &str) -> (r: String)
    ensures
        r@ == "You are a helpful AI assistant with access to various tools.\n\nTask: "@ + task@ + "\n\nAvailable tools:"@,
{
    let mut m = owned("You are a helpful AI assistant with access to various tools.\n\nTask: ");
    push_str(&mut m, task);
    push_str(&mut m, "\n\nAvailable tools:");
    m
}

/// The prompt line of a tool.
pub fn tool_line(name: &str, description: &str) -> (r: String)
    ensures
        r@ == "- "@ + name@ + ": "@ + description@,
{
    let mut m = owned("- ");
    push_str(&mut m, name);
    push_str(&mut m, ": ");
    push_str(&mut m, description);
    m
}

/// The prompt record of a step: the reasoning, the action with its
/// arguments as JSON, and the observation.
pub fn step_record(reasoning: &str, tool_name: &str, arguments_json: &str, observation: &str) -> (r: String)
    ensures
        r@ == "\nThought: "@ + reasoning@ + "\nAction: "@ + tool_name@ + "("@ + arguments_json@ + ")\nObservation: "@
            + observation@,
{
    let mut m = owned("\nThought: ");
    push_str(&mut m, reasoning);
    push_str(&mut m, "\nAction: ");
    push_str(&mut m, tool_name);
    push_str(&mut m, "(");
    push_str(&mut m, arguments_json);
    push_str(&mut m, ")\nObservation: ");
    push_str(&mut m, observation);
    m
}

/// The iteration count of a run, bounded by its maximum.
pub struct ReactBudget {
    pub iteration: usize,
    pub max_iterations: usize,
}

impl ReactBudget {
    /// A run allowed `max_iterations` steps.
    pub fn new(max_iterations: usize) -> (r: Self)
        ensures
            r.iteration == 0,
            r.max_iterations == max_iterations,
    {
        ReactBudget { iteration: 0, max_iterations }
    }

    /// Starts a step where the budget allows one; returns whether it did.
    pub fn start_step(&mut self) -> (r: bool)
        requires
            old(self).iteration <= old(self).max_iterations,
        ensures
            r == (old(self).iteration < old(self).max_iterations),
            r ==> final(self).iteration == old(self).iteration + 1,
            !r ==> final(self).iteration == old(self).iteration,
            final(self).max_iterations == old(self).max_iterations,
            final(self).iteration <= final(self).max_iterations,
    {
        if self.iteration < self.max_iterations {
            self.iteration = self.iteration + 1;
            true
        } else {
            false
        }
    }
}

} // verus!
