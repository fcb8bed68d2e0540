//! The tool registry: tools kept under their names, and the results of the
//! tools run through it.

use vstd::prelude::*;
use crate::error::AppError;
use crate::keyed::{keyed_map, lemma_keyed_push, lemma_keyed_update};
use crate::text::{owned, push_str, str_eq};

verus! {

/// The outcome of a registered tool.
#[derive(Debug, Clone)]
pub struct ToolResult {
    /// The output.
    pub output: String,
    /// Whether the tool succeeded.
    pub success: bool,
    /// The error, where it failed.
    pub error: Option<String>,
    /// How long it ran, in milliseconds, where measured.
    pub duration_ms: Option<u64>,
}

impl ToolResult {
    /// A success with the given output.
    pub fn success(output: String) -> (r: Self)
        ensures
            r.output == output,
            r.success,
            r.error is None,
            r.duration_ms is None,
    {
        ToolResult { output, success: true, error: None, duration_ms: None }
    }

    /// A failure with the given error and no output.
    pub fn error(error: String) -> (r: Self)
        ensures
            r.output@.len() == 0,
            !r.success,
            r.error == Some(error),
            r.duration_ms is None,
    {
        ToolResult { output: String::new(), success: false, error: Some(error), duration_ms: None }
    }

    /// The result with the time the tool took.
    pub fn with_duration(self, duration_ms: u64) -> (r: Self)
        ensures
            r == (ToolResult { duration_ms: Some(duration_ms), ..self }),
    {
        ToolResult { duration_ms: Some(duration_ms), ..self }
    }
}

/// The error for a name that no registered tool has.
pub open spec fn tool_not_found(e: AppError, name: Seq<char>) -> bool {
    e matches AppError::NotFound(m) && m@ == "Tool '"@ + name + "' not found"@
}

/// Tools kept under their names; registering a name again replaces the tool.
pub struct ToolRegistry<T> {
    names: Vec<String>,
    tools: Vec<T>,
}

impl<T> ToolRegistry<T> {
    /// The tool registered under each name.
    pub closed spec fn view(&self) -> Map<Seq<char>, T> {
        keyed_map(self.names@.map_values(|s: String| s@), self.tools@)
    }

    /// Each name occurs once, beside its tool.
    pub closed spec fn wf(&self) -> bool {
        &&& self.names.len() == self.tools.len()
        &&& self.names@.map_values(|s: String| s@).no_duplicates()
    }

    /// An empty registry.
    pub fn new() -> (r: Self)
        ensures
            r.wf(),
            r.view() == Map::<Seq<char>, T>::empty(),
    {
        let r = ToolRegistry { names: Vec::new(), tools: Vec::new() };
        assert(r.view() =~= Map::<Seq<char>, T>::empty());
        r
    }

    fn position(&self, name: &str) -> (r: Option<usize>)
        requires
            self.wf(),
        ensures
            match r {
                Some(p) => p < self.names.len() && self.names@[p as int]@ == name@,
                None => !self.names@.map_values(|s: String| s@).contains(name@),
            },
    {
        let mut p: usize = 0;
        while p < self.names.len()
            invariant
                0 <= p <= self.names.len(),
                forall|q: int| 0 <= q < p ==> self.names@[q]@ != name@,
            decreases self.names.len() - p,
        {
            if str_eq(self.names[p].as_str(), name) {
                return Some(p);
            }
            p = p + 1;
        }
        proof {
            let ks = self.names@.map_values(|s: String| s@);
            if ks.contains(name@) {
                let i = ks.index_of(name@);
                assert(self.names@[i]@ == name@);
            }
        }
        None
    }

    /// Registers a tool under a name, replacing the tool registered before
    /// under the same name.
    pub fn register(&mut self, name: String, tool: T)
        requires
            old(self).wf(),
        ensures
            final(self).wf(),
            final(self).view() == old(self).view().insert(name@, tool),
    {
        let ghost ks = self.names@.map_values(|s: String| s@);
        let ghost vs = self.tools@;
        match self.position(name.as_str()) {
            Some(p) => {
                proof {
                    assert(ks[p as int] == name@);
                    lemma_keyed_update(ks, vs, p as int, tool);
                }
                self.tools.set(p, tool);
            },
            None => {
                proof {
                    lemma_keyed_push(ks, vs, name@, tool);
                }
                let ghost nv = name@;
                self.names.push(name);
                self.tools.push(tool);
                assert(self.names@.map_values(|s: String| s@) =~= ks.push(nv));
            },
        }
    }

    /// The tool registered under a name.
    pub fn get(&self, name: &str) -> (r: Option<&T>)
        requires
            self.wf(),
        ensures
            match r {
                Some(t) => self.view().dom().contains(name@) && *t == self.view()[name@],
                None => !self.view().dom().contains(name@),
            },
    {
        match self.position(name) {
            Some(p) => {
                proof {
                    let ks = self.names@.map_values(|s: String| s@);
                    assert(ks[p as int] == name@);
                    assert(ks.contains(name@));
                    assert(ks.index_of(name@) == p);
                }
                Some(&self.tools[p])
            },
            None => None,
        }
    }

    /// The tool to run for a call by name; an unknown name is refused with
    /// "Tool '{name}' not found".
    pub fn lookup(&self, name: &str) -> (r: Result<&T, AppError>)
        requires
            self.wf(),
        ensures
            match r {
                Ok(t) => self.view().dom().contains(name@) && *t == self.view()[name@],
                Err(e) => !self.view().dom().contains(name@) && tool_not_found(e, name@),
            },
    {
        match self.get(name) {
            Some(t) => Ok(t),
            None => {
                let mut m = owned("Tool '");
                push_str(&mut m, name);
                push_str(&mut m, "' not found");
                Err(AppError::NotFound(m))
            },
        }
    }

    /// Whether a tool is registered under a name.
    pub fn has_tool(&self, name: &str) -> (r: bool)
        requires
            self.wf(),
        ensures
            r == self.view().dom().contains(name@),
    {
        self.get(name).is_some()
    }

    /// The names of the registered tools, each once.
    pub fn list_tools(&self) -> (r: Vec<String>)
        requires
            self.wf(),
        ensures
            r@.map_values(|s: String| s@).no_duplicates(),
            forall|k: Seq<char>| r@.map_values(|s: String| s@).contains(k) <==> self.view().dom().contains(k),
    {
        let mut r: Vec<String> = Vec::new();
        let mut i: usize = 0;
        while i < self.names.len()
            invariant
                0 <= i <= self.names.len(),
                self.wf(),
                r@.map_values(|s: String| s@) == self.names@.map_values(|s: String| s@).take(i as int),
            decreases self.names.len() - i,
        {
            let ghost before = r@.map_values(|s: String| s@);
            r.push(self.names[i].clone());
            assert(r@.map_values(|s: String| s@) =~= before.push(self.names@[i as int]@));
            assert(self.names@.map_values(|s: String| s@).take(i as int + 1) =~= self.names@.map_values(|s: String| s@).take(i as int).push(self.names@[i as int]@));
            i = i + 1;
        }
        assert(self.names@.map_values(|s: String| s@).take(self.names.len() as int) =~= self.names@.map_values(|s: String| s@));
        r
    }

    /// How many tools are registered.
    pub fn len(&self) -> (r: usize)
        requires
            self.wf(),
        ensures
            r == self.view().dom().len(),
    {
        proof {
            let ks = self.names@.map_values(|s: String| s@);
            ks.unique_seq_to_set();
            assert(self.view().dom() =~= ks.to_set());
        }
        self.names.len()
    }

    /// Forgets every tool.
    pub fn clear(&mut self)
        ensures
            final(self).wf(),
            final(self).view() == Map::<Seq<char>, T>::empty(),
    {
        self.names = Vec::new();
        self.tools = Vec::new();
        assert(self.view() =~= Map::<Seq<char>, T>::empty());
    }
}

impl<T> Default for ToolRegistry<T> {
    /// An empty registry.
    fn default() -> (r: Self)
        ensures
            r.wf(),
            r.view() == Map::<Seq<char>, T>::empty(),
    {
        Self::new()
    }
}

/// A tool is found under the name it was registered with, and registering
/// it leaves what other names find as it was.
pub proof fn lemma_lookup_after_register<T>(m: Map<Seq<char>, T>, name: Seq<char>, tool: T, other: Seq<char>)
    requires
        other != name,
    ensures
        m.insert(name, tool).dom().contains(name),
        m.insert(name, tool)[name] == tool,
        m.insert(name, tool).dom().contains(other) == m.dom().contains(other),
        m.dom().contains(other) ==> m.insert(name, tool)[other] == m[other],
{
}

} // verus!
