//! The capability ("tool") contract and name-based registry lookup.

use vstd::prelude::*;

verus! {

/// One locally registered capability. Implementations live outside the
/// library and are consumed, never constructed, here. The contracts of
/// `name`, `description` and `parameters` state what the library expects of
/// every implementor: each accessor reports one fixed attribute of the
/// capability. `run` is deliberately unconstrained — it may perform I/O and
/// need not be deterministic — so everything the library proves holds for
/// every outcome of an invocation.
pub trait Tool {
    /// The capability's identifier, matched by exact, case-sensitive string
    /// equality against the model's claimed tool name. The default leaves it
    /// unconstrained; an implementor proven against this trait pins it.
    open spec fn spec_name(&self) -> Seq<char> {
        arbitrary()
    }

    /// The human-readable description used in advertisements.
    open spec fn spec_description(&self) -> Seq<char> {
        arbitrary()
    }

    /// The capability's parameter schema, as serialized JSON text.
    open spec fn spec_parameters(&self) -> Seq<char> {
        arbitrary()
    }

    fn name(&self) -> (r: String)
        ensures
            r@ == self.spec_name(),
    ;

    fn description(&self) -> (r: String)
        ensures
            r@ == self.spec_description(),
    ;

    fn parameters(&self) -> (r: String)
        ensures
            r@ == self.spec_parameters(),
    ;

    /// Invokes the capability on the given arguments, yielding either a
    /// textual result or a textual failure.
    fn run(&self, arguments: serde_json::Value) -> (r: Result<String, String>);
}

/// A capability outcome, viewed at the character level.
pub open spec fn run_view(r: Result<String, String>) -> Result<Seq<char>, Seq<char>> {
    match r {
        Ok(s) => Ok(s@),
        Err(e) => Err(e@),
    }
}

/// Index of the first capability in `tools` whose name is `name`.
pub open spec fn tool_index<T: Tool>(tools: Seq<T>, name: Seq<char>) -> Option<int>
    decreases tools.len(),
{
    if tools.len() == 0 {
        None
    } else if tools[0].spec_name() == name {
        Some(0)
    } else {
        match tool_index(tools.skip(1), name) {
            Some(i) => Some(i + 1),
            None => None,
        }
    }
}

/// A scan that saw no match in the first `k` entries and a match at `k` (if
/// `k` is in range) has found the first match.
proof fn lemma_tool_index_first<T: Tool>(tools: Seq<T>, name: Seq<char>, k: int)
    requires
        0 <= k <= tools.len(),
        forall|j: int| 0 <= j < k ==> tools[j].spec_name() != name,
        k < tools.len() ==> tools[k].spec_name() == name,
    ensures
        k < tools.len() ==> tool_index(tools, name) == Some(k),
        k == tools.len() ==> tool_index(tools, name) is None,
    decreases k, tools.len(),
{
    if tools.len() == 0 {
    } else if k == 0 {
    } else {
        assert(tools[0].spec_name() != name);
        lemma_tool_index_first(tools.skip(1), name, k - 1);
    }
}

/// Looks a capability up in the registry by exact, case-sensitive name.
pub fn find_tool<T: Tool>(tools: &Vec<T>, name: &String) -> (r: Option<usize>)
    ensures
        (match r {
            Some(i) => i < tools@.len() && tool_index(tools@, name@) == Some(i as int),
            None => tool_index(tools@, name@) is None,
        }),
{
    let mut k: usize = 0;
    while k < tools.len()
        invariant
            k <= tools@.len(),
            forall|j: int| 0 <= j < k ==> tools@[j].spec_name() != name@,
        decreases tools@.len() - k,
    {
        let tool_name = tools[k].name();
        if tool_name == *name {
            proof {
                lemma_tool_index_first(tools@, name@, k as int);
            }
            return Some(k);
        }
        k += 1;
    }
    proof {
        lemma_tool_index_first(tools@, name@, k as int);
    }
    None
}

} // verus!
