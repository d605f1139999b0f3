//! The tool registry: which tools a server offers, the parameters each one
//! takes, and the routing of an invocation to a tool once its arguments have
//! been checked against that tool's parameters.

use vstd::prelude::*;

verus! {

/// The kind of a structured value.
#[derive(Clone, Copy, Debug, PartialEq, Eq, Structural)]
pub enum ValueKind {
    Number,
    Text,
    Boolean,
    Null,
    Array,
    Object,
}

/// A named parameter of a tool, with the kind of value it takes.
pub struct ParamSpec {
    pub name: String,
    pub description: String,
    pub kind: ValueKind,
}

/// A tool: its name, what it does, and its parameters, all required.
pub struct ToolDescriptor {
    pub name: String,
    pub description: String,
    pub params: Vec<ParamSpec>,
}

/// One argument of an invocation: its key and the kind of its value.
pub struct Argument {
    pub name: String,
    pub kind: ValueKind,
}

/// Why an invocation was refused or failed.
pub enum ToolError {
    /// No tool of this name is registered.
    UnknownTool(String),
    /// The arguments do not match the tool's parameters; names the first
    /// parameter found missing or of the wrong kind.
    InvalidArguments(String),
    /// The tool's handler failed.
    HandlerError(String),
}

/// What a server declares it can do.
#[derive(Clone, Copy, Debug, PartialEq, Eq, Structural)]
pub struct Capabilities {
    pub tools: bool,
    pub prompts: bool,
    pub resources: bool,
    pub logging: bool,
}

/// What a server reports about itself on introspection.
pub struct ServerSummary {
    pub instructions: String,
    pub capabilities: Capabilities,
}

/// Tool calling, and nothing else.
pub open spec fn tools_only() -> Capabilities {
    Capabilities { tools: true, prompts: false, resources: false, logging: false }
}

/// The capabilities of a tool server: tool calling, and nothing else.
pub fn tool_capabilities() -> (r: Capabilities)
    ensures
        r == tools_only(),
{
    Capabilities { tools: true, prompts: false, resources: false, logging: false }
}

/// Whether some tool in the sequence has the name.
pub open spec fn has_tool(tools: Seq<ToolDescriptor>, name: Seq<char>) -> bool {
    exists|i: int| 0 <= i < tools.len() && #[trigger] tools[i].name@ == name
}

/// No two tools share a name.
pub open spec fn names_unique(tools: Seq<ToolDescriptor>) -> bool {
    forall|i: int, j: int|
        0 <= i < tools.len() && 0 <= j < tools.len() && i != j ==> #[trigger] tools[i].name@
            != #[trigger] tools[j].name@
}

/// The arguments give the parameter, and every value under its key has the
/// parameter's kind.
pub open spec fn param_given(p: ParamSpec, args: Seq<Argument>) -> bool {
    &&& exists|k: int| 0 <= k < args.len() && #[trigger] args[k].name@ == p.name@
    &&& forall|k: int| 0 <= k < args.len() && #[trigger] args[k].name@ == p.name@ ==> args[k].kind
        == p.kind
}

/// The arguments give every parameter with a value of its kind. Keys that name
/// no parameter are ignored.
pub open spec fn args_valid(params: Seq<ParamSpec>, args: Seq<Argument>) -> bool {
    forall|j: int| 0 <= j < params.len() ==> param_given(#[trigger] params[j], args)
}

/// The tools a server offers, no two under the same name.
pub struct ToolRegistry {
    tools: Vec<ToolDescriptor>,
}

impl View for ToolRegistry {
    type V = Seq<ToolDescriptor>;

    closed spec fn view(&self) -> Seq<ToolDescriptor> {
        self.tools@
    }
}

/// Whether a parameter is given, with a value of its kind.
fn check_param(p: &ParamSpec, args: &Vec<Argument>) -> (r: bool)
    ensures
        r == param_given(*p, args@),
{
    let mut found = false;
    let mut kinds_match = true;
    let mut k: usize = 0;
    while k < args.len()
        invariant
            k <= args@.len(),
            found == exists|m: int| 0 <= m < k && #[trigger] args@[m].name@ == p.name@,
            kinds_match == forall|m: int|
                0 <= m < k && #[trigger] args@[m].name@ == p.name@ ==> args@[m].kind == p.kind,
        decreases args@.len() - k,
    {
        if args[k].name == p.name {
            found = true;
            if args[k].kind != p.kind {
                kinds_match = false;
            }
        }
        k += 1;
    }
    found && kinds_match
}

/// Whether the arguments satisfy all parameters; on failure, the index of the
/// first parameter that they do not satisfy.
fn check_args(params: &Vec<ParamSpec>, args: &Vec<Argument>) -> (r: Option<usize>)
    ensures
        match r {
            None => args_valid(params@, args@),
            Some(j) => j < params@.len() && !param_given(params@[j as int], args@)
                && !args_valid(params@, args@),
        },
{
    let mut j: usize = 0;
    while j < params.len()
        invariant
            j <= params@.len(),
            forall|m: int| 0 <= m < j ==> param_given(#[trigger] params@[m], args@),
        decreases params@.len() - j,
    {
        if !check_param(&params[j], args) {
            return Some(j);
        }
        j += 1;
    }
    None
}

impl ToolRegistry {
    /// A registry with no tools.
    pub fn new() -> (r: ToolRegistry)
        ensures
            r@ == Seq::<ToolDescriptor>::empty(),
    {
        ToolRegistry { tools: Vec::new() }
    }

    /// The registered tools, in the order of registration.
    pub fn descriptors(&self) -> (r: &Vec<ToolDescriptor>)
        ensures
            r@ == self@,
    {
        &self.tools
    }

    /// Registers a tool, unless one of that name is registered already.
    pub fn register(&mut self, tool: ToolDescriptor) -> (r: bool)
        requires
            names_unique(old(self)@),
        ensures
            r == !has_tool(old(self)@, tool.name@),
            r ==> final(self)@ == old(self)@.push(tool),
            !r ==> final(self)@ == old(self)@,
            names_unique(final(self)@),
    {
        let mut i: usize = 0;
        while i < self.tools.len()
            invariant
                i <= self.tools@.len(),
                names_unique(self.tools@),
                forall|m: int| 0 <= m < i ==> #[trigger] self.tools@[m].name@ != tool.name@,
            decreases self.tools@.len() - i,
        {
            if self.tools[i].name == tool.name {
                return false;
            }
            i += 1;
        }
        let ghost before = self.tools@;
        self.tools.push(tool);
        proof {
            assert forall|a: int, b: int|
                0 <= a < self.tools@.len() && 0 <= b < self.tools@.len() && a != b implies
                #[trigger] self.tools@[a].name@ != #[trigger] self.tools@[b].name@ by {
                if a < before.len() && b < before.len() {
                    assert(before[a] == self.tools@[a]);
                    assert(before[b] == self.tools@[b]);
                }
            }
        }
        true
    }

    /// Routes an invocation: the index of the tool of that name, once the
    /// arguments have been checked against its parameters.
    pub fn route(&self, name: &str, args: &Vec<Argument>) -> (r: Result<usize, ToolError>)
        requires
            names_unique(self@),
        ensures
            r is Ok <==> exists|i: int|
                0 <= i < self@.len() && #[trigger] self@[i].name@ == name@ && args_valid(
                    self@[i].params@,
                    args@,
                ),
            match r {
                Ok(i) => i < self@.len() && self@[i as int].name@ == name@ && args_valid(
                    self@[i as int].params@,
                    args@,
                ),
                Err(ToolError::UnknownTool(n)) => !has_tool(self@, name@) && n@ == name@,
                Err(ToolError::InvalidArguments(_)) => exists|i: int|
                    0 <= i < self@.len() && #[trigger] self@[i].name@ == name@ && !args_valid(
                        self@[i].params@,
                        args@,
                    ),
                Err(ToolError::HandlerError(_)) => false,
            },
    {
        let key = String::from_str(name);
        let mut i: usize = 0;
        while i < self.tools.len()
            invariant
                i <= self.tools@.len(),
                key@ == name@,
                names_unique(self.tools@),
                forall|m: int| 0 <= m < i ==> #[trigger] self.tools@[m].name@ != name@,
            decreases self.tools@.len() - i,
        {
            if self.tools[i].name == key {
                match check_args(&self.tools[i].params, args) {
                    None => {
                        assert(self@[i as int].name@ == name@);
                        return Ok(i);
                    },
                    Some(j) => {
                        let p = self.tools[i].params[j].name.clone();
                        proof {
                            assert forall|m: int|
                                0 <= m < self@.len() && #[trigger] self@[m].name@ == name@ implies
                                !args_valid(self@[m].params@, args@) by {
                                if m != i {
                                    assert(self.tools@[m].name@ != self.tools@[i as int].name@);
                                }
                            }
                            assert(!args_valid(self@[i as int].params@, args@));
                            assert(self@[i as int].name@ == name@);
                        }
                        return Err(ToolError::InvalidArguments(p));
                    },
                }
            }
            i += 1;
        }
        Err(ToolError::UnknownTool(key))
    }
}

} // verus!
