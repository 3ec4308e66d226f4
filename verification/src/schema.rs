//! The tools that a server offers.
use crate::capabilities::BackendCapabilities;
use crate::text::same_text;
use vstd::prelude::*;
use vstd::string::*;

verus! {

broadcast use vstd::string::group_string_axioms;

/// The type of an argument.
#[derive(Debug, Clone, Copy, PartialEq, Eq, Structural)]
pub enum PropertyKind {
    Text,
    Number,
    Flag,
}

impl PropertyKind {
    /// The name of the type.
    pub open spec fn text(self) -> Seq<char> {
        match self {
            PropertyKind::Text => "string"@,
            PropertyKind::Number => "number"@,
            PropertyKind::Flag => "boolean"@,
        }
    }

    /// The name of the type.
    pub fn name(self) -> (r: &'static str)
        ensures
            r@ == self.text(),
    {
        match self {
            PropertyKind::Text => "string",
            PropertyKind::Number => "number",
            PropertyKind::Flag => "boolean",
        }
    }
}

/// Which values an argument can have.
#[derive(Debug, Clone, Copy, PartialEq, Eq, Structural)]
pub enum Choices {
    Any,
    /// `lldb` or `windbg`.
    Backends,
    /// `line` or `instruction`.
    Granularities,
    /// `local`, `global` or `register`.
    Scopes,
}

impl Choices {
    /// The values; none where any will do.
    pub open spec fn texts(self) -> Seq<Seq<char>> {
        match self {
            Choices::Any => seq![],
            Choices::Backends => seq!["lldb"@, "windbg"@],
            Choices::Granularities => seq!["line"@, "instruction"@],
            Choices::Scopes => seq!["local"@, "global"@, "register"@],
        }
    }

    /// The values; none where any will do.
    pub fn values(self) -> (r: Vec<&'static str>)
        ensures
            r@.map_values(|s: &'static str| s@) == self.texts(),
    {
        let mut out: Vec<&'static str> = Vec::new();
        match self {
            Choices::Any => {},
            Choices::Backends => {
                out.push("lldb");
                out.push("windbg");
            },
            Choices::Granularities => {
                out.push("line");
                out.push("instruction");
            },
            Choices::Scopes => {
                out.push("local");
                out.push("global");
                out.push("register");
            },
        }
        assert(out@.map_values(|s: &'static str| s@) =~= self.texts());
        out
    }
}

/// An argument of a tool.
#[derive(Debug, Clone, Copy, PartialEq, Eq)]
pub struct Property {
    pub name: &'static str,
    pub kind: PropertyKind,
    /// What is said of the argument, if anything is.
    pub description: Option<&'static str>,
    pub choices: Choices,
    pub required: bool,
}

/// A tool.
#[derive(Debug, Clone, PartialEq, Eq)]
pub struct Tool {
    pub name: &'static str,
    pub description: &'static str,
    pub properties: Vec<Property>,
}

/// An argument of a tool, as a value.
pub struct PropertyShape {
    pub name: Seq<char>,
    pub kind: PropertyKind,
    pub description: Option<Seq<char>>,
    pub choices: Choices,
    pub required: bool,
}

/// A tool, as a value.
#[verifier::ext_equal]
pub struct ToolShape {
    pub name: Seq<char>,
    pub description: Seq<char>,
    pub properties: Seq<PropertyShape>,
}

impl Property {
    /// The argument, as a value.
    pub open spec fn shape(self) -> PropertyShape {
        PropertyShape {
            name: self.name@,
            kind: self.kind,
            description: match self.description {
                Some(text) => Some(text@),
                None => None,
            },
            choices: self.choices,
            required: self.required,
        }
    }
}

impl Tool {
    /// The tool, as a value.
    pub open spec fn shape(self) -> ToolShape {
        ToolShape {
            name: self.name@,
            description: self.description@,
            properties: self.properties@.map_values(|p: Property| p.shape()),
        }
    }

    /// Whether a call has to give the argument `name`.
    pub fn requires_argument(&self, name: &str) -> (r: bool)
        ensures
            r == exists|i: int|
                0 <= i < self.properties@.len() && (#[trigger] self.properties@[i]).required
                    && self.properties@[i].name@ == name@,
    {
        let mut i: usize = 0;
        while i < self.properties.len()
            invariant
                i <= self.properties@.len(),
                forall|j: int|
                    0 <= j < i ==> !((#[trigger] self.properties@[j]).required
                        && self.properties@[j].name@ == name@),
            decreases self.properties@.len() - i,
        {
            if self.properties[i].required && same_text(
                self.properties[i].name,
                name,
            ) {
                return true;
            }
            i = i + 1;
        }
        false
    }

    /// The argument `name`, if the tool has it.
    pub fn property(&self, name: &str) -> (r: Option<Property>)
        ensures
            match r {
                Some(p) => p.name@ == name@ && self.properties@.contains(p),
                None => forall|j: int|
                    0 <= j < self.properties@.len() ==> (#[trigger] self.properties@[j]).name@
                        != name@,
            },
    {
        let mut i: usize = 0;
        while i < self.properties.len()
            invariant
                i <= self.properties@.len(),
                forall|j: int| 0 <= j < i ==> (#[trigger] self.properties@[j]).name@ != name@,
            decreases self.properties@.len() - i,
        {
            if same_text(self.properties[i].name, name) {
                let p: Property = self.properties[i];
                assert(self.properties@[i as int] == p);
                return Some(p);
            }
            i = i + 1;
        }
        None
    }
}

/// The tools of a list, as values.
pub open spec fn shapes(tools: Seq<Tool>) -> Seq<ToolShape> {
    tools.map_values(|t: Tool| t.shape())
}

/// An argument about which no more is said than its type, its values, and whether it has to be
/// given.
pub open spec fn argument(
    name: Seq<char>,
    kind: PropertyKind,
    choices: Choices,
    required: bool,
) -> PropertyShape {
    PropertyShape { name, kind, description: None, choices, required }
}

/// The path of the program to launch.
pub open spec fn program_argument() -> PropertyShape {
    PropertyShape {
        name: "program"@,
        kind: PropertyKind::Text,
        description: Some("Path to the executable to debug"@),
        choices: Choices::Any,
        required: true,
    }
}

/// A tool with these arguments.
pub open spec fn tool(
    name: Seq<char>,
    description: Seq<char>,
    properties: Seq<PropertyShape>,
) -> ToolShape {
    ToolShape { name, description, properties }
}

fn plain(
    name: &'static str,
    kind: PropertyKind,
    choices: Choices,
    required: bool,
) -> (r: Property)
    ensures
        r.shape() == argument(name@, kind, choices, required),
{
    Property { name, kind, description: None, choices, required }
}

fn with_arguments(
    name: &'static str,
    description: &'static str,
    properties: Vec<Property>,
) -> (r: Tool)
    ensures
        r.shape() == tool(
            name@,
            description@,
            properties@.map_values(|p: Property| p.shape()),
        ),
{
    Tool { name, description, properties }
}

fn bare(name: &'static str, description: &'static str) -> (r: Tool)
    ensures
        r.shape() == tool(name@, description@, seq![]),
{
    let properties: Vec<Property> = Vec::new();
    assert(properties@.map_values(|p: Property| p.shape()) =~= seq![]);
    with_arguments(name, description, properties)
}

fn with_one(name: &'static str, description: &'static str, a: Property) -> (r: Tool)
    ensures
        r.shape() == tool(name@, description@, seq![a.shape()]),
{
    let mut properties: Vec<Property> = Vec::new();
    properties.push(a);
    assert(properties@.map_values(|p: Property| p.shape()) =~= seq![a.shape()]);
    with_arguments(name, description, properties)
}

fn with_two(name: &'static str, description: &'static str, a: Property, b: Property) -> (r: Tool)
    ensures
        r.shape() == tool(name@, description@, seq![a.shape(), b.shape()]),
{
    let mut properties: Vec<Property> = Vec::new();
    properties.push(a);
    properties.push(b);
    assert(properties@.map_values(|p: Property| p.shape()) =~= seq![a.shape(), b.shape()]);
    with_arguments(name, description, properties)
}

fn with_three(
    name: &'static str,
    description: &'static str,
    a: Property,
    b: Property,
    c: Property,
) -> (r: Tool)
    ensures
        r.shape() == tool(name@, description@, seq![a.shape(), b.shape(), c.shape()]),
{
    let mut properties: Vec<Property> = Vec::new();
    properties.push(a);
    properties.push(b);
    properties.push(c);
    assert(properties@.map_values(|p: Property| p.shape()) =~= seq![
        a.shape(),
        b.shape(),
        c.shape(),
    ]);
    with_arguments(name, description, properties)
}

/// The tools that every server offers.
pub open spec fn base_shapes() -> Seq<ToolShape> {
    seq![
        tool("launch"@, "Launch a program under the debugger"@, seq![program_argument(), argument("stop_on_entry"@, PropertyKind::Flag, Choices::Any, false), argument("backend"@, PropertyKind::Text, Choices::Backends, false)]),
        tool("attach"@, "Attach the debugger to a running process"@, seq![argument("pid"@, PropertyKind::Number, Choices::Any, false), argument("wait_for"@, PropertyKind::Text, Choices::Any, false), argument("backend"@, PropertyKind::Text, Choices::Backends, false)]),
        tool("disconnect"@, "Disconnect from the debug session"@, seq![argument("terminate"@, PropertyKind::Flag, Choices::Any, false)]),
        tool("set_breakpoint"@, "Set a source-line breakpoint"@, seq![argument("file"@, PropertyKind::Text, Choices::Any, true), argument("line"@, PropertyKind::Number, Choices::Any, true)]),
        tool("set_function_breakpoint"@, "Set a breakpoint on a function by name"@, seq![argument("name"@, PropertyKind::Text, Choices::Any, true)]),
        tool("remove_breakpoint"@, "Remove a breakpoint by ID"@, seq![argument("breakpoint_id"@, PropertyKind::Number, Choices::Any, true)]),
        tool("list_breakpoints"@, "List all current breakpoints"@, seq![]),
        tool("continue"@, "Continue execution of the paused program"@, seq![]),
        tool("step_over"@, "Step over the current line or instruction"@, seq![argument("granularity"@, PropertyKind::Text, Choices::Granularities, false)]),
        tool("step_into"@, "Step into the current line or instruction"@, seq![argument("granularity"@, PropertyKind::Text, Choices::Granularities, false)]),
        tool("step_out"@, "Step out of the current function"@, seq![]),
        tool("pause"@, "Pause all threads in the running program"@, seq![]),
        tool("status"@, "Get the current debug session status"@, seq![]),
        tool("backtrace"@, "Get the call stack for a thread"@, seq![]),
        tool("threads"@, "List all threads in the debugged process"@, seq![]),
        tool("variables"@, "List variables in the current scope"@, seq![argument("scope"@, PropertyKind::Text, Choices::Scopes, false)]),
        tool("evaluate"@, "Evaluate an expression in the debugger"@, seq![argument("expression"@, PropertyKind::Text, Choices::Any, true)]),
        tool("read_output"@, "Read captured program output (stdout, stderr, console)"@, seq![]),
        tool("read_memory"@, "Read raw memory at a given address"@, seq![argument("address"@, PropertyKind::Text, Choices::Any, true), argument("count"@, PropertyKind::Number, Choices::Any, true)]),
        tool("disassemble"@, "Disassemble instructions at an address or the current PC"@, seq![]),
        tool("run_command"@, "Run an LLDB command directly via the debug console"@, seq![argument("command"@, PropertyKind::Text, Choices::Any, true)]),
    ]
}

/// The tool `open_crash_dump`.
pub open spec fn open_crash_dump_shape() -> ToolShape {
    tool("open_crash_dump"@, "Open a crash dump"@, seq![argument("dump_path"@, PropertyKind::Text, Choices::Any, true), argument("backend"@, PropertyKind::Text, Choices::Backends, false)])
}

/// The tool `attach_kernel`.
pub open spec fn attach_kernel_shape() -> ToolShape {
    tool("attach_kernel"@, "Attach to a kernel target"@, seq![argument("connection"@, PropertyKind::Text, Choices::Any, true), argument("backend"@, PropertyKind::Text, Choices::Backends, false)])
}

/// The tool `analyze_crash`.
pub open spec fn analyze_crash_shape() -> ToolShape {
    tool("analyze_crash"@, "Run the automated crash analysis"@, seq![])
}

/// The tool `get_modules`.
pub open spec fn get_modules_shape() -> ToolShape {
    tool("get_modules"@, "List the loaded modules"@, seq![])
}

/// A tool that is offered only where a backend supports it.
pub open spec fn gated(supported: bool, tool: ToolShape) -> Seq<ToolShape> {
    if supported {
        seq![tool]
    } else {
        seq![]
    }
}

/// The tools that a server offers: those that every server offers, and behind them those that
/// one of its backends supports.
pub open spec fn offered(caps: BackendCapabilities) -> Seq<ToolShape> {
    base_shapes() + gated(caps.crash_dump, open_crash_dump_shape()) + gated(caps.kernel, attach_kernel_shape()) + gated(caps.analyze, analyze_crash_shape()) + gated(caps.modules, get_modules_shape())
}

fn base_tools() -> (r: Vec<Tool>)
    ensures
        shapes(r@) == base_shapes(),
{
    let mut out: Vec<Tool> = Vec::new();
    out.push(with_three("launch", "Launch a program under the debugger", Property {
                name: "program",
                kind: PropertyKind::Text,
                description: Some("Path to the executable to debug"),
                choices: Choices::Any,
                required: true,
            }, plain("stop_on_entry", PropertyKind::Flag, Choices::Any, false), plain("backend", PropertyKind::Text, Choices::Backends, false)));
    out.push(with_three("attach", "Attach the debugger to a running process", plain("pid", PropertyKind::Number, Choices::Any, false), plain("wait_for", PropertyKind::Text, Choices::Any, false), plain("backend", PropertyKind::Text, Choices::Backends, false)));
    out.push(with_one("disconnect", "Disconnect from the debug session", plain("terminate", PropertyKind::Flag, Choices::Any, false)));
    out.push(with_two("set_breakpoint", "Set a source-line breakpoint", plain("file", PropertyKind::Text, Choices::Any, true), plain("line", PropertyKind::Number, Choices::Any, true)));
    out.push(with_one("set_function_breakpoint", "Set a breakpoint on a function by name", plain("name", PropertyKind::Text, Choices::Any, true)));
    out.push(with_one("remove_breakpoint", "Remove a breakpoint by ID", plain("breakpoint_id", PropertyKind::Number, Choices::Any, true)));
    out.push(bare("list_breakpoints", "List all current breakpoints"));
    out.push(bare("continue", "Continue execution of the paused program"));
    out.push(with_one("step_over", "Step over the current line or instruction", plain("granularity", PropertyKind::Text, Choices::Granularities, false)));
    out.push(with_one("step_into", "Step into the current line or instruction", plain("granularity", PropertyKind::Text, Choices::Granularities, false)));
    out.push(bare("step_out", "Step out of the current function"));
    out.push(bare("pause", "Pause all threads in the running program"));
    out.push(bare("status", "Get the current debug session status"));
    out.push(bare("backtrace", "Get the call stack for a thread"));
    out.push(bare("threads", "List all threads in the debugged process"));
    out.push(with_one("variables", "List variables in the current scope", plain("scope", PropertyKind::Text, Choices::Scopes, false)));
    out.push(with_one("evaluate", "Evaluate an expression in the debugger", plain("expression", PropertyKind::Text, Choices::Any, true)));
    out.push(bare("read_output", "Read captured program output (stdout, stderr, console)"));
    out.push(with_two("read_memory", "Read raw memory at a given address", plain("address", PropertyKind::Text, Choices::Any, true), plain("count", PropertyKind::Number, Choices::Any, true)));
    out.push(bare("disassemble", "Disassemble instructions at an address or the current PC"));
    out.push(with_one("run_command", "Run an LLDB command directly via the debug console", plain("command", PropertyKind::Text, Choices::Any, true)));
    assert(shapes(out@) =~= base_shapes());
    out
}

/// The tools that a server offers.
pub fn all_tools(caps: BackendCapabilities) -> (r: Vec<Tool>)
    ensures
        shapes(r@) == offered(caps),
{
    let mut out: Vec<Tool> = base_tools();
    if caps.crash_dump {
        out.push(with_two("open_crash_dump", "Open a crash dump", plain("dump_path", PropertyKind::Text, Choices::Any, true), plain("backend", PropertyKind::Text, Choices::Backends, false)));
    }
    if caps.kernel {
        out.push(with_two("attach_kernel", "Attach to a kernel target", plain("connection", PropertyKind::Text, Choices::Any, true), plain("backend", PropertyKind::Text, Choices::Backends, false)));
    }
    if caps.analyze {
        out.push(bare("analyze_crash", "Run the automated crash analysis"));
    }
    if caps.modules {
        out.push(bare("get_modules", "List the loaded modules"));
    }
    assert(shapes(out@) =~= offered(caps));
    out
}

/// The tools that every server offers come first, whatever the backends support; behind them
/// stands one tool for each thing that a backend supports.
pub proof fn base_tools_come_first(caps: BackendCapabilities)
    ensures
        offered(caps).take(base_shapes().len() as int) == base_shapes(),
        offered(BackendCapabilities::none()) == base_shapes(),
        offered(caps).contains(open_crash_dump_shape()) || !caps.crash_dump,
        offered(caps).contains(attach_kernel_shape()) || !caps.kernel,
        offered(caps).contains(analyze_crash_shape()) || !caps.analyze,
        offered(caps).contains(get_modules_shape()) || !caps.modules,
{
    let base = base_shapes();
    let n = base.len() as int;
    let all = offered(caps);
    assert(all.take(n) =~= base);
    assert(offered(BackendCapabilities::none()) =~= base);
    let a: int = if caps.crash_dump {
        1
    } else {
        0
    };
    let b: int = if caps.kernel {
        a + 1
    } else {
        a
    };
    let c: int = if caps.analyze {
        b + 1
    } else {
        b
    };
    if caps.crash_dump {
        assert(all[n] == open_crash_dump_shape());
    }
    if caps.kernel {
        assert(all[n + a] == attach_kernel_shape());
    }
    if caps.analyze {
        assert(all[n + b] == analyze_crash_shape());
    }
    if caps.modules {
        assert(all[n + c] == get_modules_shape());
    }
}

/// As many tools are offered as there are: the twenty-one that every server has, and one for each
/// thing that a backend supports.
pub proof fn nothing_else_is_offered(caps: BackendCapabilities)
    ensures
        offered(caps).len() == 21 + (if caps.crash_dump {
            1int
        } else {
            0
        }) + (if caps.kernel {
            1int
        } else {
            0
        }) + (if caps.analyze {
            1int
        } else {
            0
        }) + (if caps.modules {
            1int
        } else {
            0
        }),
{
}

} // verus!
