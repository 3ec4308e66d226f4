//! The tool server: what it is, and the tools that it offers.
use crate::factory::BackendFactory;
use crate::registry::BackendRegistry;
use crate::schema::{Tool, all_tools, offered, shapes};
use crate::text::same_text;
use vstd::prelude::*;
use vstd::string::*;

verus! {

broadcast use vstd::string::group_string_axioms;

/// What a server says of itself.
#[derive(Debug, Clone, Copy, PartialEq, Eq)]
pub struct ServerInfo {
    pub name: &'static str,
    pub version: &'static str,
    /// Whether the list of tools can change; none when the server offers no tools.
    pub tools_list_changed: Option<bool>,
}

/// The tool server.
pub struct ToolServer<F: ?Sized> {
    pub registry: BackendRegistry<F>,
}

impl<F: BackendFactory + ?Sized> ToolServer<F> {
    /// A server over the backends of a registry.
    pub fn new(registry: BackendRegistry<F>) -> (r: ToolServer<F>)
        ensures
            r.registry == registry,
    {
        ToolServer { registry }
    }

    /// What the server says of itself.
    pub fn get_info(&self) -> (r: ServerInfo)
        ensures
            r.name@ == "debug"@,
            r.version@ == "1.0.0"@,
            r.tools_list_changed == Some(false),
    {
        ServerInfo { name: "debug", version: "1.0.0", tools_list_changed: Some(false) }
    }

    /// The tools that the server offers. No backend is connected to for it.
    pub fn tools(&self) -> (r: Vec<Tool>)
        ensures
            shapes(r@) == offered(self.registry.union()),
    {
        all_tools(self.registry.capabilities())
    }

    /// The tool of a name, if the server offers it.
    pub fn get_tool(&self, name: &str) -> (r: Option<Tool>)
        ensures
            match r {
                Some(tool) => tool.shape().name == name@ && offered(self.registry.union()).contains(
                    tool.shape(),
                ),
                None => forall|i: int|
                    0 <= i < offered(self.registry.union()).len() ==> (#[trigger] offered(
                        self.registry.union(),
                    )[i]).name != name@,
            },
    {
        let tools: Vec<Tool> = self.tools();
        let ghost all = shapes(tools@);
        for tool in it: tools
            invariant
                all == offered(self.registry.union()),
                all == shapes(it.seq()),
                forall|j: int| 0 <= j < it.index() ==> (#[trigger] all[j]).name != name@,
        {
            assert(all[it.index()] == tool.shape());
            if same_text(tool.name, name) {
                assert(all.contains(tool.shape()));
                return Some(tool);
            }
        }
        None
    }
}

} // verus!
