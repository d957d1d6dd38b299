//! The tools that every agent has.
use vstd::prelude::*;

verus! {

/// The tools that come with the library.
#[derive(Debug, Clone, Copy, PartialEq, Eq, Structural)]
pub enum BuiltinTool {
    ReadFile,
    WriteFile,
    RunCommand,
}

/// The tools of an agent, in the order in which they were registered.
#[derive(Debug, Clone, PartialEq, Eq)]
pub struct ToolRegistry {
    pub tools: Vec<BuiltinTool>,
}

impl ToolRegistry {
    /// No tools.
    pub fn new() -> (res: Self)
        ensures
            res.tools@.len() == 0,
    {
        ToolRegistry { tools: Vec::new() }
    }

    /// Adds a tool.
    pub fn register(&mut self, tool: BuiltinTool)
        ensures
            final(self).tools@ == old(self).tools@.push(tool),
    {
        self.tools.push(tool);
    }
}

/// The tools that every agent has: to read and write files, and to run commands.
pub fn default_tool_registry() -> (res: ToolRegistry)
    ensures
        res.tools@ == seq![
            BuiltinTool::ReadFile,
            BuiltinTool::WriteFile,
            BuiltinTool::RunCommand,
        ],
{
    let mut registry = ToolRegistry::new();
    registry.register(BuiltinTool::ReadFile);
    registry.register(BuiltinTool::WriteFile);
    registry.register(BuiltinTool::RunCommand);
    registry
}

} // verus!
