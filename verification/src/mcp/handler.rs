//! Dispatching tool calls by name.
use vstd::prelude::*;

use crate::text::str_eq;

verus! {

/// Baker MCP server handler.
#[derive(Debug)]
pub struct BakerHandler;

impl Default for BakerHandler {
    fn default() -> (r: Self)
        ensures
            r == BakerHandler,
    {
        BakerHandler
    }
}

/// The tools the server offers.
#[derive(Debug, Clone, Copy, PartialEq, Eq, Structural)]
pub enum ToolName {
    /// `list_templates`
    ListTemplates,
    /// `generate`
    Generate,
}

/// The tool called by `name`, if there is one.
pub open spec fn tool_named(name: Seq<char>) -> Option<ToolName> {
    if name == "list_templates"@ {
        Some(ToolName::ListTemplates)
    } else if name == "generate"@ {
        Some(ToolName::Generate)
    } else {
        None
    }
}

impl BakerHandler {
    /// The tool a call names; `None` for an unknown tool.
    pub fn tool_for(&self, name: &str) -> (r: Option<ToolName>)
        ensures
            r == tool_named(name@),
    {
        if str_eq(name, "list_templates") {
            Some(ToolName::ListTemplates)
        } else if str_eq(name, "generate") {
            Some(ToolName::Generate)
        } else {
            None
        }
    }
}

} // verus!
