//! Built-in tools. Kept deliberately small and self-contained.

use vstd::prelude::*;

use super::arithmetic::{compile, program_of, Program};
use super::{Tool, ToolRegistry};
use crate::error::{ToolError, ToolErrorView};
use crate::json::{json_string_field, Json};

verus! {

broadcast use vstd::string::group_string_axioms;

/// Compiles a basic arithmetic expression: `+ - * /`, parentheses, and unary
/// `+`/`-`. Proves the JSON-in tool path end to end.
#[derive(Debug, Clone, Copy, PartialEq, Eq, Structural)]
pub struct CalculatorTool;

impl Tool for CalculatorTool {
    type Output = Program;

    open spec fn name_text(&self) -> Seq<char> {
        "calculator"@
    }

    open spec fn description_text(&self) -> Seq<char> {
        "Evaluate a basic arithmetic expression (supports + - * /, parentheses)."@
    }

    open spec fn parameters_text(&self) -> Seq<char> {
        "{\"properties\":{\"expression\":{\"description\":\"An arithmetic expression, e.g. \\\"2 + 3 * (4 - 1)\\\"\",\"type\":\"string\"}},\"required\":[\"expression\"],\"type\":\"object\"}"@
    }

    fn name(&self) -> &str {
        "calculator"
    }

    fn description(&self) -> &str {
        "Evaluate a basic arithmetic expression (supports + - * /, parentheses)."
    }

    fn parameters(&self) -> Json {
        Json::of_compact(
            "{\"properties\":{\"expression\":{\"description\":\"An arithmetic expression, e.g. \\\"2 + 3 * (4 - 1)\\\"\",\"type\":\"string\"}},\"required\":[\"expression\"],\"type\":\"object\"}",
        )
    }

    /// The program of the string field `expression`. The input must have one.
    fn execute(&self, input: &Json) -> (outcome: Result<Program, ToolError>)
        ensures
            match (outcome, json_string_field(input@, "expression"@)) {
                (Ok(program), Some(expression)) => program@ == program_of(expression),
                (Err(error), None) => error@ == ToolErrorView::InvalidInput(
                    "expected string field 'expression'"@,
                ),
                _ => false,
            },
    {
        match input.string_field("expression") {
            Some(expression) => Ok(compile(expression.as_str())),
            None => Err(ToolError::InvalidInput("expected string field 'expression'".to_owned())),
        }
    }
}

/// A registry wired with the built-in tools.
pub fn default_registry() -> (registry: ToolRegistry<CalculatorTool>)
    ensures
        registry@ == map!["calculator"@ => CalculatorTool],
{
    let mut registry = ToolRegistry::new();
    let _ = registry.register(CalculatorTool);
    assert(registry@ =~= map!["calculator"@ => CalculatorTool]);
    registry
}

} // verus!
