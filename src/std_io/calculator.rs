//! The calculator tool set: `sum` and `sub` of two numbers.

use vstd::prelude::*;
use crate::registry::{ParamSpec, ServerSummary, ToolDescriptor, ToolRegistry, names_unique, tool_capabilities, tools_only};
use crate::std_io::{is_number_param, number_param};

verus! {

/// The two operands of a calculator tool.
pub fn operand_params() -> (r: Vec<ParamSpec>)
    ensures
        r@.len() == 2,
        is_number_param(r@[0], "lhs"@, "the left hand side number"@),
        is_number_param(r@[1], "rhs"@, "the right hand side number"@),
{
    let mut params: Vec<ParamSpec> = Vec::new();
    params.push(number_param("lhs", "the left hand side number"));
    params.push(number_param("rhs", "the right hand side number"));
    params
}

/// The server that offers the calculator tools.
#[derive(Clone, Copy, Debug)]
pub struct Calculator;

impl Calculator {
    /// The calculator tool set: `sum` then `sub`, each taking `lhs` and `rhs`.
    pub fn tools() -> (r: ToolRegistry)
        ensures
            names_unique(r@),
            r@.len() == 2,
            r@[0].name@ == "sum"@,
            r@[0].description@ == "Calculate the sum of two numbers"@,
            r@[1].name@ == "sub"@,
            r@[1].description@ == "Calculate the sub of two numbers"@,
            forall|i: int|
                0 <= i < 2 ==> #[trigger] r@[i].params@.len() == 2 && is_number_param(
                    r@[i].params@[0],
                    "lhs"@,
                    "the left hand side number"@,
                ) && is_number_param(r@[i].params@[1], "rhs"@, "the right hand side number"@),
    {
        let sum = ToolDescriptor {
            name: String::from_str("sum"),
            description: String::from_str("Calculate the sum of two numbers"),
            params: operand_params(),
        };
        let sub = ToolDescriptor {
            name: String::from_str("sub"),
            description: String::from_str("Calculate the sub of two numbers"),
            params: operand_params(),
        };
        let mut registry = ToolRegistry::new();
        registry.register(sum);
        proof {
            reveal_strlit("sum");
            reveal_strlit("sub");
            assert("sum"@[2] != "sub"@[2]);
        }
        registry.register(sub);
        registry
    }

    /// What the calculator server reports about itself.
    pub fn get_info(&self) -> (r: ServerSummary)
        ensures
            r.instructions@ == "A simple calculator"@,
            r.capabilities == tools_only(),
    {
        ServerSummary {
            instructions: String::from_str("A simple calculator"),
            capabilities: tool_capabilities(),
        }
    }
}

} // verus!
