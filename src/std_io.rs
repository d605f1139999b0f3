//! The weather tool set: one tool that reports the forecast for a location.

use vstd::prelude::*;
use crate::registry::{
    ParamSpec, ServerSummary, ToolDescriptor, ToolRegistry, ValueKind, names_unique, tool_capabilities,
    tools_only,
};

pub mod calculator;

verus! {

/// A required number parameter of the given name and description.
pub open spec fn is_number_param(p: ParamSpec, name: Seq<char>, description: Seq<char>) -> bool {
    p.name@ == name && p.description@ == description && p.kind == ValueKind::Number
}

/// A required number parameter.
pub fn number_param(name: &str, description: &str) -> (r: ParamSpec)
    ensures
        is_number_param(r, name@, description@),
{
    ParamSpec {
        name: String::from_str(name),
        description: String::from_str(description),
        kind: ValueKind::Number,
    }
}

/// The server that offers the weather tool.
#[derive(Clone, Copy, Debug)]
pub struct Weather;

impl Weather {
    /// The weather tool set: `get_weather_info`, taking `latitude` and `longitude`.
    pub fn tools() -> (r: ToolRegistry)
        ensures
            names_unique(r@),
            r@.len() == 1,
            r@[0].name@ == "get_weather_info"@,
            r@[0].description@ == "Get the weather information of a specific location"@,
            r@[0].params@.len() == 2,
            is_number_param(r@[0].params@[0], "latitude"@, "the latitude of the location"@),
            is_number_param(r@[0].params@[1], "longitude"@, "the longitude of the location"@),
    {
        let mut params: Vec<ParamSpec> = Vec::new();
        params.push(number_param("latitude", "the latitude of the location"));
        params.push(number_param("longitude", "the longitude of the location"));
        let tool = ToolDescriptor {
            name: String::from_str("get_weather_info"),
            description: String::from_str("Get the weather information of a specific location"),
            params,
        };
        let mut registry = ToolRegistry::new();
        registry.register(tool);
        registry
    }

    /// What the weather server reports about itself.
    pub fn get_info(&self) -> (r: ServerSummary)
        ensures
            r.instructions@ == "A simple weather information provider"@,
            r.capabilities == tools_only(),
    {
        ServerSummary {
            instructions: String::from_str("A simple weather information provider"),
            capabilities: tool_capabilities(),
        }
    }
}

} // verus!
