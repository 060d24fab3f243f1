//! What the snake says of itself.

use vstd::prelude::*;
use crate::models::{RootResponse, RootResponseView};

verus! {

/// The description of this snake: the version of the interface it speaks, its
/// author, its colour, the style of its head and tail, and its own version.
pub open spec fn description() -> RootResponseView {
    RootResponseView {
        apiversion: "1"@,
        author: "MyUsername"@,
        color: "#888888"@,
        head: "default"@,
        tail: "default"@,
        version: "0.0.1-beta"@,
    }
}

/// The description of this snake.
pub fn index() -> (response: RootResponse)
    ensures
        response@ == description(),
{
    RootResponse {
        apiversion: "1".to_string(),
        author: "MyUsername".to_string(),
        color: "#888888".to_string(),
        head: "default".to_string(),
        tail: "default".to_string(),
        version: "0.0.1-beta".to_string(),
    }
}

} // verus!
