use vstd::prelude::*;

use crate::types::{Command, Position};

verus! {

/// A walk for the robot: where it starts and the moves it makes, in order.
#[derive(PartialEq, Eq, Debug, Clone)]
pub struct Request {
    pub start: Position,
    pub commands: Vec<Command>,
}

} // verus!
