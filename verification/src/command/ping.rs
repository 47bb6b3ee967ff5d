//! The ping command, which just replies to the user who sent the command.

use crate::command::{Response, ResponseView};
use vstd::prelude::*;

verus! {

/// Runs the ping command: the response is a pong.
pub fn ping() -> (response: Response)
    ensures
        response@ == ResponseView::Pong,
{
    Response::Pong
}

} // verus!
