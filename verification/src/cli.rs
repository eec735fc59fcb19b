//! The command line: one argument, the track to play.

use vstd::prelude::*;
use crate::error::PlayError;

verus! {

/// The track named on the command line. `arguments` are the words after the
/// program's own name: exactly one names the track, and any other number of
/// them is an error.
pub fn track_argument(arguments: Vec<String>) -> (r: Result<String, PlayError>)
    ensures
        r == if arguments@.len() == 1 {
            Ok::<String, PlayError>(arguments@[0])
        } else {
            Err(PlayError::MissingArgument)
        },
{
    let mut arguments = arguments;
    if arguments.len() != 1 {
        return Err(PlayError::MissingArgument);
    }
    match arguments.pop() {
        Some(track) => Ok(track),
        None => Err(PlayError::MissingArgument),
    }
}

} // verus!
