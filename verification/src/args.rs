//! The argument convention shared by the two operations: two text arguments.

use crate::error::ArchiveError;
use crate::error::Operation;
use vstd::prelude::*;

verus! {

/// What `text_args` returns for an argument list: a usage error when fewer
/// than two arguments were supplied, otherwise the first argument that is not
/// text decides the error, and two text arguments are handed back in order.
/// Arguments past the second are ignored.
pub open spec fn spec_text_args(op: Operation, args: Seq<Result<String, String>>) -> Result<
    (String, String),
    ArchiveError,
> {
    if args.len() < 2 {
        Err(ArchiveError::Usage(op))
    } else {
        match (args[0], args[1]) {
            (Err(text), _) => Err(ArchiveError::Argument(text)),
            (Ok(_), Err(text)) => Err(ArchiveError::Argument(text)),
            (Ok(first), Ok(second)) => Ok((first, second)),
        }
    }
}

/// Checks the arity of an argument list and takes its two text arguments.
/// Each argument arrives as the host read it: `Ok` with the text, or `Err`
/// with the host's message when the value is not text.
pub fn text_args(op: Operation, args: &Vec<Result<String, String>>) -> (r: Result<
    (String, String),
    ArchiveError,
>)
    ensures
        r == spec_text_args(op, args@),
        args@.len() < 2 ==> r == Err::<(String, String), ArchiveError>(ArchiveError::Usage(op)),
{
    if args.len() < 2 {
        return Err(ArchiveError::Usage(op));
    }
    match &args[0] {
        Err(text) => Err(ArchiveError::Argument(text.clone())),
        Ok(first) => match &args[1] {
            Err(text) => Err(ArchiveError::Argument(text.clone())),
            Ok(second) => Ok((first.clone(), second.clone())),
        },
    }
}

} // verus!
