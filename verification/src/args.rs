//! Validation of the four positional command-line arguments.

use vstd::prelude::*;
use crate::error::QrepError;

verus! {

/// One run's four arguments, in positional order.
#[derive(Debug)]
pub struct Invocation {
    pub target: String,
    pub replacement: String,
    pub input_file: String,
    pub output_file: String,
}

/// Validates the argument list (the program name excluded): exactly four
/// arguments, taken in positional order; any other count is an
/// `ArgumentCount` failure that reports the observed count.
pub fn parse_args(args: &Vec<String>) -> (r: Result<Invocation, QrepError>)
    ensures
        r is Ok <==> args@.len() == 4,
        r matches Ok(inv) ==> {
            &&& inv.target@ == args@[0]@
            &&& inv.replacement@ == args@[1]@
            &&& inv.input_file@ == args@[2]@
            &&& inv.output_file@ == args@[3]@
        },
        r matches Err(e) ==> e matches QrepError::ArgumentCount { got } && got == args@.len(),
{
    if args.len() != 4 {
        return Err(QrepError::ArgumentCount { got: args.len() });
    }
    Ok(
        Invocation {
            target: args[0].clone(),
            replacement: args[1].clone(),
            input_file: args[2].clone(),
            output_file: args[3].clone(),
        },
    )
}

} // verus!
