//! The outcome of verifying a program file: the verifier's verdict and
//! the instruction count reported on success.

use vstd::prelude::*;
use vstd::string::StringExecFns;

use crate::bytecode::stream::{count_decoded, instruction_count, spec_items};
use crate::text::decimal::{push_decimal, spec_decimal};

use super::checker::{spec_verify, verify, VerifierError};
use super::program::Program;

verus! {

/// Run the standard verifier over `program`; on success, the number of
/// instructions its code decodes to.
pub fn verify_and_count(program: &Program) -> (r: Result<usize, VerifierError>)
    ensures
        match spec_verify(*program) {
            Ok(()) => r == Ok::<usize, VerifierError>(count_decoded(spec_items(program.spec_code())) as usize),
            Err(e) => r == Err::<usize, VerifierError>(e),
        },
{
    match verify(program) {
        Err(e) => Err(e),
        Ok(()) => Ok(instruction_count(program.code())),
    }
}

/// `ok: FILE (N instruction[s])`: the report of a program that verified.
pub open spec fn spec_ok_line(file: Seq<char>, count: nat) -> Seq<char> {
    "ok: "@ + file + " ("@ + spec_decimal(count) + " instruction"@ + if count == 1 {
        Seq::empty()
    } else {
        "s"@
    } + ")"@
}

/// The report line of a program that verified: its file name and its
/// instruction count.
pub fn ok_line(file: &str, count: usize) -> (s: String)
    ensures
        s@ == spec_ok_line(file@, count as nat),
{
    let mut out = String::new();
    out.append("ok: ");
    out.append(file);
    out.append(" (");
    push_decimal(&mut out, count);
    out.append(" instruction");
    if count != 1 {
        out.append("s");
    }
    out.append(")");
    proof {
        assert(out@ =~= spec_ok_line(file@, count as nat));
    }
    out
}

} // verus!
