//! The hook for abnormal termination: what is reported, and that the
//! machine is then stopped.

use vstd::prelude::*;
use vstd::string::*;
use crate::reset::Action;

verus! {

/// The decimal digits of `n` in ASCII, without leading zeros.
pub open spec fn decimal(n: nat) -> Seq<u8>
    decreases n,
{
    if n < 10 {
        seq![(48 + n) as u8]
    } else {
        decimal(n / 10).push((48 + n % 10) as u8)
    }
}

/// The bytes of `panicked at '`.
pub open spec fn report_head() -> Seq<u8> {
    seq![112u8, 97u8, 110u8, 105u8, 99u8, 107u8, 101u8, 100u8, 32u8, 97u8, 116u8, 32u8, 39u8]
}

/// The report of a failure: `panicked at '`, the message, `', `, the file,
/// a colon, the line in decimal, and a line feed.
pub open spec fn report(message: Seq<u8>, file: Seq<u8>, line: u32) -> Seq<u8> {
    report_head() + message + seq![39u8, 44u8, 32u8] + file + seq![58u8] + decimal(line as nat)
        + seq![10u8]
}

/// What the hook asks for: the text for the debug channel, if there is one,
/// and then the action that ends the program.
#[derive(Debug)]
pub struct Outcome {
    /// The bytes to send to the debug channel before stopping.
    pub report: Option<Vec<u8>>,
    /// What to do after that: always [`Action::Halt`].
    pub action: Action,
}

fn push_decimal(out: &mut Vec<u8>, n: u32)
    ensures
        final(out)@ == old(out)@ + decimal(n as nat),
    decreases n,
{
    if n >= 10 {
        push_decimal(out, n / 10);
    }
    let digit: u8 = (n % 10) as u8;
    out.push(48 + digit);
    assert(out@ =~= old(out)@ + decimal(n as nat));
}

/// The hook for a failure with `message`, raised at `line` of `file`. With
/// a debug channel (`semihosting`) the outcome carries the report, without
/// one it carries none; either way the machine is halted afterwards.
pub fn panic_fmt(message: &str, file: &str, line: u32, semihosting: bool) -> (outcome: Outcome)
    ensures
        outcome.action == Action::Halt,
        semihosting ==> outcome.report is Some && outcome.report->Some_0@ == report(
            message.spec_bytes(),
            file.spec_bytes(),
            line,
        ),
        !semihosting ==> outcome.report is None,
{
    if !semihosting {
        return Outcome { report: None, action: Action::Halt };
    }
    let mut out: Vec<u8> = Vec::new();
    out.push(112u8);
    out.push(97u8);
    out.push(110u8);
    out.push(105u8);
    out.push(99u8);
    out.push(107u8);
    out.push(101u8);
    out.push(100u8);
    out.push(32u8);
    out.push(97u8);
    out.push(116u8);
    out.push(32u8);
    out.push(39u8);
    assert(out@ =~= report_head());
    out.extend_from_slice(message.as_bytes());
    out.push(39u8);
    out.push(44u8);
    out.push(32u8);
    out.extend_from_slice(file.as_bytes());
    out.push(58u8);
    push_decimal(&mut out, line);
    out.push(10u8);
    assert(out@ =~= report(message.spec_bytes(), file.spec_bytes(), line));
    Outcome { report: Some(out), action: Action::Halt }
}

} // verus!
