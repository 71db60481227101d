//! Messages for the console of the host.
//!
//! The functions here make up what is logged; the host writes it out.

use vstd::prelude::*;

verus! {

/// How important a message is.
#[derive(Copy, Clone, Debug, PartialEq, Eq, Structural)]
pub enum Level {
    Trace,
    Debug,
    Info,
    Warn,
    Error,
}

/// A message for the console.
#[derive(Debug, PartialEq, Eq)]
pub struct LogRecord {
    pub level: Level,
    /// What the message belongs to.
    pub context: Vec<u8>,
    pub message: Vec<u8>,
}

/// The context of what would go to the standard error stream: `stderr`.
pub open spec fn stderr_context() -> Seq<u8> {
    seq![115u8, 116u8, 100u8, 101u8, 114u8, 114u8]
}

/// The number that a sequence of decimal digits, in ASCII, stands for.
pub open spec fn decimal_value(digits: Seq<u8>) -> nat
    decreases digits.len(),
{
    if digits.len() == 0 {
        0
    } else {
        10 * decimal_value(digits.drop_last()) + (digits.last() - 48) as nat
    }
}

/// Whether the bytes are the decimal numeral of a number: ASCII digits, at
/// least one, and no zero in front of another digit.
pub open spec fn is_decimal_numeral(digits: Seq<u8>) -> bool {
    &&& digits.len() >= 1
    &&& forall|i: int| 0 <= i < digits.len() ==> 48 <= #[trigger] digits[i] <= 57
    &&& digits.len() > 1 ==> digits[0] != 48
}

/// The record that logs `message` where the standard error stream would
/// be: at level `Info`, in the context `stderr`.
pub fn puts(message: &[u8]) -> (record: LogRecord)
    ensures
        record.level == Level::Info,
        record.context@ == stderr_context(),
        record.message@ == message@,
{
    let mut context: Vec<u8> = Vec::new();
    context.push(115u8);
    context.push(116u8);
    context.push(100u8);
    context.push(101u8);
    context.push(114u8);
    context.push(114u8);
    assert(context@ == stderr_context());
    let mut copy: Vec<u8> = Vec::new();
    let mut index: usize = 0;
    while index < message.len()
        invariant
            index <= message.len(),
            copy@ == message@.take(index as int),
        decreases message.len() - index,
    {
        copy.push(message[index]);
        assert(message@.take(index + 1) == message@.take(index as int).push(message@[index as int]));
        index = index + 1;
    }
    assert(message@.take(index as int) == message@);
    LogRecord { level: Level::Info, context, message: copy }
}

/// Appends the decimal digits of a number that is not zero, and nothing for
/// zero.
fn eprint_u32_impl(x: u32, digits: &mut Vec<u8>)
    requires
        old(digits)@.len() == 0,
    ensures
        decimal_value(final(digits)@) == x,
        forall|i: int| 0 <= i < final(digits)@.len() ==> 48 <= #[trigger] final(digits)@[i] <= 57,
        x == 0 <==> final(digits)@.len() == 0,
        x != 0 ==> final(digits)@[0] != 48,
    decreases x,
{
    if x != 0 {
        eprint_u32_impl(x / 10, digits);
        let ghost front = digits@;
        let digit = 48u8 + (x % 10) as u8;
        digits.push(digit);
        assert(digits@.drop_last() == front);
        assert(digits@[0] != 48) by {
            if front.len() > 0 {
                assert(digits@[0] == front[0]);
            }
        }
    }
}

/// The decimal numeral of `x`, as the bytes to print.
pub fn eprint_u32(x: u32) -> (digits: Vec<u8>)
    ensures
        is_decimal_numeral(digits@),
        decimal_value(digits@) == x,
{
    let mut digits: Vec<u8> = Vec::new();
    if x == 0 {
        digits.push(48u8);
        assert(decimal_value(digits@.drop_last()) == 0);
    } else {
        eprint_u32_impl(x, &mut digits);
    }
    digits
}

} // verus!
