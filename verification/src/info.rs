//! The debug report: one block of ASCII text per processed frame.

use vstd::prelude::*;
use vstd::string::StringSliceAdditionalSpecFns;
use crate::motor::MotorCommand;
use crate::units::{whole_centimeters, Coord};

verus! {

/// The decimal digits of `n`, most significant first, without leading zeros.
pub open spec fn decimal_digits(n: nat) -> Seq<u8>
    decreases n,
{
    if n < 10 {
        seq![(48 + n) as u8]
    } else {
        decimal_digits(n / 10).push((48 + n % 10) as u8)
    }
}

/// The decimal text of `value` in ASCII: a minus sign for a negative number,
/// then its digits.
pub open spec fn decimal_text(value: int) -> Seq<u8> {
    if value < 0 {
        seq![45u8] + decimal_digits((-value) as nat)
    } else {
        decimal_digits(value as nat)
    }
}

/// The text of one debug report.
///
/// Three lines, each ended by a line feed and a carriage return: the two
/// encoder counts, the two motor command magnitudes, and the position in
/// whole centimeters.
pub open spec fn info_text(
    qei_left: int,
    qei_right: int,
    command_left: MotorCommand,
    command_right: MotorCommand,
    position: Coord,
) -> Seq<u8> {
    let x_cm = whole_centimeters(position.x.0 as int);
    let y_cm = whole_centimeters(position.y.0 as int);
    let counts = "QEI : ".spec_bytes() + decimal_text(qei_left) + " | ".spec_bytes()
        + decimal_text(qei_right) + "\n\r".spec_bytes();
    let commands = "COMMAND : ".spec_bytes() + decimal_text(command_left.value() as int)
        + " | ".spec_bytes() + decimal_text(command_right.value() as int) + "\n\r".spec_bytes();
    let place = "POSITION : ".spec_bytes() + decimal_text(x_cm) + "cm".spec_bytes()
        + " | ".spec_bytes() + decimal_text(y_cm) + "cm".spec_bytes() + "\n\r".spec_bytes();
    counts + commands + place
}

/// Decimal text of a signed 64-bit number, computed by
/// `<i64 as numtoa::NumToA<i64>>::numtoa` in base 10 on a 64-byte scratch
/// buffer. The contract is not proved: it claims that the bytes handed back
/// are the usual decimal notation, `-` included for negative numbers and
/// `i64::MIN` too. The longest such text has 20 bytes, so the buffer is
/// never too small.
#[verifier::external_body]
fn numtoa_decimal(value: i64) -> (text: Vec<u8>)
    ensures
        text@ == decimal_text(value as int),
{
    let mut buffer: [u8; 64] = [0u8; 64];
    numtoa::NumToA::numtoa(value, 10i64, &mut buffer).to_vec()
}

/// Appends `bytes` to `out`.
fn put(out: &mut Vec<u8>, bytes: &[u8])
    ensures
        final(out)@ == old(out)@ + bytes@,
{
    let mut i: usize = 0;
    while i < bytes.len()
        invariant
            i <= bytes.len(),
            out@ == old(out)@ + bytes@.subrange(0, i as int),
        decreases bytes.len() - i,
    {
        out.push(bytes[i]);
        i = i + 1;
    }
}

/// Appends the decimal text of `value` to `out`.
fn put_number(out: &mut Vec<u8>, value: i64)
    ensures
        final(out)@ == old(out)@ + decimal_text(value as int),
{
    let text = numtoa_decimal(value);
    put(out, text.as_slice());
}

/// Writes one debug report to the byte sink `ser`.
///
/// The encoder counts and the commands are written as they are given; of a
/// command only the magnitude is shown. What the sink held before stays in
/// front of the report.
pub fn write_info(
    ser: &mut Vec<u8>,
    qei_left: i64,
    qei_right: i64,
    command_left: MotorCommand,
    command_right: MotorCommand,
    position: Coord,
)
    ensures
        final(ser)@ == old(ser)@ + info_text(
            qei_left as int,
            qei_right as int,
            command_left,
            command_right,
            position,
        ),
{
    put(ser, "QEI : ".as_bytes());
    put_number(ser, qei_left);
    put(ser, " | ".as_bytes());
    put_number(ser, qei_right);
    put(ser, "\n\r".as_bytes());
    put(ser, "COMMAND : ".as_bytes());
    put_number(ser, command_left.get_value() as i64);
    put(ser, " | ".as_bytes());
    put_number(ser, command_right.get_value() as i64);
    put(ser, "\n\r".as_bytes());
    put(ser, "POSITION : ".as_bytes());
    put_number(ser, position.x.as_centimeters());
    put(ser, "cm".as_bytes());
    put(ser, " | ".as_bytes());
    put_number(ser, position.y.as_centimeters());
    put(ser, "cm".as_bytes());
    put(ser, "\n\r".as_bytes());
}

} // verus!
