//! The firmware console: a sink that takes one byte per supervisor call.
//!
//! The sink is modelled by the bytes it was given, oldest first. Whoever
//! drives the machine takes them out and shows them.

use vstd::prelude::*;
use vstd::string::StringSliceAdditionalSpecFns;

verus! {

/// The extension identifier that the firmware reads as "console putchar".
pub const SBI_CONSOLE_PUTCHAR_EID: i64 = 0x01;

/// The function identifier that goes with `SBI_CONSOLE_PUTCHAR_EID`.
pub const SBI_CONSOLE_PUTCHAR_FID: i64 = 0;

/// The bytes handed to the firmware console and not yet taken out.
#[derive(Debug)]
pub struct Console {
    out: Vec<u8>,
}

impl View for Console {
    type V = Seq<u8>;

    closed spec fn view(&self) -> Seq<u8> {
        self.out@
    }
}

/// The byte that a console call carries in its first argument register.
pub open spec fn low_byte(a0: i64) -> u8 {
    (a0 & 0xff) as u8
}

/// What the console holds after a supervisor call: the call whose
/// identifier pair means "console putchar" appends the low byte of its
/// first argument, and every other call leaves the console alone.
pub open spec fn after_sbi_call(out: Seq<u8>, a0: i64, fid: i64, eid: i64) -> Seq<u8> {
    if eid == SBI_CONSOLE_PUTCHAR_EID && fid == SBI_CONSOLE_PUTCHAR_FID {
        out.push(low_byte(a0))
    } else {
        out
    }
}

/// A byte widened to an argument register keeps its value in the low byte.
pub proof fn lemma_low_byte(ch: u8)
    ensures
        low_byte(ch as i64) == ch,
{
    assert(((ch as i64) & 0xff) as u8 == ch) by (bit_vector);
}

impl Console {
    /// A console that has been given nothing.
    pub fn new() -> (console: Console)
        ensures
            console@ == Seq::<u8>::empty(),
    {
        Console { out: Vec::new() }
    }

    /// The bytes given so far and not yet taken out, oldest first.
    pub fn output(&self) -> (bytes: &Vec<u8>)
        ensures
            bytes@ == self@,
    {
        &self.out
    }

    /// Takes out the bytes given so far and leaves the console empty.
    pub fn take(&mut self) -> (bytes: Vec<u8>)
        ensures
            bytes@ == old(self)@,
            final(self)@ == Seq::<u8>::empty(),
    {
        let mut bytes: Vec<u8> = Vec::new();
        core::mem::swap(&mut bytes, &mut self.out);
        bytes
    }
}

/// Makes one supervisor call with the given argument and identifier registers.
pub fn sbi_call(console: &mut Console, a0: i64, a1: i64, fid: i64, eid: i64)
    ensures
        final(console)@ == after_sbi_call(old(console)@, a0, fid, eid),
{
    if eid == SBI_CONSOLE_PUTCHAR_EID && fid == SBI_CONSOLE_PUTCHAR_FID {
        let byte: u8 = (a0 & 0xff) as u8;
        console.out.push(byte);
    }
}

/// Emits one byte on the console.
pub fn putchar(console: &mut Console, ch: u8)
    ensures
        final(console)@ == old(console)@.push(ch),
{
    proof {
        lemma_low_byte(ch);
    }
    sbi_call(console, ch as i64, 0, SBI_CONSOLE_PUTCHAR_FID, SBI_CONSOLE_PUTCHAR_EID);
}

/// Emits the bytes of `s` on the console, one call per byte, in order.
pub fn print(console: &mut Console, s: &str)
    ensures
        final(console)@ == old(console)@ + s.spec_bytes(),
{
    let bytes = s.as_bytes();
    let mut i: usize = 0;
    while i < bytes.len()
        invariant
            i <= bytes@.len(),
            bytes@ == s.spec_bytes(),
            console@ == old(console)@ + bytes@.take(i as int),
        decreases bytes@.len() - i,
    {
        putchar(console, bytes[i]);
        assert(bytes@.take(i + 1) =~= bytes@.take(i as int).push(bytes@[i as int]));
        assert(console@ =~= old(console)@ + bytes@.take(i + 1));
        i += 1;
    }
    assert(bytes@.take(bytes@.len() as int) =~= bytes@);
}

} // verus!
