//! Construction of the machine state a cartridge image boots with.

use vstd::prelude::*;
use crate::z80;

verus! {

/// A machine state over the given cartridge image: a 127-byte stack and
/// execution starting at address 0x100.
pub fn gameboy_init(mem: Vec<u8>) -> (s: z80::State)
    ensures
        s.mem@ == mem@,
        s.stack@ == Seq::new(127, |i: int| 0u8),
        s.reg == (z80::Register {
            pc: 0x100,
            sp: 127,
            a: 0,
            b: 0,
            c: 0,
            d: 0,
            e: 0,
            h: 0,
            l: 0,
            f: 0,
        }),
{
    z80::initial_state(mem, 127, 0x100)
}

} // verus!
