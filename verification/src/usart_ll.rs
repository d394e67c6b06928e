//! The console device.

use crate::privilege::{is_privileged, Cpu, Fault};
use vstd::prelude::*;
use vstd::slice::slice_to_vec;

verus! {

/// The console, as the record of what was written to it: one entry for each
/// write, in the order of the writes.
pub struct Console {
    pub writes: Vec<Vec<u8>>,
}

impl Console {
    /// The writes so far, each as the bytes that it carried.
    pub open spec fn view(&self) -> Seq<Seq<u8>> {
        Seq::new(self.writes@.len(), |i: int| self.writes@[i]@)
    }

    /// A console that nothing was written to.
    pub fn new() -> (console: Console)
        ensures
            console@ == Seq::<Seq<u8>>::empty(),
    {
        Console { writes: Vec::new() }
    }
}

/// Writes a buffer to the console, as one write.
///
/// The device answers privileged code only. Driven by unprivileged code it
/// is left untouched and the fault is reported.
pub fn write_buf(cpu: &Cpu, console: &mut Console, buf: &[u8]) -> (outcome: Result<(), Fault>)
    ensures
        cpu.privileged() ==> outcome is Ok && final(console)@ == old(console)@.push(buf@),
        !cpu.privileged() ==> outcome == Err::<(), Fault>(Fault::NotPrivileged) && *final(console)
            == *old(console),
{
    if !is_privileged(cpu) {
        return Err(Fault::NotPrivileged);
    }
    console.writes.push(slice_to_vec(buf));
    assert(console@ =~= old(console)@.push(buf@));
    Ok(())
}

} // verus!
