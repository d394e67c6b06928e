//! Console output as a mediated resource: the request that unprivileged code
//! makes, the handler that serves it, and the direct path for code that is
//! privileged already.

use crate::context::MemoryMap;
use crate::privilege::{Cpu, Fault};
use crate::syscall::{syscall_received, Kernel, Syscall, SYSCALL_REFUSED};
use crate::syscall_ll::syscall;
use crate::usart_ll::{write_buf, Console};
use vstd::prelude::*;
use vstd::string::StringSliceAdditionalSpecFns;

verus! {

/// Writes the message that lies at `ptr` to the console, by a syscall. The
/// length that travels with the pointer is the length of the message in
/// bytes. The result of the call is not looked at.
///
/// The console receives what the memory holds in that range, as one write,
/// if and only if the whole range lies in the caller's access window;
/// otherwise nothing reaches it. The caller resumes in its own context either
/// way.
pub fn output(cpu: &mut Cpu, kernel: Kernel, ptr: usize, msg: &str) -> (served: Kernel)
    ensures
        served.memory == kernel.memory,
        kernel.memory.window_covers(ptr as int, msg.spec_bytes().len() as int)
            ==> served.console@ == kernel.console@.push(
            kernel.memory.contents(ptr as int, msg.spec_bytes().len() as int),
        ) && *final(cpu) == old(cpu).after_trap(
            old(cpu).regs.with_call(
                Syscall::UsartOutput.spec_number(),
                ptr,
                msg.spec_bytes().len() as usize,
                0,
            ),
            0,
        ),
        !kernel.memory.window_covers(ptr as int, msg.spec_bytes().len() as int)
            ==> served.console == kernel.console && *final(cpu) == old(cpu).after_trap(
            old(cpu).regs.with_call(
                Syscall::UsartOutput.spec_number(),
                ptr,
                msg.spec_bytes().len() as usize,
                0,
            ),
            SYSCALL_REFUSED,
        ),
{
    let reply = syscall(
        cpu,
        kernel,
        &syscall_received,
        Syscall::UsartOutput.number(),
        ptr,
        msg.as_bytes().len(),
        0,
    );
    reply.0
}

/// Serves the console output syscall.
///
/// The range is checked against the caller's access window before anything
/// else is done. A range that is not wholly inside it is declined and no
/// byte of it is read or written. Otherwise the bytes go to the console as
/// one write and the result is 0.
pub fn syscall_output(
    cpu: &Cpu,
    memory: &MemoryMap,
    console: &mut Console,
    ptr: usize,
    len: usize,
    _unused: usize,
) -> (outcome: Result<Option<usize>, Fault>)
    ensures
        outcome == Ok::<Option<usize>, Fault>(None) <==> !memory.window_covers(
            ptr as int,
            len as int,
        ),
        outcome == Err::<Option<usize>, Fault>(Fault::NotPrivileged) <==> memory.window_covers(
            ptr as int,
            len as int,
        ) && !cpu.privileged(),
        outcome == Ok::<Option<usize>, Fault>(Some(0)) <==> memory.window_covers(
            ptr as int,
            len as int,
        ) && cpu.privileged(),
        outcome == Ok::<Option<usize>, Fault>(Some(0)) ==> final(console)@ == old(console)@.push(
            memory.contents(ptr as int, len as int),
        ),
        outcome != Ok::<Option<usize>, Fault>(Some(0)) ==> *final(console) == *old(console),
{
    if !memory.is_readable_from_current_context(ptr, len) {
        return Ok(None);
    }
    assert(memory.maps(ptr as int, len as int)) by {
        assert forall|a: int| ptr <= a < ptr + len implies memory.mapped(a) by {
            assert(memory.in_window(a));
        }
    }
    match memory.read(ptr, len) {
        Some(bytes) => match write_buf(cpu, console, bytes.as_slice()) {
            Ok(()) => Ok(Some(0)),
            Err(fault) => Err(fault),
        },
        None => Ok(None),
    }
}

/// Writes a message to the console without a syscall, for code that runs
/// privileged already.
pub fn privileged_output(cpu: &Cpu, console: &mut Console, msg: &str) -> (outcome: Result<
    (),
    Fault,
>)
    ensures
        cpu.privileged() ==> outcome is Ok && final(console)@ == old(console)@.push(
            msg.spec_bytes(),
        ),
        !cpu.privileged() ==> outcome == Err::<(), Fault>(Fault::NotPrivileged) && *final(console)
            == *old(console),
{
    write_buf(cpu, console, msg.as_bytes())
}

} // verus!
