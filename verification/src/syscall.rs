//! The syscall numbers and the routine that resolves a trapped call to its
//! handler.

use crate::context::MemoryMap;
use crate::privilege::Cpu;
use crate::syscall::usart::syscall_output;
use crate::usart_ll::Console;
use vstd::prelude::*;

pub mod usart;

verus! {

/// The result word of a call that was refused: no handler is registered
/// under the number, or the handler declined the request.
pub const SYSCALL_REFUSED: usize = usize::MAX;

/// The operations that unprivileged code can ask for.
#[derive(Clone, Copy, PartialEq, Eq, Structural, Debug)]
pub enum Syscall {
    /// Write a range of the caller's memory to the console.
    UsartOutput,
}

impl Syscall {
    /// The number under which the operation travels.
    pub open spec fn spec_number(self) -> usize {
        match self {
            Syscall::UsartOutput => 0,
        }
    }

    /// The number under which the operation travels.
    #[verifier::when_used_as_spec(spec_number)]
    pub fn number(self) -> (num: usize)
        ensures
            num == self.spec_number(),
    {
        match self {
            Syscall::UsartOutput => 0,
        }
    }

    /// The operation that travels under a number, if there is one.
    pub fn from_number(num: usize) -> (syscall: Option<Syscall>)
        ensures
            syscall matches Some(found) ==> found.spec_number() == num,
            syscall is None ==> forall|other: Syscall| other.spec_number() != num,
    {
        if num == 0 {
            Some(Syscall::UsartOutput)
        } else {
            None
        }
    }
}

/// What the privileged side owns: the memory map that it checks callers
/// against, and the console that it mediates.
pub struct Kernel {
    pub memory: MemoryMap,
    pub console: Console,
}

impl Kernel {
    /// The call is one that the kernel serves: it asks for console output,
    /// it arrived in privileged execution, as every trap does, and the range
    /// `arg1 .. arg1 + arg2` lies wholly in the caller's access window.
    pub open spec fn serves(self, cpu: Cpu, num: usize, arg1: usize, arg2: usize) -> bool {
        &&& num == Syscall::UsartOutput.spec_number()
        &&& cpu.privileged()
        &&& self.memory.window_covers(arg1 as int, arg2 as int)
    }
}

/// Resolves a trapped call: finds the handler registered under `num`, runs it
/// on the three arguments and returns its result word.
///
/// A number with no handler, and a request that the handler did not serve,
/// give [`SYSCALL_REFUSED`] and change nothing; the kernel goes on serving.
pub fn syscall_received(
    cpu: &Cpu,
    kernel: Kernel,
    num: usize,
    arg1: usize,
    arg2: usize,
    arg3: usize,
) -> (reply: (Kernel, usize))
    ensures
        reply.0.memory == kernel.memory,
        kernel.serves(*cpu, num, arg1, arg2) ==> reply.1 == 0 && reply.0.console@
            == kernel.console@.push(kernel.memory.contents(arg1 as int, arg2 as int)),
        !kernel.serves(*cpu, num, arg1, arg2) ==> reply.1 == SYSCALL_REFUSED && reply.0.console
            == kernel.console,
{
    let mut kernel = kernel;
    match Syscall::from_number(num) {
        Some(Syscall::UsartOutput) => {
            let outcome = syscall_output(cpu, &kernel.memory, &mut kernel.console, arg1, arg2, arg3);
            let word: usize = match outcome {
                Ok(Some(word)) => word,
                _ => SYSCALL_REFUSED,
            };
            (kernel, word)
        },
        None => (kernel, SYSCALL_REFUSED),
    }
}

} // verus!
