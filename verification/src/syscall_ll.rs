//! The software-trap transport and the trap entry point.

use crate::privilege::{Cpu, Event, Registers, Stack};
use vstd::prelude::*;

verus! {

impl Registers {
    /// The registers with a call marshalled into them: the syscall number in
    /// `r0`, the three arguments in `r1` to `r3`.
    pub open spec fn with_call(self, num: usize, arg1: usize, arg2: usize, arg3: usize) -> Registers {
        Registers { r0: num, r1: arg1, r2: arg2, r3: arg3, ..self }
    }

    /// The registers with the scrub set cleared: `r4` to `r12` zero, the
    /// flags register zero.
    pub open spec fn scrub(self) -> Registers {
        Registers {
            r4: 0,
            r5: 0,
            r6: 0,
            r7: 0,
            r8: 0,
            r9: 0,
            r10: 0,
            r11: 0,
            r12: 0,
            apsr: 0,
            ..self
        }
    }

    /// Nothing is left in the scrub set.
    pub open spec fn scrubbed(self) -> bool {
        &&& self.r4 == 0
        &&& self.r5 == 0
        &&& self.r6 == 0
        &&& self.r7 == 0
        &&& self.r8 == 0
        &&& self.r9 == 0
        &&& self.r10 == 0
        &&& self.r11 == 0
        &&& self.r12 == 0
        &&& self.apsr == 0
    }
}

impl Cpu {
    /// The processor as the trap entry point finds it when the trap fires
    /// with `regs` in the registers: in exception context, all else as it was.
    pub open spec fn at_trap(self, regs: Registers) -> Cpu {
        Cpu { stack: Stack::Exception, regs, ..self }
    }

    /// The processor as the caller finds it when the trap that fired with
    /// `regs` has returned `result`: back in its own context, the result in
    /// `r0`.
    pub open spec fn after_trap(self, regs: Registers, result: usize) -> Cpu {
        Cpu { regs: Registers { r0: result, ..regs }, ..self }
    }
}

/// Handler for the supervisor-call exception.
///
/// Forwards the four words, as the transport placed them, to the resolution
/// routine `syscall_received`, and hands back what that routine returns.
#[allow(non_snake_case)]
pub fn SVC_Handler<S, F>(
    cpu: &Cpu,
    kernel: S,
    syscall_received: &F,
    num: usize,
    arg1: usize,
    arg2: usize,
    arg3: usize,
) -> (reply: (S, usize)) where F: Fn(&Cpu, S, usize, usize, usize, usize) -> (S, usize)
    requires
        call_requires(*syscall_received, (cpu, kernel, num, arg1, arg2, arg3)),
    ensures
        call_ensures(*syscall_received, (cpu, kernel, num, arg1, arg2, arg3), reply),
{
    syscall_received(cpu, kernel, num, arg1, arg2, arg3)
}

/// The trap itself: enters the exception context, hands `r0` to `r3` to the
/// trap entry point, stores the result in `r0` and returns to the caller's
/// context.
fn svc<S, F>(cpu: &mut Cpu, kernel: S, syscall_received: &F) -> (reply: (S, usize)) where
    F: Fn(&Cpu, S, usize, usize, usize, usize) -> (S, usize),

    requires
        call_requires(
            *syscall_received,
            (
                &old(cpu).at_trap(old(cpu).regs),
                kernel,
                old(cpu).regs.r0,
                old(cpu).regs.r1,
                old(cpu).regs.r2,
                old(cpu).regs.r3,
            ),
        ),
    ensures
        call_ensures(
            *syscall_received,
            (
                &old(cpu).at_trap(old(cpu).regs),
                kernel,
                old(cpu).regs.r0,
                old(cpu).regs.r1,
                old(cpu).regs.r2,
                old(cpu).regs.r3,
            ),
            reply,
        ),
        *final(cpu) == old(cpu).after_trap(old(cpu).regs, reply.1),
{
    let caller: Stack = cpu.stack;
    cpu.stack = Stack::Exception;
    let reply = SVC_Handler(
        &*cpu,
        kernel,
        syscall_received,
        cpu.regs.r0,
        cpu.regs.r1,
        cpu.regs.r2,
        cpu.regs.r3,
    );
    cpu.regs.r0 = reply.1;
    cpu.stack = caller;
    reply
}

/// Generates a syscall of number `num` with arguments `arg1` to `arg3` and
/// returns the value that the privileged side hands back.
///
/// The four words reach `syscall_received` unchanged, in exception context,
/// and its result comes back unchanged. The caller resumes in its own
/// context with the result in `r0`.
pub fn syscall<S, F>(
    cpu: &mut Cpu,
    kernel: S,
    syscall_received: &F,
    num: usize,
    arg1: usize,
    arg2: usize,
    arg3: usize,
) -> (reply: (S, usize)) where F: Fn(&Cpu, S, usize, usize, usize, usize) -> (S, usize)
    requires
        call_requires(
            *syscall_received,
            (
                &old(cpu).at_trap(old(cpu).regs.with_call(num, arg1, arg2, arg3)),
                kernel,
                num,
                arg1,
                arg2,
                arg3,
            ),
        ),
    ensures
        call_ensures(
            *syscall_received,
            (
                &old(cpu).at_trap(old(cpu).regs.with_call(num, arg1, arg2, arg3)),
                kernel,
                num,
                arg1,
                arg2,
                arg3,
            ),
            reply,
        ),
        *final(cpu) == old(cpu).after_trap(
            old(cpu).regs.with_call(num, arg1, arg2, arg3),
            reply.1,
        ),
{
    cpu.regs.r0 = num;
    cpu.regs.r1 = arg1;
    cpu.regs.r2 = arg2;
    cpu.regs.r3 = arg3;
    svc(cpu, kernel, syscall_received)
}

/// Generates a syscall as [`syscall`] does, and keeps register contents from
/// crossing the boundary.
///
/// Before the trap fires, `r4` to `r12` and the flags register are zeroed,
/// on every call, so the privileged side is entered with nothing in them and
/// the registers at the trap hold the four words of the call and nothing
/// else. When the trap has returned they are still zero, and the caller has
/// to compute afresh what it kept there.
pub fn syscall_saveall<S, F>(
    cpu: &mut Cpu,
    kernel: S,
    syscall_received: &F,
    num: usize,
    arg1: usize,
    arg2: usize,
    arg3: usize,
) -> (reply: (S, usize)) where F: Fn(&Cpu, S, usize, usize, usize, usize) -> (S, usize)
    requires
        call_requires(
            *syscall_received,
            (
                &old(cpu).at_trap(old(cpu).regs.scrub().with_call(num, arg1, arg2, arg3)),
                kernel,
                num,
                arg1,
                arg2,
                arg3,
            ),
        ),
    ensures
        call_ensures(
            *syscall_received,
            (
                &old(cpu).at_trap(old(cpu).regs.scrub().with_call(num, arg1, arg2, arg3)),
                kernel,
                num,
                arg1,
                arg2,
                arg3,
            ),
            reply,
        ),
        old(cpu).regs.scrub().with_call(num, arg1, arg2, arg3).scrubbed(),
        *final(cpu) == old(cpu).after_trap(
            old(cpu).regs.scrub().with_call(num, arg1, arg2, arg3),
            reply.1,
        ),
        final(cpu).regs.scrubbed(),
{
    proof {
        lemma_scrub_is_complete(cpu.regs, num, arg1, arg2, arg3);
    }
    cpu.regs.apsr = 0;
    cpu.regs.r4 = 0;
    cpu.regs.r5 = 0;
    cpu.regs.r6 = 0;
    cpu.regs.r7 = 0;
    cpu.regs.r8 = 0;
    cpu.regs.r9 = 0;
    cpu.regs.r10 = 0;
    cpu.regs.r11 = 0;
    cpu.regs.r12 = 0;
    cpu.regs.r0 = num;
    cpu.regs.r1 = arg1;
    cpu.regs.r2 = arg2;
    cpu.regs.r3 = arg3;
    svc(cpu, kernel, syscall_received)
}

/// The scrub is complete whatever the registers held and whatever is called:
/// with the call marshalled, `r4` to `r12` and the flags register are zero
/// and the four words of the call are in `r0` to `r3`. So the registers at
/// the trap are a function of the four words alone: two callers that make
/// the same call enter the trap with the same registers. The result in `r0`
/// then changes nothing in the scrub set.
pub proof fn lemma_scrub_is_complete(
    regs: Registers,
    num: usize,
    arg1: usize,
    arg2: usize,
    arg3: usize,
)
    ensures
        regs.scrub().with_call(num, arg1, arg2, arg3).scrubbed(),
        regs.scrub().with_call(num, arg1, arg2, arg3).r0 == num,
        regs.scrub().with_call(num, arg1, arg2, arg3).r1 == arg1,
        regs.scrub().with_call(num, arg1, arg2, arg3).r2 == arg2,
        regs.scrub().with_call(num, arg1, arg2, arg3).r3 == arg3,
        forall|other: Registers|
            (#[trigger] other.scrub()).with_call(num, arg1, arg2, arg3) == regs.scrub().with_call(
                num,
                arg1,
                arg2,
                arg3,
            ),
        forall|cpu: Cpu, result: usize|
            (#[trigger] cpu.after_trap(
                regs.scrub().with_call(num, arg1, arg2, arg3),
                result,
            )).regs.scrubbed(),
{
}

/// A trap is made of the events that the one-way drop is proved against:
/// the call is marshalled, the exception is taken, the result is stored and
/// the handler returns to the caller's context. So a trap gives no
/// privilege back to thread mode either.
pub proof fn lemma_trap_is_a_run(cpu: Cpu, regs: Registers, result: usize)
    ensures
        cpu.at_trap(regs) == cpu.run(
            seq![Event::Execute { regs, msp: cpu.msp, psp: cpu.psp }, Event::ExceptionEntry],
        ),
        cpu.after_trap(regs, result) == cpu.run(
            seq![
                Event::Execute { regs, msp: cpu.msp, psp: cpu.psp },
                Event::ExceptionEntry,
                Event::Execute { regs: Registers { r0: result, ..regs }, msp: cpu.msp, psp: cpu.psp },
                Event::ExceptionReturn(cpu.stack),
            ],
        ),
        cpu.at_trap(regs).privileged(),
        cpu.after_trap(regs, result).privileged() == cpu.privileged(),
{
    let marshal = Event::Execute { regs, msp: cpu.msp, psp: cpu.psp };
    let store = Event::Execute { regs: Registers { r0: result, ..regs }, msp: cpu.msp, psp: cpu.psp };
    let leave = Event::ExceptionReturn(cpu.stack);
    let one = seq![marshal];
    let two = seq![marshal, Event::ExceptionEntry];
    let three = seq![marshal, Event::ExceptionEntry, store];
    let four = seq![marshal, Event::ExceptionEntry, store, leave];
    assert(one.drop_last() =~= Seq::<Event>::empty());
    assert(two.drop_last() =~= one);
    assert(three.drop_last() =~= two);
    assert(four.drop_last() =~= three);
    assert(cpu.run(Seq::<Event>::empty()) == cpu);
    assert(cpu.run(one) == cpu.step(marshal));
    assert(cpu.run(two) == cpu.run(one).step(Event::ExceptionEntry));
    assert(cpu.run(three) == cpu.run(two).step(store));
    assert(cpu.run(four) == cpu.run(three).step(leave));
}

} // verus!
