//! Privilege state of the processor and the one-way drop to unprivileged
//! execution.

use vstd::prelude::*;

verus! {

/// CONTROL bit 0: when set, thread mode executes unprivileged.
pub const CONTROL_NPRIV_MSK: u32 = 0x1;

/// CONTROL bit 1: when set, thread mode runs on the process stack.
pub const CONTROL_SPSEL_MSK: u32 = 0x2;

/// The execution context, which also names the stack in use: ordinary
/// program flow, or the servicing of an exception or interrupt.
#[derive(Clone, Copy, PartialEq, Eq, Structural, Debug)]
pub enum Stack {
    Thread,
    Exception,
}

/// A violated precondition of the boundary itself. None of these can be
/// recovered from: the caller reports it to the fault handler and halts.
#[derive(Clone, Copy, PartialEq, Eq, Structural, Debug)]
pub enum Fault {
    /// The privilege drop was attempted while servicing an exception.
    NotThreadMode,
    /// The privilege drop was attempted while the process stack was already
    /// selected.
    NotMainStack,
    /// The privilege drop was attempted by thread mode that was unprivileged
    /// already, though still on the main stack.
    AlreadyUnprivileged,
    /// The console device was driven by unprivileged code.
    NotPrivileged,
}

impl Fault {
    /// What the fault handler is told.
    pub open spec fn spec_message(self) -> Seq<char> {
        match self {
            Fault::NotThreadMode => "privilege::drop() can only be called in thread mode"@,
            Fault::NotMainStack => "privilege::drop() can only be called from MSP"@,
            Fault::AlreadyUnprivileged => "privilege::drop() can only be called in privileged mode"@,
            Fault::NotPrivileged => "the console can only be written in privileged mode"@,
        }
    }

    /// What the fault handler is told.
    pub fn message(self) -> (text: &'static str)
        ensures
            text@ == self.spec_message(),
    {
        match self {
            Fault::NotThreadMode => "privilege::drop() can only be called in thread mode",
            Fault::NotMainStack => "privilege::drop() can only be called from MSP",
            Fault::AlreadyUnprivileged => "privilege::drop() can only be called in privileged mode",
            Fault::NotPrivileged => "the console can only be written in privileged mode",
        }
    }
}

/// The general-purpose registers and the flags word of the program status
/// register.
#[derive(Clone, Copy, PartialEq, Eq, Structural, Debug)]
pub struct Registers {
    pub r0: usize,
    pub r1: usize,
    pub r2: usize,
    pub r3: usize,
    pub r4: usize,
    pub r5: usize,
    pub r6: usize,
    pub r7: usize,
    pub r8: usize,
    pub r9: usize,
    pub r10: usize,
    pub r11: usize,
    pub r12: usize,
    pub apsr: u32,
}

/// The processor state that the boundary reads and writes.
#[derive(Clone, Copy, PartialEq, Eq, Structural, Debug)]
pub struct Cpu {
    /// The current execution context.
    pub stack: Stack,
    /// The CONTROL register.
    pub control: u32,
    /// The main stack pointer.
    pub msp: usize,
    /// The process stack pointer.
    pub psp: usize,
    /// The general-purpose registers.
    pub regs: Registers,
}

impl Cpu {
    /// Privileged execution: any exception context, or thread mode with the
    /// nPRIV bit clear.
    pub open spec fn privileged(self) -> bool {
        self.stack == Stack::Exception || self.control & CONTROL_NPRIV_MSK == 0
    }

    /// The privilege drop is legal: privileged thread mode with the main
    /// stack selected.
    pub open spec fn may_drop(self) -> bool {
        &&& self.stack == Stack::Thread
        &&& self.control & CONTROL_SPSEL_MSK == 0
        &&& self.control & CONTROL_NPRIV_MSK == 0
    }

    /// Thread mode has been made unprivileged and moved to the process stack.
    pub open spec fn dropped(self) -> bool {
        self.control & CONTROL_NPRIV_MSK != 0 && self.control & CONTROL_SPSEL_MSK != 0
    }

    /// The state that a legal privilege drop leaves behind.
    pub open spec fn after_drop(self, interrupt_stack: usize) -> Cpu {
        Cpu {
            stack: self.stack,
            control: self.control | CONTROL_NPRIV_MSK | CONTROL_SPSEL_MSK,
            msp: interrupt_stack,
            psp: self.msp,
            regs: self.regs,
        }
    }
}

/// Returns true if the current code is running privileged.
pub fn is_privileged(cpu: &Cpu) -> (privileged: bool)
    ensures
        privileged == cpu.privileged(),
{
    cpu.stack == Stack::Exception || (cpu.control & CONTROL_NPRIV_MSK) == 0
}

/// Drops privileges and switches thread mode to the process stack.
///
/// The process stack pointer inherits the main stack pointer, the main stack
/// pointer becomes `interrupt_stack`, and CONTROL gains the nPRIV and SPSEL
/// bits. Nothing else changes. `interrupt_stack` is taken as it is given.
///
/// The drop is refused, with the processor untouched, from an exception
/// context, when the process stack is already selected, and when thread mode
/// is unprivileged already.
pub fn drop(cpu: &mut Cpu, interrupt_stack: usize) -> (outcome: Result<(), Fault>)
    ensures
        old(cpu).may_drop() ==> outcome is Ok && *final(cpu) == old(cpu).after_drop(
            interrupt_stack,
        ),
        !old(cpu).may_drop() ==> outcome is Err && *final(cpu) == *old(cpu),
        *final(cpu) == old(cpu).step(Event::Drop(interrupt_stack)),
        outcome == Err::<(), Fault>(Fault::NotThreadMode) <==> old(cpu).stack == Stack::Exception,
        outcome == Err::<(), Fault>(Fault::NotMainStack) <==> old(cpu).stack == Stack::Thread
            && old(cpu).control & CONTROL_SPSEL_MSK != 0,
        outcome == Err::<(), Fault>(Fault::AlreadyUnprivileged) <==> old(cpu).stack
            == Stack::Thread && old(cpu).control & CONTROL_SPSEL_MSK == 0 && old(cpu).control
            & CONTROL_NPRIV_MSK != 0,
{
    if cpu.stack != Stack::Thread {
        return Err(Fault::NotThreadMode);
    }
    let control_reg: u32 = cpu.control;
    if control_reg & CONTROL_SPSEL_MSK != 0 {
        return Err(Fault::NotMainStack);
    }
    if control_reg & CONTROL_NPRIV_MSK != 0 {
        return Err(Fault::AlreadyUnprivileged);
    }
    cpu.psp = cpu.msp;
    cpu.msp = interrupt_stack;
    cpu.control = control_reg | CONTROL_NPRIV_MSK | CONTROL_SPSEL_MSK;
    Ok(())
}

/// What can happen to the processor once the boundary is in place.
pub enum Event {
    /// An attempt to drop privileges, with this interrupt stack.
    Drop(usize),
    /// An exception or interrupt is taken, a software trap included.
    ExceptionEntry,
    /// A handler returns to the context that it interrupted.
    ExceptionReturn(Stack),
    /// Ordinary execution: the general registers and the two stack pointers
    /// take new values.
    Execute { regs: Registers, msp: usize, psp: usize },
}

impl Cpu {
    /// The processor after one event.
    pub open spec fn step(self, event: Event) -> Cpu {
        match event {
            Event::Drop(interrupt_stack) => if self.may_drop() {
                self.after_drop(interrupt_stack)
            } else {
                self
            },
            Event::ExceptionEntry => Cpu { stack: Stack::Exception, ..self },
            Event::ExceptionReturn(stack) => Cpu { stack, ..self },
            Event::Execute { regs, msp, psp } => Cpu { regs, msp, psp, ..self },
        }
    }

    /// The processor after a run of events, the first one first.
    pub open spec fn run(self, events: Seq<Event>) -> Cpu
        decreases events.len(),
    {
        if events.len() == 0 {
            self
        } else {
            self.run(events.drop_last()).step(events.last())
        }
    }
}

/// A legal drop leaves thread mode unprivileged on the process stack, with
/// the stack pointers handed over as stated.
pub proof fn lemma_drop_takes_effect(cpu: Cpu, interrupt_stack: usize)
    requires
        cpu.may_drop(),
    ensures
        cpu.after_drop(interrupt_stack).dropped(),
        !cpu.after_drop(interrupt_stack).privileged(),
        !cpu.after_drop(interrupt_stack).may_drop(),
        cpu.after_drop(interrupt_stack).psp == cpu.msp,
        cpu.after_drop(interrupt_stack).msp == interrupt_stack,
{
    let control: u32 = cpu.control;
    assert((control | CONTROL_NPRIV_MSK | CONTROL_SPSEL_MSK) & CONTROL_NPRIV_MSK != 0)
        by (bit_vector);
    assert((control | CONTROL_NPRIV_MSK | CONTROL_SPSEL_MSK) & CONTROL_SPSEL_MSK != 0)
        by (bit_vector);
}

/// No event undoes a drop.
pub proof fn lemma_dropped_is_kept(cpu: Cpu, events: Seq<Event>)
    requires
        cpu.dropped(),
    ensures
        cpu.run(events).dropped(),
        cpu.run(events).control == cpu.control,
    decreases events.len(),
{
    if events.len() > 0 {
        lemma_dropped_is_kept(cpu, events.drop_last());
    }
}

/// The drop is one-way. After a legal drop, and whatever happens afterwards,
/// every observation made in thread mode finds the processor unprivileged,
/// every observation made in an exception context finds it privileged, and a
/// further drop is refused.
pub proof fn lemma_drop_is_one_way(cpu: Cpu, interrupt_stack: usize, events: Seq<Event>)
    requires
        cpu.may_drop(),
    ensures
        ({
            let later = cpu.after_drop(interrupt_stack).run(events);
            &&& later.dropped()
            &&& later.stack == Stack::Thread ==> !later.privileged()
            &&& later.stack == Stack::Exception ==> later.privileged()
            &&& !later.may_drop()
            &&& forall|again: usize| later.step(Event::Drop(again)) == later
        }),
{
    lemma_drop_takes_effect(cpu, interrupt_stack);
    lemma_dropped_is_kept(cpu.after_drop(interrupt_stack), events);
}

} // verus!
