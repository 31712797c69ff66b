//! Trap dispatch: routes each trap to the timer handler, to the external
//! interrupt handler through the interrupt controller's claim / complete
//! handshake, or to the handlers of other interrupts and of exceptions.

use vstd::prelude::*;
use crate::plic::{Plic, NO_SOURCE};

verus! {

/// Interrupt code of the machine timer.
pub const MACHINE_TIMER: usize = 7;

/// Interrupt code of machine-external interrupts.
pub const MACHINE_EXTERNAL: usize = 11;

/// Cause of a trap, as the cause register reports it.
#[derive(Clone, Copy, Debug, PartialEq, Eq, Structural)]
pub enum TrapCause {
    /// An interrupt, with its code.
    Interrupt(usize),
    /// An exception, with its code.
    Exception(usize),
}

/// The route a trap took.
#[derive(Clone, Copy, Debug, PartialEq, Eq, Structural)]
pub enum Route {
    /// The timer handler ran.
    Timer,
    /// An external interrupt: the source claimed, served and completed, or
    /// `NO_SOURCE` when the claim found none and no handler ran.
    External(u32),
    /// The handler of other interrupts ran with this code.
    OtherInterrupt(usize),
    /// The exception handler ran with this code.
    Exception(usize),
}

/// What a trap of a given cause calls for.
#[derive(Clone, Copy, Debug, PartialEq, Eq, Structural)]
pub enum Action {
    /// Run the timer handler.
    Timer,
    /// Claim an external source, serve it, and complete it.
    ClaimExternal,
    /// Run the handler of other interrupts with this code.
    OtherInterrupt(usize),
    /// Run the exception handler with this code.
    Exception(usize),
}

/// Decides what a trap of cause `cause` calls for.
pub fn classify(cause: TrapCause) -> (r: Action)
    ensures
        r == (match cause {
            TrapCause::Interrupt(code) => if code == MACHINE_TIMER {
                Action::Timer
            } else if code == MACHINE_EXTERNAL {
                Action::ClaimExternal
            } else {
                Action::OtherInterrupt(code)
            },
            TrapCause::Exception(code) => Action::Exception(code),
        }),
{
    match cause {
        TrapCause::Interrupt(code) => {
            if code == MACHINE_TIMER {
                Action::Timer
            } else if code == MACHINE_EXTERNAL {
                Action::ClaimExternal
            } else {
                Action::OtherInterrupt(code)
            }
        },
        TrapCause::Exception(code) => Action::Exception(code),
    }
}

/// The handlers an application installs. Each does nothing unless the
/// application overrides it. They run in trap context.
pub trait TrapHandlers {
    /// The machine timer fired.
    fn on_timer(&mut self) {
    }

    /// External interrupt source `source` was claimed; it is completed when
    /// this returns.
    fn on_external(&mut self, _source: u32) {
    }

    /// Any other interrupt, with its code.
    fn on_other_interrupt(&mut self, _code: usize) {
    }

    /// An exception, with its code and the program counter it was raised at.
    fn on_exception(&mut self, _code: usize, _pc: usize) {
    }
}

/// The handlers that do nothing.
pub struct DefaultHandlers;

impl TrapHandlers for DefaultHandlers {

}

/// Handles one trap of the given cause, raised at `pc`. A machine-external
/// interrupt claims the highest-priority source, hands it to the handler,
/// then completes that same source.
pub fn dispatch<H: TrapHandlers>(
    cause: TrapCause,
    pc: usize,
    plic: &mut Plic,
    handlers: &mut H,
) -> (r: Route)
    requires
        old(plic).wf(),
    ensures
        final(plic).wf(),
        match cause {
            TrapCause::Interrupt(code) => {
                &&& code == MACHINE_TIMER ==> r == Route::Timer && final(plic)@ == old(plic)@
                &&& code == MACHINE_EXTERNAL ==> (r matches Route::External(s) && old(plic)@.serves(
                    s as int,
                    final(plic)@,
                ))
                &&& code != MACHINE_TIMER && code != MACHINE_EXTERNAL ==> r == Route::OtherInterrupt(
                    code,
                ) && final(plic)@ == old(plic)@
            },
            TrapCause::Exception(code) => r == Route::Exception(code) && final(plic)@ == old(plic)@,
        },
{
    match classify(cause) {
        Action::Timer => {
            handlers.on_timer();
            Route::Timer
        },
        Action::ClaimExternal => {
            let s = plic.claim();
            if s != NO_SOURCE {
                handlers.on_external(s);
                plic.complete(s);
            }
            Route::External(s)
        },
        Action::OtherInterrupt(code) => {
            handlers.on_other_interrupt(code);
            Route::OtherInterrupt(code)
        },
        Action::Exception(code) => {
            handlers.on_exception(code, pc);
            Route::Exception(code)
        },
    }
}

} // verus!
