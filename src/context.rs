use vstd::prelude::*;

verus! {

/// The core exceptions of a Cortex-M processor.
#[derive(Clone, Copy, Debug, PartialEq, Eq, Structural)]
pub enum Exception {
    /// Non-maskable interrupt
    NonMaskableInt,
    /// Hard fault
    HardFault,
    /// Memory management fault
    MemoryManagement,
    /// Bus fault
    BusFault,
    /// Usage fault
    UsageFault,
    /// Secure fault
    SecureFault,
    /// Supervisor call
    SVCall,
    /// Debug monitor
    DebugMonitor,
    /// Pendable service request
    PendSV,
    /// System tick timer
    SysTick,
}

/// What the processor is executing at a given instant: foreground code, one
/// core exception, or one device interrupt given by its number.
#[derive(Clone, Copy, Debug, PartialEq, Eq, Structural)]
pub enum Active {
    /// Foreground code, not inside any handler
    ThreadMode,
    /// The handler of a core exception
    Exception(Exception),
    /// The handler of the device interrupt with this number
    Interrupt { irqn: u8 },
}

/// Context is the place where data will be moved to. This can be either
/// interrupt context, or exception context
#[derive(Clone, Copy, Debug)]
pub enum Context {
    /// An Exception, such as SysTick
    Exception(Exception),
    /// A device specific interrupt, given by its number
    Interrupt(u8),
}

/// A context admits exactly the handler it names: the same exception, or an
/// interrupt with the same number. Thread mode and the other family never match.
pub open spec fn context_matches(ctx: Context, live: Active) -> bool {
    match (ctx, live) {
        (Context::Exception(e), Active::Exception(f)) => e == f,
        (Context::Interrupt(n), Active::Interrupt { irqn }) => n == irqn,
        _ => false,
    }
}

impl Active {
    /// Whether this is foreground code rather than a handler.
    pub fn is_thread_mode(&self) -> (r: bool)
        ensures
            r == (*self is ThreadMode),
    {
        match self {
            Active::ThreadMode => true,
            _ => false,
        }
    }
}

impl PartialEq<Active> for Context {
    fn eq(&self, other: &Active) -> (r: bool)
        ensures
            r == context_matches(*self, *other),
    {
        match (self, other) {
            (Context::Exception(e_s), Active::Exception(e_o)) => *e_s == *e_o,
            (Context::Interrupt(i_s), Active::Interrupt { irqn }) => *i_s == *irqn,
            _ => false,
        }
    }
}

impl vstd::std_specs::cmp::PartialEqSpecImpl<Active> for Context {
    open spec fn obeys_eq_spec() -> bool {
        true
    }

    open spec fn eq_spec(&self, other: &Active) -> bool {
        context_matches(*self, *other)
    }
}

/// A context bound to an exception never admits an interrupt handler, and one
/// bound to an interrupt never admits an exception handler, whatever the
/// numbers involved.
pub proof fn lemma_kinds_never_cross(e: Exception, n: u8)
    ensures
        !context_matches(Context::Exception(e), Active::Interrupt { irqn: n }),
        !context_matches(Context::Interrupt(n), Active::Exception(e)),
{
}

/// No context admits foreground code.
pub proof fn lemma_thread_mode_never_matches(ctx: Context)
    ensures
        !context_matches(ctx, Active::ThreadMode),
{
}

} // verus!
