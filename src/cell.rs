use vstd::prelude::*;

use crate::context::{context_matches, Active, Context};

verus! {

/// The data is uninitialized
pub const UNINIT: u8 = 0;

/// The data is initialized and not currently locked
pub const INIT_AND_IDLE: u8 = 1;

/// The data is initialized, but currently locked by an interrupt
pub const LOCKED: u8 = 2;

/// The three states an instance can be observed in.
#[derive(Clone, Copy, Debug, PartialEq, Eq, Structural)]
pub enum State {
    /// No value is held
    Uninit,
    /// A value is held and nobody borrows it
    InitAndIdle,
    /// A value is held and a handler currently borrows it
    Locked,
}

/// Reading of a state tag. Any value that is neither of the first two tags is
/// treated as locked, so that a damaged tag never grants access.
pub open spec fn state_of_tag(tag: u8) -> State {
    if tag == UNINIT {
        State::Uninit
    } else if tag == INIT_AND_IDLE {
        State::InitAndIdle
    } else {
        State::Locked
    }
}

/// What an instance is, seen from outside: its state, the value it stores,
/// and the context it is bound to.
pub struct Slot<T> {
    pub status: State,
    pub payload: Option<T>,
    pub context: Context,
}

impl<T> Slot<T> {
    /// A value is stored exactly when the state is `InitAndIdle`; while
    /// `Locked`, the borrower holds it.
    pub open spec fn wf(self) -> bool {
        self.payload is Some <==> self.status == State::InitAndIdle
    }
}

/// The effect of `try_move(live, data)`: from thread mode, store `data` and
/// hand back what was stored before; from a handler, or while locked, refuse
/// and hand `data` back.
pub open spec fn after_move<T>(s: Slot<T>, live: Active, data: T) -> (Slot<T>, Result<Option<T>, T>) {
    if !(live is ThreadMode) || s.status == State::Locked {
        (s, Err(data))
    } else {
        (
            Slot { status: State::InitAndIdle, payload: Some(data), context: s.context },
            Ok(if s.status == State::Uninit { None } else { s.payload }),
        )
    }
}

/// The effect of `try_free(live)`: from thread mode, take the stored value
/// out, if any; from a handler, or while locked, refuse.
pub open spec fn after_free<T>(s: Slot<T>, live: Active) -> (Slot<T>, Result<Option<T>, ()>) {
    if !(live is ThreadMode) || s.status == State::Locked {
        (s, Err(()))
    } else if s.status == State::Uninit {
        (s, Ok(None))
    } else {
        (Slot { status: State::Uninit, payload: None, context: s.context }, Ok(s.payload))
    }
}

/// The effect of `lock(live)`: from the bound context while idle, lend the
/// stored value out and become locked; otherwise refuse.
pub open spec fn after_lock<T>(s: Slot<T>, live: Active) -> (Slot<T>, Result<T, ()>) {
    if context_matches(s.context, live) && s.status == State::InitAndIdle {
        (Slot { status: State::Locked, payload: None, context: s.context }, Ok(s.payload->Some_0))
    } else {
        (s, Err(()))
    }
}

/// The effect of `unlock(data)`: while locked, store `data` and become idle;
/// otherwise refuse and hand `data` back.
pub open spec fn after_unlock<T>(s: Slot<T>, data: T) -> (Slot<T>, Result<(), T>) {
    if s.status == State::Locked {
        (Slot { status: State::InitAndIdle, payload: Some(data), context: s.context }, Ok(()))
    } else {
        (s, Err(data))
    }
}

/// Move is a structure that represents a metaphorical "move" to an interrupt
/// context. Data is moved to the interrupt context by calling `try_move` from
/// thread (non-interrupt) context, and the data can be retrieved within the
/// selected interrupt using the `try_lock` method.
pub struct Move<T> {
    /// `data` holds the user data while the state is `InitAndIdle`
    data: Option<T>,
    /// `state` is a runtime tracking of our current state
    state: u8,
    /// the one context that may lock the data
    context: Context,
}

impl<T> View for Move<T> {
    type V = Slot<T>;

    closed spec fn view(&self) -> Slot<T> {
        Slot { status: state_of_tag(self.state), payload: self.data, context: self.context }
    }
}

impl<T> Move<T> {
    /// The tag is one of the three states, and the view is well formed.
    pub closed spec fn wf(&self) -> bool {
        &&& self.state <= LOCKED
        &&& self@.wf()
    }

    /// Create a new `Move` structure without initializing the data contained by it.
    /// This is best used when the data cannot be initialized until runtime, such as
    /// a HAL peripheral, or the producer or consumer of a queue.
    ///
    /// Before using this in interrupt context, you must initialize it with the
    /// `try_move` function, or it will return errors upon access.
    pub fn new_uninitialized(ctxt: Context) -> (r: Self)
        ensures
            r.wf(),
            r@ == (Slot::<T> { status: State::Uninit, payload: None, context: ctxt }),
    {
        Move { data: None, state: UNINIT, context: ctxt }
    }

    /// Create a new `Move` structure, and initialize the data contained within it.
    /// This does not require further interaction before use in interrupt context.
    pub fn new(data: T, ctxt: Context) -> (r: Self)
        ensures
            r.wf(),
            r@ == (Slot { status: State::InitAndIdle, payload: Some(data), context: ctxt }),
    {
        Move { data: Some(data), state: INIT_AND_IDLE, context: ctxt }
    }

    /// The state the instance is in.
    pub fn state(&self) -> (r: State)
        ensures
            r == self@.status,
    {
        if self.state == UNINIT {
            State::Uninit
        } else if self.state == INIT_AND_IDLE {
            State::InitAndIdle
        } else {
            State::Locked
        }
    }

    /// The context that may lock the data.
    pub fn context(&self) -> (r: Context)
        ensures
            r == self@.context,
    {
        self.context
    }

    /// Attempt to initialize the data of the `Move` structure, or to replace it.
    /// This *MUST* be called from thread mode, inside a critical section;
    /// `live` is what the processor was executing when the call was made.
    ///
    /// Returns:
    ///
    /// * Ok(Some(T)): in thread mode, the data was initialized: it is swapped for `data`
    /// * Ok(None): in thread mode, the data was not initialized: `data` is stored
    /// * Err(T): not in thread mode, or the data is locked: `data` is handed back
    pub fn try_move(&mut self, live: Active, data: T) -> (r: Result<Option<T>, T>)
        requires
            old(self).wf(),
        ensures
            final(self).wf(),
            (final(self)@, r) == after_move(old(self)@, live, data),
    {
        if !live.is_thread_mode() {
            return Err(data);
        }
        if self.state == UNINIT {
            self.data = Some(data);
            self.state = INIT_AND_IDLE;
            Ok(None)
        } else if self.state == INIT_AND_IDLE {
            let old = self.data.take();
            self.data = Some(data);
            Ok(old)
        } else {
            Err(data)
        }
    }

    /// Attempt to recover the data from the `Move` structure.
    /// This *MUST* be called from thread mode, inside a critical section;
    /// `live` is what the processor was executing when the call was made.
    ///
    /// Returns:
    ///
    /// * Ok(Some(T)): in thread mode, the data was initialized: it is taken out
    /// * Ok(None): in thread mode, the data was not initialized
    /// * Err(()): not in thread mode, or the data is locked
    pub fn try_free(&mut self, live: Active) -> (r: Result<Option<T>, ()>)
        requires
            old(self).wf(),
        ensures
            final(self).wf(),
            (final(self)@, r) == after_free(old(self)@, live),
    {
        if !live.is_thread_mode() {
            return Err(());
        }
        if self.state == UNINIT {
            Ok(None)
        } else if self.state == INIT_AND_IDLE {
            let old = self.data.take();
            self.state = UNINIT;
            Ok(old)
        } else {
            Err(())
        }
    }

    /// First half of `try_lock`: from the bound context, while the data is
    /// idle, mark it locked and hand it to the caller, who must give it back
    /// with `unlock`. Any other call fails and changes nothing.
    pub fn lock(&mut self, live: Active) -> (r: Result<T, ()>)
        requires
            old(self).wf(),
        ensures
            final(self).wf(),
            (final(self)@, r) == after_lock(old(self)@, live),
    {
        if !(self.context == live) {
            return Err(());
        }
        if self.state == INIT_AND_IDLE {
            match self.data.take() {
                Some(v) => {
                    self.state = LOCKED;
                    Ok(v)
                },
                None => Err(()),
            }
        } else {
            Err(())
        }
    }

    /// Second half of `try_lock`: while locked, store `data` and mark the
    /// instance idle again. In any other state `data` is handed back and
    /// nothing changes.
    pub fn unlock(&mut self, data: T) -> (r: Result<(), T>)
        requires
            old(self).wf(),
        ensures
            final(self).wf(),
            (final(self)@, r) == after_unlock(old(self)@, data),
    {
        if self.state == LOCKED {
            self.data = Some(data);
            self.state = INIT_AND_IDLE;
            Ok(())
        } else {
            Err(data)
        }
    }

    /// Borrow the data within `f`. This will *only* provide access if:
    ///
    /// * `live`, the handler that is currently active, is the bound context
    /// * The data is initialized and not already locked
    ///
    /// The instance is locked while `f` runs and idle again afterwards.
    pub fn try_lock<R, F: FnOnce(&mut T) -> R>(&mut self, live: Active, f: F) -> (r: Result<R, ()>)
        requires
            old(self).wf(),
            old(self)@.payload is Some ==> forall|m: &mut T|
                *m == old(self)@.payload->Some_0 ==> #[trigger] f.requires((m,)),
        ensures
            final(self).wf(),
            final(self)@.context == old(self)@.context,
            context_matches(old(self)@.context, live) && old(self)@.status == State::InitAndIdle ==> {
                &&& r is Ok
                &&& final(self)@.status == State::InitAndIdle
                &&& final(self)@.payload is Some
                &&& exists|m: &mut T|
                    {
                        &&& *m == old(self)@.payload->Some_0
                        &&& *final(m) == final(self)@.payload->Some_0
                        &&& #[trigger] f.ensures((m,), r->Ok_0)
                    }
            },
            !(context_matches(old(self)@.context, live) && old(self)@.status == State::InitAndIdle)
                ==> r is Err && final(self)@ == old(self)@,
    {
        match self.lock(live) {
            Ok(v) => {
                let mut v = v;
                let ghost given = v;
                let out = f(&mut v);
                let ghost lent = v;
                let _ = self.unlock(v);
                let r: Result<R, ()> = Ok(out);
                proof {
                    // the borrow handed to `f` witnesses the postcondition
                    let m = choose|m: &mut T| #[trigger] f.ensures((m,), out) && *m == given && *final(m) == lent;
                    assert(f.ensures((m,), r->Ok_0));
                }
                r
            },
            Err(()) => Err(()),
        }
    }
}

/// At every point an instance is in exactly one of its three states, and it
/// stores a value exactly when it is initialized and idle.
pub proof fn lemma_one_state<T>(m: Move<T>)
    requires
        m.wf(),
    ensures
        (if m@.status == State::Uninit { 1int } else { 0 }) + (if m@.status == State::InitAndIdle {
            1int
        } else {
            0
        }) + (if m@.status == State::Locked { 1int } else { 0 }) == 1,
        m@.payload is Some <==> m@.status == State::InitAndIdle,
{
}

/// Moving values in one after another from thread mode hands each call the
/// value stored by the call before it.
pub proof fn lemma_move_returns_previous<T>(s: Slot<T>, v1: T, v2: T)
    requires
        s.wf(),
        s.status != State::Locked,
    ensures
        after_move(after_move(s, Active::ThreadMode, v1).0, Active::ThreadMode, v2)
            == (Slot { status: State::InitAndIdle, payload: Some(v2), context: s.context }, Ok::<Option<T>, T>(Some(v1))),
{
}

/// While any handler is live, moving in and freeing both fail and leave the
/// instance as it was.
pub proof fn lemma_handler_cannot_move_or_free<T>(s: Slot<T>, live: Active, data: T)
    requires
        !(live is ThreadMode),
    ensures
        after_move(s, live, data) == (s, Err::<Option<T>, T>(data)),
        after_free(s, live) == (s, Err::<Option<T>, ()>(())),
{
}

/// Locking from the bound context while idle and giving the value back
/// leaves the instance idle, holding the value given back.
pub proof fn lemma_lock_then_unlock<T>(s: Slot<T>, live: Active, data: T)
    requires
        s.wf(),
        context_matches(s.context, live),
        s.status == State::InitAndIdle,
    ensures
        after_lock(s, live).1 == Ok::<T, ()>(s.payload->Some_0),
        after_unlock(after_lock(s, live).0, data)
            == (Slot { status: State::InitAndIdle, payload: Some(data), context: s.context }, Ok::<(), T>(())),
{
}

/// A context other than the bound one is refused the lock, and nothing changes.
pub proof fn lemma_wrong_context_refused<T>(s: Slot<T>, live: Active)
    requires
        !context_matches(s.context, live),
    ensures
        after_lock(s, live) == (s, Err::<T, ()>(())),
{
}

/// An instance that is already locked refuses a second lock, a move and a
/// free, whoever asks, and nothing changes.
pub proof fn lemma_locked_refuses_all<T>(s: Slot<T>, live: Active, data: T)
    requires
        s.status == State::Locked,
    ensures
        after_lock(s, live) == (s, Err::<T, ()>(())),
        after_move(s, live, data) == (s, Err::<Option<T>, T>(data)),
        after_free(s, live) == (s, Err::<Option<T>, ()>(())),
{
}

/// Moving a value in from thread mode and then freeing gives that same value
/// back and leaves the instance uninitialized.
pub proof fn lemma_move_then_free<T>(s: Slot<T>, x: T)
    requires
        s.wf(),
        s.status != State::Locked,
    ensures
        after_free(after_move(s, Active::ThreadMode, x).0, Active::ThreadMode)
            == (Slot::<T> { status: State::Uninit, payload: None, context: s.context }, Ok::<Option<T>, ()>(Some(x))),
{
}

/// Freeing an uninitialized instance from thread mode gives nothing and
/// changes nothing.
pub proof fn lemma_free_uninit<T>(s: Slot<T>)
    requires
        s.status == State::Uninit,
    ensures
        after_free(s, Active::ThreadMode) == (s, Ok::<Option<T>, ()>(None)),
{
}

} // verus!
