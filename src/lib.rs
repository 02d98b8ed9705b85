//! Hand a value over from foreground code to exactly one interrupt or
//! exception handler, which then borrows it without a global critical section.

mod context;

pub use context::{Active, Context, Exception};
pub use context::{context_matches, lemma_kinds_never_cross, lemma_thread_mode_never_matches};

mod cell;

pub use cell::{after_free, after_lock, after_move, after_unlock, state_of_tag};
pub use cell::{
    lemma_free_uninit, lemma_handler_cannot_move_or_free, lemma_lock_then_unlock,
    lemma_locked_refuses_all, lemma_move_returns_previous, lemma_move_then_free, lemma_one_state,
    lemma_wrong_context_refused,
};
pub use cell::{Move, Slot, State, INIT_AND_IDLE, LOCKED, UNINIT};
