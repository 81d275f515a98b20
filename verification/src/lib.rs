//! A minimal actor mailbox: arbitrarily many concurrent callers mutate a
//! single piece of owned state through serialized, ordered operations,
//! without locks, by routing every operation through one consumer that
//! exclusively owns the state.

mod action;
mod channel;
mod counter;
mod errors;
mod runtime;
mod sender;

pub use action::Action;
pub use action::lemma_per_handle_fifo;
pub use action::lemma_reply_in_order;
pub use action::lemma_run_outcomes_len;
pub use action::lemma_run_outcomes_push;
pub use action::lemma_run_state_concat;
pub use action::lemma_run_state_push;
pub use action::next_state;
pub use action::outcome_of;
pub use action::run_outcomes;
pub use action::run_state;
pub use counter::CounterAction;
pub use counter::CounterError;
pub use errors::ActorError;
pub use runtime::Actor;
pub use sender::ActResult;
pub use sender::ActorSender;
pub use sender::MailboxReceiver;
pub use sender::ReplyReceiver;
pub use sender::into_act_result;
pub use sender::mailbox;
pub use sender::settle_reply;
