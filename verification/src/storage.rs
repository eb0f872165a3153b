//! The storage sink: where accepted messages go.

use vstd::prelude::*;
use crate::errors::{ErrorView, IndexerError};
use crate::models::{Message, MessageView};

verus! {

/// How one call of `store` ended, with the error taken by its view.
pub open spec fn outcome_view(outcome: Result<(), IndexerError>) -> Result<(), ErrorView> {
    match outcome {
        Ok(_) => Ok(()),
        Err(e) => Err(e@),
    }
}

/// A backend that takes one message at a time and reports whether it kept it.
///
/// The pipeline hands over only messages that passed every check and whose
/// text is normalised. It assumes nothing about the backend: whether a call
/// succeeds, and what it does to the backend, is for each backend to say in
/// [`Storage::store_outcome`].
pub trait Storage: Sized {
    /// The outcomes that one call of `store` can have: with the backend as it
    /// was `before` and the message given, the backend may end as `after`
    /// with the report `outcome`. A backend that says nothing here may do
    /// anything.
    open spec fn store_outcome(
        before: Self,
        message: MessageView,
        after: Self,
        outcome: Result<(), ErrorView>,
    ) -> bool {
        true
    }

    /// Takes one message. `Err` reports a failure of the backend.
    fn store(&mut self, message: &Message) -> (outcome: Result<(), IndexerError>)
        ensures
            Self::store_outcome(*old(self), message@, *final(self), outcome_view(outcome)),
    ;
}

/// A backend that keeps the messages in memory, in the order in which they came.
pub struct InMemoryStorage {
    pub messages: Vec<Message>,
}

impl View for InMemoryStorage {
    type V = Seq<MessageView>;

    open spec fn view(&self) -> Seq<MessageView> {
        self.messages@.map_values(|m: Message| m@)
    }
}

impl Default for InMemoryStorage {
    fn default() -> (storage: Self)
        ensures
            storage@ == Seq::<MessageView>::empty(),
    {
        InMemoryStorage { messages: Vec::new() }
    }
}

impl Storage for InMemoryStorage {
    /// Storing in memory always succeeds and appends the message.
    open spec fn store_outcome(
        before: Self,
        message: MessageView,
        after: Self,
        outcome: Result<(), ErrorView>,
    ) -> bool {
        &&& outcome is Ok
        &&& after@ == before@.push(message)
    }

    fn store(&mut self, message: &Message) -> (outcome: Result<(), IndexerError>) {
        self.messages.push(message.clone());
        assert(self@ =~= old(self)@.push(message@));
        Ok(())
    }
}

} // verus!
