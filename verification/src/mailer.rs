//! The mailer: which message is sent next, and when a message leaves the queue.

use crate::db;
use crate::db::Database;
use crate::error::Error;
use crate::invariants::lemma_pop_next_message;
use crate::model::DatabaseView;
use crate::schema::MessageTask;
use vstd::prelude::*;

verus! {

/// What the mailer does after an attempt to send the oldest message.
#[derive(Clone, Copy, Debug, PartialEq, Eq, Structural)]
pub enum Next {
    /// The message was sent and left the queue; the mailer waits, then looks for
    /// the next one.
    Wait,
    /// The message was not sent and stays in the queue; the mailer tries again.
    Retry,
}

/// The state after an attempt to send the oldest message: the message leaves the
/// queue once it was sent, and only then.
pub open spec fn settled(v: DatabaseView, sent: bool) -> DatabaseView {
    if sent {
        v.pop_next_message().0
    } else {
        v
    }
}

/// What follows an attempt to send the oldest message; `Unspecified` where the
/// message was sent but none waits in the queue.
pub open spec fn after_attempt(v: DatabaseView, sent: bool) -> Result<Next, Error> {
    if sent {
        match v.pop_next_message().1 {
            Ok(_) => Ok(Next::Wait),
            Err(e) => Err(e),
        }
    } else {
        Ok(Next::Retry)
    }
}

/// The message to send next: the oldest that waits. It stays in the queue.
pub fn next_message(db: &Database) -> (message: Option<MessageTask>)
    ensures
        db::message_option_view(message) == db@.read_next_message(),
{
    db::read_next_message(db)
}

/// Records the outcome of an attempt to send the oldest message. A message that was
/// sent leaves the queue; one that was not stays, to be tried again.
pub fn settle(db: &mut Database, sent: bool) -> (r: Result<Next, Error>)
    requires
        old(db).wf(),
    ensures
        final(db).wf(),
        final(db)@ == settled(old(db)@, sent),
        r == after_attempt(old(db)@, sent),
{
    if sent {
        match db::pop_next_message(db) {
            Ok(()) => Ok(Next::Wait),
            Err(e) => Err(e),
        }
    } else {
        Ok(Next::Retry)
    }
}

/// A message leaves the queue only after it was sent: as long as sending fails, the
/// oldest message stays the oldest.
pub proof fn lemma_unsent_stays(v: DatabaseView)
    requires
        v.wf(),
    ensures
        settled(v, false) == v,
        settled(v, false).read_next_message() == v.read_next_message(),
        v.read_next_message() is Some ==> after_attempt(v, true) == Ok::<Next, Error>(Next::Wait),
{
    lemma_pop_next_message(v);
}

} // verus!
