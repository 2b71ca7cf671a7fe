//! The platform whose key events are raw codes.
//!
//! There a key press reaches the program as a record in the console's input
//! queue, mixed with records of other kinds. The caller owns the queue: it
//! asks for one record at a time and hands what came to `getvk`, which says
//! whether the wait is over. `getkey` then turns what was acquired into a key.

use vstd::prelude::*;
use crate::classify::{classified, is_listed, vk_to_key};
use crate::key::Key;

verus! {

/// One record of the console's input queue, as far as the key source reads it.
#[derive(Debug, Copy, Clone, PartialEq, Eq, Structural)]
pub enum InputRecord {
    /// A key changed state: it went down (`key_down`) or came up.
    Key { key_down: bool, virtual_key_code: u16 },
    /// A record of any other kind: mouse, window size, menu, focus.
    Other,
}

/// What one request to the console's input queue brought.
#[derive(Debug, Copy, Clone, PartialEq, Eq, Structural)]
pub enum Polled {
    /// The handle to the input device could not be obtained.
    NoHandle,
    /// The request came back without a record.
    Nothing,
    /// The request came back with this record.
    Record(InputRecord),
}

/// What the key source does after one request.
#[derive(Debug, Copy, Clone, PartialEq, Eq)]
pub enum Step {
    /// No key went down: ask the queue for the next record.
    Again,
    /// The wait is over, with the raw code of the key that went down, or with
    /// the failure to acquire any.
    Done(Result<u16, ()>),
}

/// The raw code that a record carries to the caller: that of a key going
/// down. A key coming up and a record of another kind carry none.
pub open spec fn key_down_code(record: InputRecord) -> Option<u16> {
    match record {
        InputRecord::Key { key_down, virtual_key_code } => if key_down {
            Some(virtual_key_code)
        } else {
            None
        },
        InputRecord::Other => None,
    }
}

/// The step that follows one request. Without a handle the source fails at
/// once; a key going down ends the wait with its code; anything else is
/// discarded and the queue is asked again.
pub open spec fn step_after(polled: Polled) -> Step {
    match polled {
        Polled::NoHandle => Step::Done(Err(())),
        Polled::Nothing => Step::Again,
        Polled::Record(record) => match key_down_code(record) {
            Some(code) => Step::Done(Ok(code)),
            None => Step::Again,
        },
    }
}

/// What the key reader returns for what the source acquired: the key of the
/// code, and the one opaque failure where no code came or the code stands for
/// no key.
pub open spec fn key_read(acquired: Result<u16, ()>) -> Result<Key, ()> {
    match acquired {
        Ok(code) => classified(code),
        Err(_) => Err(()),
    }
}

/// Decides one step of the wait for a raw code, from what the last request to
/// the input queue brought.
///
/// The caller repeats the request for as long as the step is `Again`, and
/// returns the result of the first `Done`.
pub fn getvk(polled: Polled) -> (step: Step)
    ensures
        step == step_after(polled),
        (step matches Step::Done(Err(_))) <==> polled is NoHandle,
        (step matches Step::Done(Ok(code)) ==> polled == Polled::Record(
            InputRecord::Key { key_down: true, virtual_key_code: code },
        )),
{
    match polled {
        Polled::NoHandle => Step::Done(Err(())),
        Polled::Nothing => Step::Again,
        Polled::Record(InputRecord::Key { key_down, virtual_key_code }) => {
            if key_down {
                Step::Done(Ok(virtual_key_code))
            } else {
                Step::Again
            }
        },
        Polled::Record(InputRecord::Other) => Step::Again,
    }
}

/// Turns what the key source acquired into a key.
///
/// A failure to acquire and a code that stands for no key come out as the same
/// failure.
pub fn getkey(acquired: Result<u16, ()>) -> (key: Result<Key, ()>)
    ensures
        key == key_read(acquired),
        key is Ok <==> (acquired matches Ok(code) && is_listed(code)),
{
    match acquired {
        Ok(vk) => vk_to_key(vk),
        Err(_) => Err(()),
    }
}

/// How a wait stands after the requests that brought `polls`, oldest first:
/// over with the first step that is `Done`, and still going on, `Again`, where
/// there is none.
pub open spec fn wait_after(polls: Seq<Polled>) -> Step
    decreases polls.len(),
{
    if polls.len() == 0 {
        Step::Again
    } else {
        match step_after(polls[0]) {
            Step::Again => wait_after(polls.drop_first()),
            Step::Done(result) => Step::Done(result),
        }
    }
}

/// A wait ends at the first request that finds no handle or brings a key going
/// down, with the step of that request: whatever came before was discarded,
/// and whatever comes after is not looked at.
pub proof fn lemma_wait_ends_at_first_done(polls: Seq<Polled>, at: int)
    requires
        0 <= at < polls.len(),
        step_after(polls[at]) is Done,
        forall|earlier: int| 0 <= earlier < at ==> step_after(#[trigger] polls[earlier]) is Again,
    ensures
        wait_after(polls) == step_after(polls[at]),
    decreases polls.len(),
{
    if at > 0 {
        let rest = polls.drop_first();
        assert forall|earlier: int| 0 <= earlier < at - 1 implies step_after(
            #[trigger] rest[earlier],
        ) is Again by {
            assert(rest[earlier] == polls[earlier + 1]);
        }
        lemma_wait_ends_at_first_done(rest, at - 1);
    }
}

/// A wait goes on for as long as every request is discarded.
pub proof fn lemma_wait_goes_on(polls: Seq<Polled>)
    ensures
        wait_after(polls) is Again <==> forall|i: int|
            0 <= i < polls.len() ==> step_after(#[trigger] polls[i]) is Again,
    decreases polls.len(),
{
    if polls.len() > 0 {
        let rest = polls.drop_first();
        lemma_wait_goes_on(rest);
        if wait_after(polls) is Again {
            assert forall|i: int| 0 <= i < polls.len() implies step_after(
                #[trigger] polls[i],
            ) is Again by {
                if i > 0 {
                    assert(polls[i] == rest[i - 1]);
                }
            }
        } else if step_after(polls[0]) is Again {
            let i = choose|i: int| 0 <= i < rest.len() && !(step_after(#[trigger] rest[i]) is Again);
            assert(polls[i + 1] == rest[i]);
        }
    }
}

} // verus!
