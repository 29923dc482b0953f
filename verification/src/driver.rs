//! The driver, written as a state machine that never touches the bus.
//!
//! A transaction with the chip is three steps on the bus: chip-select is
//! asserted, one frame is exchanged, chip-select is released. The driver
//! decides each step and its host carries it out: the driver hands out an
//! [`Action`], the host performs it on its bus and reports an [`Event`],
//! and [`Mcp795xx::step`] answers with the next action or with the
//! [`Outcome`] of the transaction.
//!
//! Whatever the bus reports, a transaction that has asked for chip-select
//! asks for its release before it ends, and asks for each of the two once:
//! [`lemma_chip_select_once`].

use vstd::prelude::*;
use crate::datetime::DateTime;
use crate::error::InvalidInput;
use crate::frame::{decode_frame, read_frame, read_frame_of, time_of, write_frame, write_frame_of};

verus! {

/// What the driver asks its host to do on the bus.
#[derive(Debug, Clone, Copy, PartialEq, Eq)]
pub enum Action {
    /// Assert chip-select: drive the line low.
    Select,
    /// Write the frame out; nothing is read back.
    Write([u8; 10]),
    /// Shift the frame out and read the chip's answer into the same ten
    /// bytes.
    Transfer([u8; 10]),
    /// Release chip-select: drive the line high.
    Deselect,
}

/// What the host reports once it has tried an action.
#[derive(Debug, PartialEq, Eq)]
pub enum Event<E> {
    /// The action was carried out, and the frame, if there was one, is as
    /// it was handed out.
    Done,
    /// The action was carried out and left these ten bytes in the frame:
    /// the answer to a [`Action::Transfer`].
    Received([u8; 10]),
    /// The bus reported this error.
    Failed(E),
}

/// How a transaction ended.
#[derive(Debug, PartialEq, Eq)]
pub enum Outcome<E> {
    /// The time was written to the chip.
    TimeSet,
    /// The time was read from the chip.
    Time(DateTime),
    /// The bus failed with this error, which is the first that the host
    /// reported.
    Failed(E),
}

/// Where a transaction stands.
#[derive(Debug, Clone, Copy, PartialEq, Eq)]
pub enum Phase {
    /// Chip-select has been asked for.
    Selecting,
    /// Chip-select is asserted and the exchange of the frame has been
    /// asked for.
    Exchanging,
    /// The exchange is over, or was skipped after a failure, and the
    /// release of chip-select has been asked for.
    Releasing,
}

/// One transaction with the chip, from the assertion of chip-select to its
/// release. `E` is the error type of the host's bus.
#[derive(Debug, PartialEq, Eq)]
pub struct Mcp795xx<E> {
    /// Where the transaction stands.
    pub phase: Phase,
    /// Whether the transaction reads the time; it sets the time otherwise.
    pub reading: bool,
    /// The frame to exchange and, once a read has been answered, the frame
    /// as the chip filled it in.
    pub frame: [u8; 10],
    /// The first error that the host reported, if any.
    pub failure: Option<E>,
}

/// What a step of a transaction leads to.
#[derive(Debug, PartialEq, Eq)]
pub enum Step<E> {
    /// The transaction goes on: perform the action and report what came
    /// of it to the transaction beside it.
    Next(Mcp795xx<E>, Action),
    /// The transaction is over: the host has reported of the release of
    /// chip-select.
    Finished(Outcome<E>),
}

impl<E> Mcp795xx<E> {
    /// Whether this is a transaction that reads the time and has done
    /// nothing but ask for chip-select.
    pub open spec fn opens_read(&self) -> bool {
        &&& self.phase is Selecting
        &&& self.reading
        &&& self.frame@ == read_frame_of()
        &&& self.failure is None
    }

    /// Whether this is a transaction that sets the time to `datetime` and
    /// has done nothing but ask for chip-select.
    pub open spec fn opens_write(&self, datetime: DateTime) -> bool {
        &&& self.phase is Selecting
        &&& !self.reading
        &&& self.frame@ == write_frame_of(datetime)
        &&& self.failure is None
    }

    /// The action that the transaction has asked for and waits to hear of.
    pub open spec fn pending(&self) -> Action {
        match self.phase {
            Phase::Selecting => Action::Select,
            Phase::Exchanging => if self.reading {
                Action::Transfer(self.frame)
            } else {
                Action::Write(self.frame)
            },
            Phase::Releasing => Action::Deselect,
        }
    }

    /// The transaction after the host has reported `event` of an action
    /// other than the release of chip-select.
    ///
    /// A failure is kept and leads straight to the release. Otherwise the
    /// assertion of chip-select leads to the exchange and the exchange to
    /// the release; bytes that come back from the exchange of a read take
    /// the place of the frame.
    pub open spec fn advanced(self, event: Event<E>) -> Self {
        match event {
            Event::Failed(error) => Mcp795xx {
                phase: Phase::Releasing,
                failure: Some(error),
                ..self
            },
            Event::Received(answer) => match self.phase {
                Phase::Selecting => Mcp795xx { phase: Phase::Exchanging, ..self },
                _ => Mcp795xx {
                    phase: Phase::Releasing,
                    frame: if self.reading {
                        answer
                    } else {
                        self.frame
                    },
                    ..self
                },
            },
            Event::Done => match self.phase {
                Phase::Selecting => Mcp795xx { phase: Phase::Exchanging, ..self },
                _ => Mcp795xx { phase: Phase::Releasing, ..self },
            },
        }
    }

    /// How the transaction ends when the host reports `event` of the
    /// release of chip-select: with the first failure, if the bus has
    /// failed at any step; else with the time that the frame holds, for a
    /// read, or with the word that the time is set.
    pub open spec fn outcome(self, event: Event<E>) -> Outcome<E> {
        match self.failure {
            Some(error) => Outcome::Failed(error),
            None => match event {
                Event::Failed(error) => Outcome::Failed(error),
                _ => if self.reading {
                    Outcome::Time(time_of(self.frame@))
                } else {
                    Outcome::TimeSet
                },
            },
        }
    }

    /// What [`Mcp795xx::step`] returns.
    pub open spec fn spec_step(self, event: Event<E>) -> Step<E> {
        match self.phase {
            Phase::Releasing => Step::Finished(self.outcome(event)),
            _ => Step::Next(self.advanced(event), self.advanced(event).pending()),
        }
    }

    /// The actions that the host is asked for while it reports `events`
    /// one after another: the pending action first, then the answer to
    /// each event. The list ends where the transaction ends, or where the
    /// events do.
    pub open spec fn actions(self, events: Seq<Event<E>>) -> Seq<Action>
        decreases events.len(),
    {
        if events.len() == 0 {
            seq![self.pending()]
        } else {
            match self.spec_step(events[0]) {
                Step::Next(next, _) => seq![self.pending()] + next.actions(events.drop_first()),
                Step::Finished(_) => seq![self.pending()],
            }
        }
    }

    /// How the transaction ends while the host reports `events` one after
    /// another; `None` if they do not take it to its end.
    pub open spec fn ending(self, events: Seq<Event<E>>) -> Option<Outcome<E>>
        decreases events.len(),
    {
        if events.len() == 0 {
            None
        } else {
            match self.spec_step(events[0]) {
                Step::Next(next, _) => next.ending(events.drop_first()),
                Step::Finished(outcome) => Some(outcome),
            }
        }
    }

    /// Opens the transaction that reads the time. The frame is built and
    /// the first action, the assertion of chip-select, is handed out.
    pub fn get_time() -> (r: (Self, Action))
        ensures
            r.0.opens_read(),
            r.1 == Action::Select,
    {
        (
            Mcp795xx { phase: Phase::Selecting, reading: true, frame: read_frame(), failure: None },
            Action::Select,
        )
    }

    /// Opens the transaction that sets the time to `datetime`. The frame
    /// is built before anything is asked of the bus: a field that its
    /// register refuses is reported at once, and no transaction is
    /// opened.
    pub fn set_time(datetime: DateTime) -> (r: Result<(Self, Action), InvalidInput>)
        ensures
            match datetime.rejected() {
                Some(value) => r == Err::<(Self, Action), InvalidInput>(InvalidInput(value)),
                None => r is Ok && r.unwrap().0.opens_write(datetime) && r.unwrap().1
                    == Action::Select,
            },
    {
        let frame = write_frame(&datetime)?;
        Ok(
            (
                Mcp795xx { phase: Phase::Selecting, reading: false, frame, failure: None },
                Action::Select,
            ),
        )
    }

    /// Takes the host's report of the pending action and says what comes
    /// next: the next action, or the outcome once chip-select is released.
    pub fn step(self, event: Event<E>) -> (r: Step<E>)
        ensures
            r == self.spec_step(event),
    {
        let Mcp795xx { phase, reading, frame, failure } = self;
        match phase {
            Phase::Releasing => {
                let outcome = match failure {
                    Some(error) => Outcome::Failed(error),
                    None => match event {
                        Event::Failed(error) => Outcome::Failed(error),
                        _ => if reading {
                            Outcome::Time(decode_frame(&frame))
                        } else {
                            Outcome::TimeSet
                        },
                    },
                };
                Step::Finished(outcome)
            },
            Phase::Selecting => match event {
                Event::Failed(error) => Step::Next(
                    Mcp795xx { phase: Phase::Releasing, reading, frame, failure: Some(error) },
                    Action::Deselect,
                ),
                _ => Step::Next(
                    Mcp795xx { phase: Phase::Exchanging, reading, frame, failure },
                    if reading {
                        Action::Transfer(frame)
                    } else {
                        Action::Write(frame)
                    },
                ),
            },
            Phase::Exchanging => match event {
                Event::Failed(error) => Step::Next(
                    Mcp795xx { phase: Phase::Releasing, reading, frame, failure: Some(error) },
                    Action::Deselect,
                ),
                Event::Received(answer) => Step::Next(
                    Mcp795xx {
                        phase: Phase::Releasing,
                        reading,
                        frame: if reading {
                            answer
                        } else {
                            frame
                        },
                        failure,
                    },
                    Action::Deselect,
                ),
                Event::Done => Step::Next(
                    Mcp795xx { phase: Phase::Releasing, reading, frame, failure },
                    Action::Deselect,
                ),
            },
        }
    }
}

/// How often `wanted` occurs in `actions`.
pub open spec fn occurrences(actions: Seq<Action>, wanted: Action) -> nat
    decreases actions.len(),
{
    if actions.len() == 0 {
        0
    } else {
        occurrences(actions.drop_last(), wanted) + if actions.last() == wanted {
            1nat
        } else {
            0nat
        }
    }
}

/// The actions of a transaction that has just been opened are one of four
/// lists, whatever is reported: chip-select alone, while nothing has been
/// reported; chip-select and its release, where asserting it failed;
/// chip-select and the exchange, while the exchange has not been reported;
/// or chip-select, the exchange and the release. The frame is exchanged at
/// most once, and only between the assertion of chip-select and its
/// release. The transaction has ended once the release has been reported.
pub proof fn lemma_actions_shape<E>(opened: Mcp795xx<E>, events: Seq<Event<E>>)
    requires
        opened.phase is Selecting,
    ensures
        ({
            let actions = opened.actions(events);
            let exchange = opened.advanced(Event::Done).pending();
            &&& exchange is Write || exchange is Transfer
            &&& if events.len() == 0 {
                actions == seq![Action::Select] && opened.ending(events) is None
            } else if events[0] is Failed {
                &&& actions == seq![Action::Select, Action::Deselect]
                &&& opened.ending(events) is Some <==> events.len() >= 2
            } else if events.len() == 1 {
                actions == seq![Action::Select, exchange] && opened.ending(events) is None
            } else {
                &&& actions == seq![Action::Select, exchange, Action::Deselect]
                &&& opened.ending(events) is Some <==> events.len() >= 3
            }
        }),
{
    reveal_with_fuel(Mcp795xx::actions, 4);
    reveal_with_fuel(Mcp795xx::ending, 4);
    let actions = opened.actions(events);
    if events.len() > 0 {
        let rest = events.drop_first();
        let second = opened.advanced(events[0]);
        if rest.len() > 0 {
            let last = rest.drop_first();
            let third = second.advanced(rest[0]);
            if events[0] is Failed {
                assert(actions =~= seq![Action::Select, Action::Deselect]);
            } else {
                assert(third.phase is Releasing);
                assert(actions =~= seq![
                    Action::Select,
                    opened.advanced(Event::Done).pending(),
                    Action::Deselect,
                ]);
            }
        } else {
            if events[0] is Failed {
                assert(actions =~= seq![Action::Select, Action::Deselect]);
            } else {
                assert(actions =~= seq![Action::Select, opened.advanced(Event::Done).pending()]);
            }
        }
    }
}

/// Counting in a list with one more action at its end.
proof fn lemma_occurrences_push(actions: Seq<Action>, last: Action, wanted: Action)
    ensures
        occurrences(actions.push(last), wanted) == occurrences(actions, wanted) + if last
            == wanted {
            1nat
        } else {
            0nat
        },
{
    assert(actions.push(last).drop_last() =~= actions);
}

/// Chip-select is asserted exactly once and released exactly once in a
/// transaction, whatever the bus reports, a failure at any step included.
///
/// Of a transaction that has just been opened and of every list of
/// reports: the assertion of chip-select is asked for once, as the first
/// action; its release is asked for at most once; and where the reports
/// take the transaction to its end, which three of them always do, the
/// release has been asked for once, as the last action.
pub proof fn lemma_chip_select_once<E>(opened: Mcp795xx<E>, events: Seq<Event<E>>)
    requires
        opened.phase is Selecting,
    ensures
        opened.actions(events).first() == Action::Select,
        occurrences(opened.actions(events), Action::Select) == 1,
        occurrences(opened.actions(events), Action::Deselect) <= 1,
        events.len() >= 3 ==> opened.ending(events) is Some,
        opened.ending(events) is Some ==> opened.actions(events).last() == Action::Deselect
            && occurrences(opened.actions(events), Action::Deselect) == 1,
{
    lemma_actions_shape(opened, events);
    let exchange = opened.advanced(Event::Done).pending();
    let none = Seq::<Action>::empty();
    lemma_occurrences_push(none, Action::Select, Action::Select);
    lemma_occurrences_push(none, Action::Select, Action::Deselect);
    assert(seq![Action::Select] =~= none.push(Action::Select));
    let one = seq![Action::Select];
    lemma_occurrences_push(one, Action::Deselect, Action::Select);
    lemma_occurrences_push(one, Action::Deselect, Action::Deselect);
    assert(seq![Action::Select, Action::Deselect] =~= one.push(Action::Deselect));
    lemma_occurrences_push(one, exchange, Action::Select);
    lemma_occurrences_push(one, exchange, Action::Deselect);
    assert(seq![Action::Select, exchange] =~= one.push(exchange));
    let two = seq![Action::Select, exchange];
    lemma_occurrences_push(two, Action::Deselect, Action::Select);
    lemma_occurrences_push(two, Action::Deselect, Action::Deselect);
    assert(seq![Action::Select, exchange, Action::Deselect] =~= two.push(Action::Deselect));
}

/// An error of the bus is what the transaction ends with, untouched, and
/// chip-select is released all the same: where the exchange fails with
/// `error`, the next action is the release, and the outcome after it is
/// `error`.
pub proof fn lemma_failure_propagates<E>(
    opened: Mcp795xx<E>,
    selected: Event<E>,
    error: E,
    released: Event<E>,
)
    requires
        opened.phase is Selecting,
        opened.failure is None,
        !(selected is Failed),
    ensures
        opened.actions(seq![selected, Event::Failed(error), released]) == seq![
            Action::Select,
            opened.advanced(selected).pending(),
            Action::Deselect,
        ],
        opened.ending(seq![selected, Event::Failed(error), released]) == Some(
            Outcome::Failed(error),
        ),
{
    let events = seq![selected, Event::Failed(error), released];
    lemma_actions_shape(opened, events);
    reveal_with_fuel(Mcp795xx::ending, 4);
    assert(events.drop_first() =~= seq![Event::Failed(error), released]);
    assert(events.drop_first().drop_first() =~= seq![released]);
}

/// Setting the time, on a bus that carries out what it is asked: the
/// host is asked to assert chip-select, to write the frame that sets the
/// chip to `datetime`, and to release chip-select; then the time is set.
pub proof fn lemma_write_transaction<E>(opened: Mcp795xx<E>, datetime: DateTime)
    requires
        opened.opens_write(datetime),
    ensures
        opened.actions(seq![Event::Done, Event::Done, Event::Done]) == seq![
            Action::Select,
            Action::Write(opened.frame),
            Action::Deselect,
        ],
        opened.frame@ == write_frame_of(datetime),
        opened.ending(seq![Event::Done, Event::Done, Event::Done]) == Some(Outcome::<E>::TimeSet),
{
    let events = seq![Event::<E>::Done, Event::Done, Event::Done];
    lemma_actions_shape(opened, events);
    reveal_with_fuel(Mcp795xx::ending, 4);
    assert(events.drop_first() =~= seq![Event::Done, Event::Done]);
    assert(events.drop_first().drop_first() =~= seq![Event::Done]);
}

/// Reading the time, on a bus that carries out what it is asked: the host
/// is asked to assert chip-select, to transfer the read frame, and to
/// release chip-select; then the time is the one that the chip's answer
/// holds.
pub proof fn lemma_read_transaction<E>(opened: Mcp795xx<E>, answer: [u8; 10])
    requires
        opened.opens_read(),
    ensures
        opened.actions(seq![Event::Done, Event::Received(answer), Event::Done]) == seq![
            Action::Select,
            Action::Transfer(opened.frame),
            Action::Deselect,
        ],
        opened.frame@ == read_frame_of(),
        opened.ending(seq![Event::Done, Event::Received(answer), Event::Done]) == Some(
            Outcome::<E>::Time(time_of(answer@)),
        ),
{
    let events = seq![Event::<E>::Done, Event::Received(answer), Event::Done];
    lemma_actions_shape(opened, events);
    reveal_with_fuel(Mcp795xx::ending, 4);
    assert(events.drop_first() =~= seq![Event::Received(answer), Event::Done]);
    assert(events.drop_first().drop_first() =~= seq![Event::Done]);
}

} // verus!
