//! One operation in flight: the actions it is made of, how far it has come,
//! and what it ends with.

use vstd::prelude::*;
use crate::bus::{Action, Event};
use crate::decode::{
    capture_done, connected, fifo_length, spec_capture_done, spec_connected, spec_fifo_length,
};
use crate::types::Error;

verus! {

/// The operations of the driver. An exchange remembers which one it serves,
/// because that decides how the bytes read are turned into a result.
#[derive(Clone, Copy, Debug, PartialEq, Eq, Structural)]
pub enum Operation {
    Init,
    SetResolution,
    IsConnected,
    StartCapture,
    IsCaptureDone,
    ReadCapturedImage,
    GetFifoLength,
    GetSensorChipid,
}

/// What a finished operation hands to its caller.
#[derive(Clone, Debug, PartialEq, Eq)]
pub enum Outcome {
    /// The operation only wrote.
    Done,
    /// Answer of `is_connected` and `is_capture_done`.
    Flag(bool),
    /// Number of bytes waiting in the FIFO.
    Length(u32),
    /// High and low byte of the sensor's identity.
    ChipId([u8; 2]),
    /// The bytes drained from the FIFO.
    Image(Vec<u8>),
}

/// An [`Outcome`] as a mathematical value.
pub enum Report {
    Done,
    Flag(bool),
    Length(int),
    ChipId(u8, u8),
    Image(Seq<u8>),
}

impl View for Outcome {
    type V = Report;

    open spec fn view(&self) -> Report {
        match self {
            Outcome::Done => Report::Done,
            Outcome::Flag(b) => Report::Flag(*b),
            Outcome::Length(n) => Report::Length(*n as int),
            Outcome::ChipId(id) => Report::ChipId(id[0], id[1]),
            Outcome::Image(bytes) => Report::Image(bytes@),
        }
    }
}

/// The result of `operation` once every action has completed and the reads
/// have handed back `received`, in order. Bytes that do not have the count
/// the operation reads are an out-of-bounds error.
pub open spec fn conclude(operation: Operation, received: Seq<u8>) -> Result<Report, Error> {
    match operation {
        Operation::Init | Operation::SetResolution | Operation::StartCapture => Ok(Report::Done),
        Operation::IsConnected => if received.len() == 3 {
            Ok(Report::Flag(spec_connected(received[0], received[1], received[2])))
        } else {
            Err(Error::OutOfBounds)
        },
        Operation::IsCaptureDone => if received.len() == 1 {
            Ok(Report::Flag(spec_capture_done(received[0])))
        } else {
            Err(Error::OutOfBounds)
        },
        Operation::ReadCapturedImage => Ok(Report::Image(received)),
        Operation::GetFifoLength => if received.len() == 3 {
            Ok(Report::Length(spec_fifo_length(received[0], received[1], received[2])))
        } else {
            Err(Error::OutOfBounds)
        },
        Operation::GetSensorChipid => if received.len() == 2 {
            Ok(Report::ChipId(received[0], received[1]))
        } else {
            Err(Error::OutOfBounds)
        },
    }
}

/// What an answer to a pending action is in the way of: nothing, or the
/// error that ends the operation.
pub open spec fn refusal(action: Action, event: Event) -> Option<Error> {
    match event {
        Event::Failed => Some(action.spec_failure()),
        Event::Completed(bytes) => if bytes@.len() == action.spec_reply_len() {
            None
        } else {
            Some(Error::OutOfBounds)
        },
    }
}

/// The bytes that an answer carries.
pub open spec fn payload(event: Event) -> Seq<u8> {
    match event {
        Event::Failed => Seq::empty(),
        Event::Completed(bytes) => bytes@,
    }
}

/// The state of an exchange as a mathematical value.
pub struct Progress {
    /// The operation served.
    pub operation: Operation,
    /// Every action of the operation, in order.
    pub script: Seq<Action>,
    /// How many actions have completed.
    pub done: nat,
    /// The bytes read so far, in order.
    pub received: Seq<u8>,
    /// The error that has ended the operation, if one has.
    pub failure: Option<Error>,
}

impl Progress {
    /// An operation of which nothing has been done yet.
    pub open spec fn start(operation: Operation, script: Seq<Action>) -> Progress {
        Progress { operation, script, done: 0, received: Seq::empty(), failure: None }
    }

    /// The action that waits for its answer, if the operation is still
    /// running.
    pub open spec fn pending(self) -> Option<Action> {
        if self.failure is None && self.done < self.script.len() {
            Some(self.script[self.done as int])
        } else {
            None
        }
    }

    /// The state after `event` has answered the pending action. A failure
    /// ends the operation at once; an ended operation takes no answers.
    pub open spec fn step(self, event: Event) -> Progress {
        match self.pending() {
            None => self,
            Some(action) => match refusal(action, event) {
                Some(error) => Progress { failure: Some(error), ..self },
                None => Progress {
                    done: self.done + 1,
                    received: self.received + payload(event),
                    ..self
                },
            },
        }
    }

    /// The state after the answers `events`, taken in order.
    pub open spec fn run(self, events: Seq<Event>) -> Progress
        decreases events.len(),
    {
        if events.len() == 0 {
            self
        } else {
            self.step(events[0]).run(events.drop_first())
        }
    }

    /// Nothing while an action is pending; after that the first failure, or
    /// the result decoded from the bytes read.
    pub open spec fn outcome(self) -> Option<Result<Report, Error>> {
        match self.failure {
            Some(error) => Some(Err(error)),
            None => if self.done < self.script.len() {
                None
            } else {
                Some(conclude(self.operation, self.received))
            },
        }
    }
}

/// An operation in flight. The caller performs [`Exchange::pending`], hands
/// the answer to [`Exchange::resume`], and repeats until nothing is pending;
/// [`Exchange::outcome`] then holds the result.
#[derive(Debug)]
pub struct Exchange {
    operation: Operation,
    script: Vec<Action>,
    cursor: usize,
    received: Vec<u8>,
    failure: Option<Error>,
}

impl View for Exchange {
    type V = Progress;

    closed spec fn view(&self) -> Progress {
        Progress {
            operation: self.operation,
            script: self.script@,
            done: self.cursor as nat,
            received: self.received@,
            failure: self.failure,
        }
    }
}

impl Exchange {
    /// Begins `operation`, which consists of the actions of `script`.
    pub fn new(operation: Operation, script: Vec<Action>) -> (exchange: Exchange)
        ensures
            exchange@ == Progress::start(operation, script@),
    {
        Exchange { operation, script, cursor: 0, received: Vec::new(), failure: None }
    }

    /// The operation that this exchange serves.
    pub fn operation(&self) -> (operation: Operation)
        ensures
            operation == self@.operation,
    {
        self.operation
    }

    /// The number of actions that have completed.
    pub fn completed(&self) -> (count: usize)
        ensures
            count == self@.done,
    {
        self.cursor
    }

    /// The action to perform next, or `None` once the operation has ended.
    pub fn pending(&self) -> (action: Option<Action>)
        ensures
            action == self@.pending(),
    {
        if self.failure.is_none() && self.cursor < self.script.len() {
            Some(self.script[self.cursor])
        } else {
            None
        }
    }

    /// Takes the answer to the pending action and returns the action to
    /// perform next. After a failure there is none.
    pub fn resume(&mut self, event: Event) -> (next: Option<Action>)
        ensures
            final(self)@ == old(self)@.step(event),
            next == final(self)@.pending(),
    {
        if self.failure.is_none() && self.cursor < self.script.len() {
            let action = self.script[self.cursor];
            match event {
                Event::Failed => {
                    self.failure = Some(action.failure());
                },
                Event::Completed(bytes) => {
                    if bytes.len() == action.reply_len() {
                        let mut bytes = bytes;
                        self.received.append(&mut bytes);
                        self.cursor = self.cursor + 1;
                    } else {
                        self.failure = Some(Error::OutOfBounds);
                    }
                },
            }
        }
        self.pending()
    }

    /// The result of the operation: `None` while an action is pending, then
    /// the first failure or the decoded result.
    pub fn outcome(&self) -> (result: Option<Result<Outcome, Error>>)
        ensures
            match (result, self@.outcome()) {
                (None, None) => true,
                (Some(Err(e)), Some(Err(f))) => e == f,
                (Some(Ok(o)), Some(Ok(r))) => o@ == r,
                _ => false,
            },
    {
        match self.failure {
            Some(error) => Some(Err(error)),
            None => if self.cursor < self.script.len() {
                None
            } else {
                Some(finish(self.operation, &self.received))
            },
        }
    }
}

/// Decodes the bytes that a completed operation has read.
pub fn finish(operation: Operation, received: &Vec<u8>) -> (result: Result<Outcome, Error>)
    ensures
        match (result, conclude(operation, received@)) {
            (Err(e), Err(f)) => e == f,
            (Ok(o), Ok(r)) => o@ == r,
            _ => false,
        },
{
    match operation {
        Operation::Init | Operation::SetResolution | Operation::StartCapture => Ok(Outcome::Done),
        Operation::IsConnected => if received.len() == 3 {
            Ok(Outcome::Flag(connected(received[0], [received[1], received[2]])))
        } else {
            Err(Error::OutOfBounds)
        },
        Operation::IsCaptureDone => if received.len() == 1 {
            Ok(Outcome::Flag(capture_done(received[0])))
        } else {
            Err(Error::OutOfBounds)
        },
        Operation::ReadCapturedImage => {
            let image = received.clone();
            assert(image@ =~= received@);
            Ok(Outcome::Image(image))
        },
        Operation::GetFifoLength => if received.len() == 3 {
            Ok(Outcome::Length(fifo_length(received[0], received[1], received[2])))
        } else {
            Err(Error::OutOfBounds)
        },
        Operation::GetSensorChipid => if received.len() == 2 {
            Ok(Outcome::ChipId([received[0], received[1]]))
        } else {
            Err(Error::OutOfBounds)
        },
    }
}

} // verus!
