//! The bookkeeping of one streamed download.
//!
//! A download alternates between waiting on the network or the disk and
//! deciding what to do next. The waiting is the caller's; the deciding is
//! [`Transfer::step`]: it takes what just happened and answers with the next
//! state and the one thing to do now. The caller starts with
//! [`Transfer::begin`], performs each [`Action`], and reports its outcome as
//! the next [`Event`], until the action is [`Action::Finish`] or
//! [`Action::Fail`].
//!
//! The laws at the end of the file speak of whole runs: what a run that ends
//! in [`Transfer::Complete`] has put on disk, what it has reported on the
//! way, and that a response without a declared length never gets as far as
//! creating a file.

use crate::error::Error;
use vstd::prelude::*;

verus! {

/// Where a download stands.
#[derive(Clone, Copy, Debug, PartialEq, Eq, Structural)]
pub enum Transfer {
    /// The request is out and the response head has not arrived.
    Requested,
    /// The body is `total` bytes long; the destination file is being created.
    Creating { total: u64 },
    /// `written` of `total` bytes are in the file; the next piece is awaited.
    Receiving { written: u64, total: u64 },
    /// A piece of `pending` bytes is being appended after `written` bytes.
    Writing { written: u64, total: u64, pending: u64 },
    /// All `total` bytes are in the file.
    Complete { total: u64 },
    /// The download has ended with `error`.
    Failed { error: Error },
}

/// What the caller has seen happen.
#[derive(Clone, Copy, Debug, PartialEq, Eq, Structural)]
pub enum Event {
    /// The connection could not be made, or the server answered with an error.
    RequestFailed,
    /// The response head arrived, with the body length it declares, if any.
    Responded { content_length: Option<u64> },
    /// The destination file exists and is empty.
    FileCreated,
    /// The destination file could not be created.
    FileCreateFailed,
    /// A piece of `len` bytes of the body arrived.
    Chunk { len: u64 },
    /// The body has ended.
    BodyEnded,
    /// Reading the body failed.
    ReadFailed,
    /// The piece in hand has been appended to the file, all of it.
    ChunkWritten,
    /// Appending to the file failed.
    WriteFailed,
}

/// What the caller is to do next.
#[derive(Clone, Copy, Debug, PartialEq, Eq, Structural)]
pub enum Action {
    /// Send the request and wait for the response head.
    SendRequest,
    /// Create the destination file, or empty it if it exists.
    CreateFile { total: u64 },
    /// Wait for the next piece of the body.
    ReadChunk,
    /// Append the piece in hand to the file.
    WriteChunk,
    /// Report that `written` of `total` bytes are in the file, then wait for
    /// the next piece of the body.
    Report { written: u64, total: u64 },
    /// Stop: the download succeeded.
    Finish,
    /// Stop: the download failed with `error`. What is in the file stays.
    Fail { error: Error },
}

impl Transfer {
    /// The state and action in which a download ends with `error`.
    pub open spec fn failing(error: Error) -> (Transfer, Action) {
        (Transfer::Failed { error }, Action::Fail { error })
    }

    /// The state that follows `self` on `event`, and the action that goes
    /// with it.
    ///
    /// A piece is accepted only if it fits in what is left of the declared
    /// length, and the body may end only when nothing is left: a body that is
    /// longer or shorter than declared is a failed stream. So is an event that
    /// the state does not wait for. A finished download stays as it is.
    pub open spec fn next(self, event: Event) -> (Transfer, Action) {
        match self {
            Transfer::Requested => match event {
                Event::RequestFailed => Self::failing(Error::RequestFailed),
                Event::Responded { content_length: None } => Self::failing(
                    Error::MissingContentLength,
                ),
                Event::Responded { content_length: Some(total) } => (
                    Transfer::Creating { total },
                    Action::CreateFile { total },
                ),
                _ => Self::failing(Error::StreamIOFailed),
            },
            Transfer::Creating { total } => match event {
                Event::FileCreated => (Transfer::Receiving { written: 0, total }, Action::ReadChunk),
                Event::FileCreateFailed => Self::failing(Error::FileCreateFailed),
                _ => Self::failing(Error::StreamIOFailed),
            },
            Transfer::Receiving { written, total } => match event {
                Event::Chunk { len } if written + len <= total => (
                    Transfer::Writing { written, total, pending: len },
                    Action::WriteChunk,
                ),
                Event::BodyEnded if written == total => (
                    Transfer::Complete { total },
                    Action::Finish,
                ),
                _ => Self::failing(Error::StreamIOFailed),
            },
            Transfer::Writing { written, total, pending } => match event {
                Event::ChunkWritten if written + pending <= total => (
                    Transfer::Receiving { written: (written + pending) as u64, total },
                    Action::Report { written: (written + pending) as u64, total },
                ),
                _ => Self::failing(Error::StreamIOFailed),
            },
            Transfer::Complete { total } => (self, Action::Finish),
            Transfer::Failed { error } => (self, Action::Fail { error }),
        }
    }

    /// A download at its start: the request is to be sent.
    pub fn begin() -> (r: (Transfer, Action))
        ensures
            r == (Transfer::Requested, Action::SendRequest),
    {
        (Transfer::Requested, Action::SendRequest)
    }

    /// Takes `event` in and says what to do next.
    pub fn step(self, event: Event) -> (r: (Transfer, Action))
        ensures
            r == self.next(event),
    {
        match self {
            Transfer::Requested => match event {
                Event::RequestFailed => Self::fail(Error::RequestFailed),
                Event::Responded { content_length: None } => Self::fail(
                    Error::MissingContentLength,
                ),
                Event::Responded { content_length: Some(total) } => (
                    Transfer::Creating { total },
                    Action::CreateFile { total },
                ),
                _ => Self::fail(Error::StreamIOFailed),
            },
            Transfer::Creating { total } => match event {
                Event::FileCreated => (Transfer::Receiving { written: 0, total }, Action::ReadChunk),
                Event::FileCreateFailed => Self::fail(Error::FileCreateFailed),
                _ => Self::fail(Error::StreamIOFailed),
            },
            Transfer::Receiving { written, total } => match event {
                Event::Chunk { len } => {
                    if written <= total && len <= total - written {
                        (Transfer::Writing { written, total, pending: len }, Action::WriteChunk)
                    } else {
                        Self::fail(Error::StreamIOFailed)
                    }
                },
                Event::BodyEnded => {
                    if written == total {
                        (Transfer::Complete { total }, Action::Finish)
                    } else {
                        Self::fail(Error::StreamIOFailed)
                    }
                },
                _ => Self::fail(Error::StreamIOFailed),
            },
            Transfer::Writing { written, total, pending } => match event {
                Event::ChunkWritten => {
                    if written <= total && pending <= total - written {
                        let written: u64 = written + pending;
                        (Transfer::Receiving { written, total }, Action::Report { written, total })
                    } else {
                        Self::fail(Error::StreamIOFailed)
                    }
                },
                _ => Self::fail(Error::StreamIOFailed),
            },
            Transfer::Complete { total } => (self, Action::Finish),
            Transfer::Failed { error } => (self, Action::Fail { error }),
        }
    }

    fn fail(error: Error) -> (r: (Transfer, Action))
        ensures
            r == Self::failing(error),
    {
        (Transfer::Failed { error }, Action::Fail { error })
    }

    /// The state reached from `self` when `events` come in, in order.
    pub open spec fn after(self, events: Seq<Event>) -> Transfer
        decreases events.len(),
    {
        if events.len() == 0 {
            self
        } else {
            self.after(events.drop_last()).next(events.last()).0
        }
    }

    /// The actions with which `events` are answered, one for each.
    pub open spec fn answers(self, events: Seq<Event>) -> Seq<Action>
        decreases events.len(),
    {
        if events.len() == 0 {
            Seq::empty()
        } else {
            self.answers(events.drop_last()).push(
                self.after(events.drop_last()).next(events.last()).1,
            )
        }
    }

    /// How many bytes the caller has appended to the file in the course of
    /// `events`: the lengths of the pieces whose writing it has confirmed.
    pub open spec fn appended(self, events: Seq<Event>) -> nat
        decreases events.len(),
    {
        if events.len() == 0 {
            0
        } else {
            let piece: nat = match (self.after(events.drop_last()), events.last()) {
                (Transfer::Writing { pending, .. }, Event::ChunkWritten) => pending as nat,
                _ => 0,
            };
            self.appended(events.drop_last()) + piece
        }
    }

    /// What holds of a state that a download has reached from its start,
    /// given its first event, the bytes appended and the actions answered so
    /// far.
    spec fn consistent(self, first: Option<Event>, appended: nat, answers: Seq<Action>) -> bool {
        let opened = |total: u64| first == Some(Event::Responded { content_length: Some(total) });
        let unsized_body = first == Some(Event::Responded { content_length: None });
        &&& match self {
            Transfer::Requested => first is None,
            Transfer::Creating { total } => opened(total) && appended == 0,
            Transfer::Receiving { written, total } => opened(total) && appended == written <= total,
            Transfer::Writing { written, total, pending } => opened(total) && appended == written
                && written + pending <= total,
            Transfer::Complete { total } => opened(total) && appended == total,
            Transfer::Failed { error } => first is Some && (unsized_body ==> error
                == Error::MissingContentLength),
        }
        &&& forall|k: int|
            0 <= k < answers.len() ==> match #[trigger] answers[k] {
                Action::Report { written, total } => written <= appended && opened(total),
                Action::CreateFile { total } => opened(total),
                Action::Fail { error } => unsized_body ==> error == Error::MissingContentLength,
                _ => !unsized_body,
            }
        &&& !(self is Failed) ==> Self::last_report(answers) == Some(appended as u64) || (appended
            == 0 && Self::last_report(answers) is None)
        &&& forall|i: int, j: int|
            0 <= i <= j < answers.len() ==> match (#[trigger] answers[i], #[trigger] answers[j]) {
                (Action::Report { written: early, .. }, Action::Report { written: late, .. }) => early
                    <= late,
                _ => true,
            }
    }

    /// The byte count of the last report among `answers`, if there is one.
    pub open spec fn last_report(answers: Seq<Action>) -> Option<u64>
        decreases answers.len(),
    {
        if answers.len() == 0 {
            None
        } else {
            match answers.last() {
                Action::Report { written, .. } => Some(written),
                _ => Self::last_report(answers.drop_last()),
            }
        }
    }

    proof fn lemma_consistent(events: Seq<Event>)
        ensures
            Transfer::Requested.after(events).consistent(
                if events.len() == 0 {
                    None
                } else {
                    Some(events[0])
                },
                Transfer::Requested.appended(events),
                Transfer::Requested.answers(events),
            ),
            Transfer::Requested.answers(events).len() == events.len(),
        decreases events.len(),
    {
        if events.len() > 0 {
            let earlier = events.drop_last();
            Self::lemma_consistent(earlier);
            assert(Transfer::Requested.answers(events).drop_last() == Transfer::Requested.answers(
                earlier,
            ));
        }
    }
}

/// A download that ends well has put exactly the declared number of bytes in
/// the file: if the events of a download from its start lead to
/// `Complete { total }`, then the first of them is the response that declares
/// `total` as the body length, and the pieces that were written add up to
/// `total`.
pub proof fn law_complete_means_declared_length(events: Seq<Event>, total: u64)
    requires
        Transfer::Requested.after(events) == (Transfer::Complete { total }),
    ensures
        events.len() > 0,
        events[0] == (Event::Responded { content_length: Some(total) }),
        Transfer::Requested.appended(events) == total,
{
    Transfer::lemma_consistent(events);
}

/// Progress never goes back: of two reports made in the course of a download
/// from its start, the later one does not count fewer bytes than the earlier
/// one, and both name the same total.
pub proof fn law_reports_never_decrease(events: Seq<Event>, i: int, j: int)
    requires
        0 <= i <= j < events.len(),
        Transfer::Requested.answers(events)[i] is Report,
        Transfer::Requested.answers(events)[j] is Report,
    ensures
        Transfer::Requested.answers(events)[i]->Report_written <= Transfer::Requested.answers(
            events,
        )[j]->Report_written,
        Transfer::Requested.answers(events)[i]->Report_total == Transfer::Requested.answers(
            events,
        )[j]->Report_total,
{
    Transfer::lemma_consistent(events);
}

/// The last report of a download that ends well counts the whole body: if
/// the events of a download from its start lead to `Complete { total }`, then
/// either `total` is zero and nothing was written, or a report was made and
/// the last one counts `total` bytes.
pub proof fn law_last_report_is_total(events: Seq<Event>, total: u64)
    requires
        Transfer::Requested.after(events) == (Transfer::Complete { total }),
    ensures
        Transfer::last_report(Transfer::Requested.answers(events)) == Some(total) || (total == 0
            && Transfer::last_report(Transfer::Requested.answers(events)) is None),
{
    Transfer::lemma_consistent(events);
}

/// Without a declared length no file is made: if the response that opens a
/// download declares no body length, the download has failed with
/// `MissingContentLength`, whatever comes after, and every answer along the
/// way is to stop with that error; none asks for the file to be created.
pub proof fn law_missing_length_creates_no_file(events: Seq<Event>, k: int)
    requires
        events.len() > 0,
        events[0] == (Event::Responded { content_length: None }),
        0 <= k < events.len(),
    ensures
        Transfer::Requested.after(events) == (Transfer::Failed {
            error: Error::MissingContentLength,
        }),
        Transfer::Requested.answers(events)[k] == (Action::Fail {
            error: Error::MissingContentLength,
        }),
        !(Transfer::Requested.answers(events)[k] is CreateFile),
{
    Transfer::lemma_consistent(events);
}

} // verus!
