//! The cursor of an executed statement
//!
//! An [`Answer`] owns the handle of an executed statement and tracks where its
//! cursor stands. The engine itself is advanced by the caller: whenever
//! [`Answer::must_step`] says so, the caller steps the statement and reports the
//! engine's result code through [`Answer::record_step`] before asking for a row.

use crate::error::{Error, ErrorKind};
use crate::ffiext::{last_error_text, sqlite3_last_error, SQLITE_DONE, SQLITE_ROW};
use vstd::prelude::*;

verus! {

/// Where the cursor of a statement stands
#[derive(Debug, Clone, Copy, PartialEq, Eq, Structural)]
pub enum Phase {
    /// A row was fetched and not yet handed out
    Pending,
    /// The last fetched row was handed out; the next request advances the cursor
    Consumed,
    /// The cursor went past the last row
    Done,
    /// Advancing the cursor failed
    Failed,
}

/// The phase that a step's result code leads to
pub open spec fn phase_after_step(code: i32) -> Phase {
    if code == SQLITE_ROW {
        Phase::Pending
    } else if code == SQLITE_DONE {
        Phase::Done
    } else {
        Phase::Failed
    }
}

/// The phase that handing out a row with `next_row` leaves: a pending row is
/// consumed, and every other phase stays as it is
pub open spec fn phase_after_next_row(phase: Phase) -> Phase {
    if phase == Phase::Pending {
        Phase::Consumed
    } else {
        phase
    }
}

/// The phase after one `next_row` call for each of `codes`, where before each
/// call the engine is stepped if the cursor asks for it, and that step answers
/// with the call's code
pub open spec fn phase_after_calls(phase: Phase, codes: Seq<i32>) -> Phase
    decreases codes.len(),
{
    if codes.len() == 0 {
        phase
    } else {
        let stepped = if phase == Phase::Consumed {
            phase_after_step(codes[0])
        } else {
            phase
        };
        phase_after_calls(phase_after_next_row(stepped), codes.drop_first())
    }
}

/// Once `next_row` has reported the end of the rows, the cursor stays there,
/// whatever the engine would answer: no further call asks for a step (so no
/// stale or restarted rows are read), `next_row` keeps reporting the end, and
/// `row` fails with the no-row error
pub proof fn end_of_rows_is_final(phase: Phase, codes: Seq<i32>)
    requires
        phase != Phase::Consumed,
        phase != Phase::Pending,
    ensures
        phase_after_calls(phase, codes) == phase,
        phase_after_calls(phase, codes) != Phase::Consumed,
        phase_after_calls(phase, codes) != Phase::Pending,
        phase == Phase::Done || phase == Phase::Failed,
    decreases codes.len(),
{
    if codes.len() > 0 {
        end_of_rows_is_final(phase, codes.drop_first());
    }
}

/// A query result: the statement's handle and the position of its cursor
#[derive(Debug)]
pub struct Answer<H> {
    /// The statement
    raw: H,
    /// Where the cursor stands
    phase: Phase,
}

impl<H> Answer<H> {
    /// The statement's handle
    pub closed spec fn handle(&self) -> H {
        self.raw
    }

    /// Where the cursor stands
    pub closed spec fn phase(&self) -> Phase {
        self.phase
    }

    /// Whether a row is pending
    pub open spec fn has_row(&self) -> bool {
        self.phase() == Phase::Pending
    }

    /// Creates the result of a statement whose first step gave `code`
    ///
    /// `errstr` and `errmsg` are the engine's texts for the code and for the
    /// connection's last error.
    pub fn start(raw: H, code: i32, errstr: Option<&str>, errmsg: Option<&str>) -> (r: Result<Answer<H>, Error>)
        ensures
            match r {
                Ok(answer) => {
                    &&& code == SQLITE_ROW || code == SQLITE_DONE
                    &&& answer.handle() == raw
                    &&& answer.phase() == phase_after_step(code)
                },
                Err(e) => {
                    &&& code != SQLITE_ROW && code != SQLITE_DONE
                    &&& e.kind == ErrorKind::Engine(code)
                    &&& e.error@ == last_error_text(errstr, errmsg)
                },
            },
    {
        if code == SQLITE_ROW {
            Ok(Answer { raw, phase: Phase::Pending })
        } else if code == SQLITE_DONE {
            Ok(Answer { raw, phase: Phase::Done })
        } else {
            Err(sqlite3_last_error(code, errstr, errmsg))
        }
    }

    /// The statement's handle
    pub fn raw(&self) -> (r: &H)
        ensures
            *r == self.handle(),
    {
        &self.raw
    }

    /// Whether the cursor has to be advanced before a row can be asked for
    pub fn must_step(&self) -> (r: bool)
        ensures
            r == (self.phase() == Phase::Consumed),
    {
        self.phase == Phase::Consumed
    }

    /// Records the result code of advancing the cursor
    pub fn record_step(&mut self, code: i32, errstr: Option<&str>, errmsg: Option<&str>) -> (r: Result<(), Error>)
        requires
            old(self).phase() == Phase::Consumed,
        ensures
            final(self).handle() == old(self).handle(),
            final(self).phase() == phase_after_step(code),
            match r {
                Ok(()) => code == SQLITE_ROW || code == SQLITE_DONE,
                Err(e) => {
                    &&& code != SQLITE_ROW && code != SQLITE_DONE
                    &&& e.kind == ErrorKind::Engine(code)
                    &&& e.error@ == last_error_text(errstr, errmsg)
                },
            },
    {
        if code == SQLITE_ROW {
            self.phase = Phase::Pending;
            Ok(())
        } else if code == SQLITE_DONE {
            self.phase = Phase::Done;
            Ok(())
        } else {
            self.phase = Phase::Failed;
            Err(sqlite3_last_error(code, errstr, errmsg))
        }
    }

    /// Takes the pending row, with sole custody of the statement, or fails if
    /// there is none
    pub fn row(self) -> (r: Result<H, Error>)
        requires
            self.phase() != Phase::Consumed,
        ensures
            match r {
                Ok(raw) => self.has_row() && raw == self.handle(),
                Err(e) => !self.has_row() && e.kind == ErrorKind::NoRow,
            },
    {
        if self.phase == Phase::Pending {
            Ok(self.raw)
        } else {
            Err(Error::new(ErrorKind::NoRow, String::from_str("No result row available"), None))
        }
    }

    /// Hands out the pending row like a fallible iterator, borrowing the
    /// statement, or `None` once the rows are exhausted
    pub fn next_row(&mut self) -> (r: Option<&mut H>)
        requires
            old(self).phase() != Phase::Consumed,
        ensures
            match r {
                Some(raw) => {
                    &&& old(self).has_row()
                    &&& *raw == old(self).handle()
                    &&& final(self).handle() == *final(raw)
                    &&& final(self).phase() == Phase::Consumed
                },
                None => !old(self).has_row() && *final(self) == *old(self),
            },
            final(self).phase() == phase_after_next_row(old(self).phase()),
    {
        if self.phase == Phase::Pending {
            self.phase = Phase::Consumed;
            Some(&mut self.raw)
        } else {
            None
        }
    }
}

} // verus!
