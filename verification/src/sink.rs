//! The output sink: a color-capable terminal when one can be acquired, the
//! plain error stream otherwise.
//!
//! A sink is acquired afresh for each record and dropped afterwards; it is
//! never cached or shared. Each sink carries a ghost history of the
//! operations its stream has performed, which the formatting layer's
//! contracts are stated over: on the plain fallback stream styling is a
//! successful no-op that performs nothing.
use vstd::prelude::*;

use crate::render::effective;
use crate::render::effective_one;
use crate::render::lemma_effective_step;
use crate::render::ops_view;
use crate::render::Op;
use crate::render::OpModel;

verus! {

#[verifier::external_type_specification]
#[verifier::external_body]
/// The process's standard error stream, held only so a sink can write to it.
pub struct ExStderr(std::io::Stderr);

#[verifier::external_type_specification]
#[verifier::external_body]
/// An error a stream write reports; carried through unread.
pub struct ExIoError(std::io::Error);

#[verifier::external_type_specification]
#[verifier::external_body]
/// An error a terminal styling call reports; carried through unread.
pub struct ExTermError(term::Error);

#[verifier::external_type_specification]
#[verifier::external_body]
#[verifier::reject_recursive_types(T)]
/// A terminal handle of the `term` crate, wrapping an output stream.
pub struct ExTerminfoTerminal<T>(term::terminfo::TerminfoTerminal<T>);

/// Why writing or styling one record failed. Such a failure is terminal for
/// that record alone; it is never propagated past the logger.
pub enum SinkError {
    /// The terminal refused a styling operation.
    Term(term::Error),
    /// The underlying stream refused a write.
    Io(std::io::Error),
}

/// Relies on `std::io::stderr`: a handle to the process's error stream.
#[verifier::external_body]
fn stderr_handle() -> std::io::Stderr {
    std::io::stderr()
}

/// Relies on `term::TerminfoTerminal::new` (what `term::stderr` calls on this
/// platform): `Some` when the environment describes a terminal, `None` when
/// it does not — the designed trigger for the fallback stream. A terminal
/// without color support reports failure at each styling call instead.
#[verifier::external_body]
fn term_acquire(out: std::io::Stderr) -> Option<
    term::terminfo::TerminfoTerminal<std::io::Stderr>,
> {
    term::terminfo::TerminfoTerminal::new(out)
}

/// Relies on `term::Terminal::fg`: sets the foreground color for following
/// output, or reports why it could not.
#[verifier::external_body]
fn term_fg(t: &mut term::terminfo::TerminfoTerminal<std::io::Stderr>, color: u32) -> Result<
    (),
    term::Error,
> {
    term::Terminal::fg(t, color)
}

/// Relies on `term::Terminal::reset`: returns the terminal to its unstyled
/// state, or reports why it could not.
#[verifier::external_body]
fn term_reset(t: &mut term::terminfo::TerminfoTerminal<std::io::Stderr>) -> Result<
    (),
    term::Error,
> {
    term::Terminal::reset(t)
}

/// Relies on `std::io::Write::write_all` on the terminal handle: writes all
/// the bytes of the text, or reports the first failure (the stream may then
/// have received a part).
#[verifier::external_body]
fn term_write(t: &mut term::terminfo::TerminfoTerminal<std::io::Stderr>, s: &str) -> Result<
    (),
    std::io::Error,
> {
    std::io::Write::write_all(t, s.as_bytes())
}

/// Relies on `std::io::Write::write_all` on the error stream: writes all the
/// bytes of the text, or reports the first failure (the stream may then have
/// received a part).
#[verifier::external_body]
fn stderr_write(e: &mut std::io::Stderr, s: &str) -> Result<(), std::io::Error> {
    std::io::Write::write_all(e, s.as_bytes())
}

/// Relies on the `Display` form of `term::Error`: a short description of the
/// failure, used only on the diagnostic path.
#[verifier::external_body]
fn term_error_message(e: &term::Error) -> String {
    format!("{}", e)
}

/// Relies on the `Display` form of `std::io::Error`: a short description of
/// the failure, used only on the diagnostic path.
#[verifier::external_body]
fn io_error_message(e: &std::io::Error) -> String {
    format!("{}", e)
}

impl SinkError {
    /// A short description of the failure, for the diagnostic side channel.
    pub fn describe(&self) -> String {
        match self {
            SinkError::Term(e) => term_error_message(e),
            SinkError::Io(e) => io_error_message(e),
        }
    }
}

enum SinkKind {
    Terminal(term::terminfo::TerminfoTerminal<std::io::Stderr>),
    Fallback(std::io::Stderr),
}

/// Where one record's formatted output goes: a color-capable terminal on the
/// error stream, or that stream plainly when no terminal can be had.
pub struct Sink {
    kind: SinkKind,
    history: Ghost<Seq<OpModel>>,
}

impl Sink {
    /// Whether this sink drives a color-capable terminal.
    pub closed spec fn is_terminal(&self) -> bool {
        self.kind is Terminal
    }

    /// The operations this sink's stream has performed, in order.
    pub closed spec fn hist(&self) -> Seq<OpModel> {
        self.history@
    }

    /// Acquires a sink for the error stream: the terminal variant when a
    /// color-capable terminal can be opened, the plain stream otherwise.
    /// Degradation is the designed path, not a failure: this never fails.
    pub fn acquire() -> (s: Sink)
        ensures
            s.hist() == Seq::<OpModel>::empty(),
    {
        match term_acquire(stderr_handle()) {
            Some(t) => Sink { kind: SinkKind::Terminal(t), history: Ghost(Seq::empty()) },
            None => Sink { kind: SinkKind::Fallback(stderr_handle()), history: Ghost(Seq::empty()) },
        }
    }

    /// A sink on the plain error stream, whatever the terminal capability:
    /// the diagnostic side channel writes here.
    pub fn fallback() -> (s: Sink)
        ensures
            s.hist() == Seq::<OpModel>::empty(),
            !s.is_terminal(),
    {
        Sink { kind: SinkKind::Fallback(stderr_handle()), history: Ghost(Seq::empty()) }
    }

    /// Sets the foreground color for following output. On the fallback stream
    /// this is a successful no-op that performs nothing.
    pub fn set_fg(&mut self, color: u32) -> (r: Result<(), SinkError>)
        ensures
            final(self).is_terminal() == old(self).is_terminal(),
            !old(self).is_terminal() ==> r is Ok,
            r is Ok ==> final(self).hist() == old(self).hist() + effective_one(
                OpModel::Fg(color),
                old(self).is_terminal(),
            ),
            r is Err ==> final(self).hist() == old(self).hist(),
    {
        let result: Result<(), SinkError> = match &mut self.kind {
            SinkKind::Terminal(t) => match term_fg(t, color) {
                Ok(_) => Ok(()),
                Err(e) => Err(SinkError::Term(e)),
            },
            SinkKind::Fallback(_) => Ok(()),
        };
        if result.is_ok() {
            self.history = Ghost(
                self.history@ + effective_one(OpModel::Fg(color), self.is_terminal()),
            );
        }
        result
    }

    /// Returns following output to the unstyled state. On the fallback stream
    /// this is a successful no-op that performs nothing.
    pub fn reset_style(&mut self) -> (r: Result<(), SinkError>)
        ensures
            final(self).is_terminal() == old(self).is_terminal(),
            !old(self).is_terminal() ==> r is Ok,
            r is Ok ==> final(self).hist() == old(self).hist() + effective_one(
                OpModel::Reset,
                old(self).is_terminal(),
            ),
            r is Err ==> final(self).hist() == old(self).hist(),
    {
        let result: Result<(), SinkError> = match &mut self.kind {
            SinkKind::Terminal(t) => match term_reset(t) {
                Ok(_) => Ok(()),
                Err(e) => Err(SinkError::Term(e)),
            },
            SinkKind::Fallback(_) => Ok(()),
        };
        if result.is_ok() {
            self.history = Ghost(self.history@ + effective_one(OpModel::Reset, self.is_terminal()));
        }
        result
    }

    /// Writes the text to whichever stream is active.
    pub fn write_str(&mut self, s: &str) -> (r: Result<(), SinkError>)
        ensures
            final(self).is_terminal() == old(self).is_terminal(),
            r is Ok ==> final(self).hist() == old(self).hist() + seq![OpModel::Text(s@)],
            r is Err ==> final(self).hist() == old(self).hist(),
    {
        let result: Result<(), SinkError> = match &mut self.kind {
            SinkKind::Terminal(t) => match term_write(t, s) {
                Ok(_) => Ok(()),
                Err(e) => Err(SinkError::Io(e)),
            },
            SinkKind::Fallback(h) => match stderr_write(h, s) {
                Ok(_) => Ok(()),
                Err(e) => Err(SinkError::Io(e)),
            },
        };
        if result.is_ok() {
            self.history = Ghost(self.history@ + seq![OpModel::Text(s@)]);
        }
        result
    }

    /// Performs one rendering operation on this sink.
    pub fn emit_op(&mut self, op: &Op) -> (r: Result<(), SinkError>)
        ensures
            final(self).is_terminal() == old(self).is_terminal(),
            r is Ok ==> final(self).hist() == old(self).hist() + effective_one(
                op@,
                old(self).is_terminal(),
            ),
            r is Err ==> final(self).hist() == old(self).hist(),
    {
        match op {
            Op::Fg(c) => self.set_fg(*c),
            Op::Reset => self.reset_style(),
            Op::Text(s) => self.write_str(s.as_str()),
        }
    }

    /// Performs a rendering on this sink, operation by operation, stopping at
    /// the first failure: what was already performed stays written.
    pub fn emit(&mut self, ops: &Vec<Op>) -> (r: Result<(), SinkError>)
        ensures
            final(self).is_terminal() == old(self).is_terminal(),
            r is Ok ==> final(self).hist() == old(self).hist() + effective(
                ops_view(ops@),
                old(self).is_terminal(),
            ),
            r is Err ==> exists|n: int|
                0 <= n <= ops@.len() && final(self).hist() == old(self).hist() + effective(
                    #[trigger] ops_view(ops@).take(n),
                    old(self).is_terminal(),
                ),
    {
        let mut i: usize = 0;
        while i < ops.len()
            invariant
                0 <= i <= ops@.len(),
                self.is_terminal() == old(self).is_terminal(),
                self.hist() == old(self).hist() + effective(
                    ops_view(ops@).take(i as int),
                    old(self).is_terminal(),
                ),
            decreases ops@.len() - i,
        {
            let step = self.emit_op(&ops[i]);
            match step {
                Ok(_) => {
                    proof {
                        lemma_effective_step(ops_view(ops@), i as int, old(self).is_terminal());
                        assert((old(self).hist() + effective(
                            ops_view(ops@).take(i as int),
                            old(self).is_terminal(),
                        )) + effective_one(ops_view(ops@)[i as int], old(self).is_terminal())
                            =~= old(self).hist() + effective(
                            ops_view(ops@).take(i as int + 1),
                            old(self).is_terminal(),
                        ));
                    }
                    i += 1;
                },
                Err(e) => {
                    proof {
                        assert(self.hist() == old(self).hist() + effective(
                            ops_view(ops@).take(i as int),
                            old(self).is_terminal(),
                        ));
                    }
                    return Err(e);
                },
            }
        }
        proof {
            assert(ops_view(ops@).take(ops@.len() as int) =~= ops_view(ops@));
        }
        Ok(())
    }
}

} // verus!
