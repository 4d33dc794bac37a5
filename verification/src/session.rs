//! The per-connection session state machine.
//!
//! One session runs the whole lifecycle of one client: handshake, announce,
//! guess loop, report.  The machine itself is pure — it maps the current
//! phase and one input event to the next phase and a short list of actions —
//! so the surrounding process only reads lines, carries out actions, and
//! reads the clock.  Sessions share nothing but a read-only reference to the
//! word pool, so no session can affect another's state.

use vstd::prelude::*;
use vstd::string::StringExecFns;
use crate::order::Reply;
use crate::order::compare_words;
use crate::order::seq_cmp;
use crate::pool::WordPool;
use crate::text::begin_message;
use crate::text::handshake_prompt;
use crate::text::report_line;
use crate::text::reply_text;
use crate::text::spec_begin_message;
use crate::text::spec_handshake_prompt;
use crate::text::spec_reply_text;
use crate::text::spec_report_line;
use crate::text::spec_word_line;
use crate::text::elapsed_micros;
use crate::text::trim_line;
use crate::text::trimmed_of;
use crate::text::word_line;

verus! {

/// The pacing delay, in milliseconds, that the `Pace` action demands after
/// every non-winning guess: the protocol's only backpressure mechanism.
pub const PACING_MILLIS: u64 = 100;

/// The protocol phase a session is in.
#[derive(Clone, Copy, Debug, PartialEq, Eq, Structural)]
pub enum Phase {
    /// The handshake prompt has been sent; the identity line is awaited.
    AwaitIdentity,
    /// The announce line has been sent; the next guess line is awaited.
    AwaitGuess,
    /// The session has reached its one terminal outcome.
    Done,
}

/// One input handed to the state machine: a full line read from the client,
/// or the end of the stream.
pub enum Event {
    Line(String),
    Eof,
}

/// One effect the surrounding process must carry out, in the order given.
pub enum Action {
    /// Write this line to the client, newline-terminated, then flush.
    Send(String),
    /// Emit this telemetry line on the console.
    Log(String),
    /// Wait the pacing delay of `PACING_MILLIS` milliseconds before reading
    /// the next guess.
    Pace,
}

/// Whether `a` sends exactly `text` to the client.
pub open spec fn is_send(a: Action, text: Seq<char>) -> bool {
    a matches Action::Send(m) && m@ == text
}

/// Whether `a` logs exactly `text` on the console.
pub open spec fn is_log(a: Action, text: Seq<char>) -> bool {
    a matches Action::Log(m) && m@ == text
}

/// The state of one client's session.
pub struct Session {
    remote: String,
    identity: String,
    secret: String,
    success: bool,
    start_us: u64,
    phase: Phase,
}

impl Session {
    /// The peer address the session was created with, used to label its
    /// telemetry lines.
    pub closed spec fn remote(&self) -> Seq<char> {
        self.remote@
    }

    /// The client-supplied identity string; free-form and untrusted.
    pub closed spec fn identity(&self) -> Seq<char> {
        self.identity@
    }

    /// The secret word sampled for this session at announce time.
    pub closed spec fn secret(&self) -> Seq<char> {
        self.secret@
    }

    /// Whether the secret word has been guessed.
    pub closed spec fn success(&self) -> bool {
        self.success
    }

    /// The monotonic-clock reading recorded at announce time, in
    /// microseconds.
    pub closed spec fn start_us(&self) -> u64 {
        self.start_us
    }

    /// The protocol phase the session is in.
    pub closed spec fn phase(&self) -> Phase {
        self.phase
    }

    /// A session marks success only on reaching its terminal phase.
    pub open spec fn wf(&self) -> bool {
        self.phase() !is Done ==> !self.success()
    }

    /// Creates the session for one accepted connection and returns it with
    /// its first action: sending the handshake prompt.
    pub fn new(remote: String) -> (r: (Session, Vec<Action>))
        ensures
            r.0.wf(),
            r.0.phase() is AwaitIdentity,
            !r.0.success(),
            r.0.remote() == remote@,
            r.1@.len() == 1,
            is_send(r.1@[0], spec_handshake_prompt()),
    {
        let s = Session {
            remote,
            identity: String::new(),
            secret: String::new(),
            success: false,
            start_us: 0,
            phase: Phase::AwaitIdentity,
        };
        let mut acts: Vec<Action> = Vec::new();
        acts.push(Action::Send(String::from_str(handshake_prompt())));
        (s, acts)
    }

    /// Advances the session by one input event.
    ///
    /// On the identity line: the identity is the line trimmed (end of
    /// stream counts as an empty identity), one secret word is sampled from
    /// the pool for this session alone, the assignment is logged, the
    /// announce line is sent, and the start time is recorded.
    ///
    /// On a guess line: the trimmed guess is compared with the secret word
    /// in lexicographic order and the one-character reply is sent.  An equal
    /// guess ends the session in success with no pacing; any other guess
    /// keeps the session open and demands the pacing delay.  End of stream
    /// ends the session in failure with no reply at all.
    pub fn step(&mut self, pool: &WordPool, now_us: u64, ev: Event) -> (acts: Vec<Action>)
        requires
            pool.wf(),
            old(self).wf(),
            !(old(self).phase() is Done),
        ensures
            final(self).wf(),
            final(self).remote() == old(self).remote(),
            match old(self).phase() {
                Phase::AwaitIdentity => {
                    &&& final(self).phase() is AwaitGuess
                    &&& !final(self).success()
                    &&& final(self).start_us() == now_us
                    &&& pool.contains_word(final(self).secret())
                    &&& final(self).identity() == match ev {
                        Event::Line(l) => trimmed_of(l@),
                        Event::Eof => Seq::<char>::empty(),
                    }
                    &&& acts@.len() == 2
                    &&& is_log(
                        acts@[0],
                        spec_word_line(
                            old(self).remote(),
                            final(self).identity(),
                            final(self).secret(),
                        ),
                    )
                    &&& is_send(acts@[1], spec_begin_message(final(self).identity()))
                },
                Phase::AwaitGuess => {
                    &&& final(self).identity() == old(self).identity()
                    &&& final(self).secret() == old(self).secret()
                    &&& final(self).start_us() == old(self).start_us()
                    &&& match ev {
                        Event::Eof => {
                            &&& final(self).phase() is Done
                            &&& !final(self).success()
                            &&& acts@.len() == 0
                        },
                        Event::Line(l) => {
                            let c = seq_cmp(trimmed_of(l@), old(self).secret());
                            &&& acts@.len() >= 1
                            &&& is_send(acts@[0], spec_reply_text(c))
                            &&& (c is Equal ==> final(self).phase() is Done
                                && final(self).success() && acts@.len() == 1)
                            &&& (c !is Equal ==> final(self).phase() is AwaitGuess
                                && !final(self).success() && acts@.len() == 2
                                && acts@[1] is Pace)
                        },
                    }
                },
                Phase::Done => false,
            },
    {
        match self.phase {
            Phase::AwaitIdentity => {
                let identity: String = match ev {
                    Event::Line(l) => String::from_str(trim_line(l.as_str())),
                    Event::Eof => String::new(),
                };
                self.identity = identity;
                self.secret = pool.sample().clone();
                self.start_us = now_us;
                self.phase = Phase::AwaitGuess;
                let mut acts: Vec<Action> = Vec::new();
                acts.push(
                    Action::Log(
                        word_line(
                            self.remote.as_str(),
                            self.identity.as_str(),
                            self.secret.as_str(),
                        ),
                    ),
                );
                acts.push(Action::Send(begin_message(self.identity.as_str())));
                acts
            },
            Phase::AwaitGuess => {
                match ev {
                    Event::Eof => {
                        self.phase = Phase::Done;
                        Vec::new()
                    },
                    Event::Line(l) => {
                        let guess = trim_line(l.as_str());
                        let c = compare_words(guess, self.secret.as_str());
                        let mut acts: Vec<Action> = Vec::new();
                        acts.push(Action::Send(String::from_str(reply_text(c))));
                        match c {
                            Reply::Equal => {
                                self.success = true;
                                self.phase = Phase::Done;
                            },
                            _ => {
                                acts.push(Action::Pace);
                            },
                        }
                        acts
                    },
                }
            },
            Phase::Done => {
                Vec::new()
            },
        }
    }

    /// Builds the terminal telemetry line from a clock reading taken at
    /// report time.  The elapsed time it carries is exactly the distance
    /// from the recorded start to `now_us`, so it is never negative.
    pub fn report(&self, now_us: u64) -> (r: String)
        requires
            self.phase() is Done,
            self.start_us() <= now_us,
        ensures
            r@ == spec_report_line(
                self.remote(),
                self.identity(),
                self.success(),
                (now_us - self.start_us()) as nat,
            ),
    {
        let elapsed: u64 = elapsed_micros(self.start_us, now_us);
        report_line(self.remote.as_str(), self.identity.as_str(), self.success, elapsed)
    }

    /// Whether the session has reached its terminal outcome.
    pub fn is_done(&self) -> (b: bool)
        ensures
            b == (self.phase() is Done),
    {
        match self.phase {
            Phase::Done => true,
            _ => false,
        }
    }

    /// Whether the secret word has been guessed.
    pub fn succeeded(&self) -> (b: bool)
        ensures
            b == self.success(),
    {
        self.success
    }

    /// The secret word assigned to this session; logged in cleartext as a
    /// debugging aid, so there is no secrecy to preserve.
    pub fn secret_word(&self) -> (w: &String)
        ensures
            w@ == self.secret(),
    {
        &self.secret
    }

    /// The identity the client supplied.
    pub fn identity_str(&self) -> (w: &String)
        ensures
            w@ == self.identity(),
    {
        &self.identity
    }

    /// The monotonic-clock reading recorded at announce time.
    pub fn start_micros(&self) -> (t: u64)
        ensures
            t == self.start_us(),
    {
        self.start_us
    }
}

} // verus!
