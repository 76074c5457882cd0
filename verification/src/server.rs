//! The server's per-connection session state machine.
//!
//! Each connection keeps its own session store; ids are handed out from a
//! counter starting at zero, so the store is exactly a sequence indexed by
//! session id.  A request allocates the next id and a fresh puzzle; a
//! solution is checked against the stored puzzle and answered with the
//! requested quote, an invalid-solution error, or — on an unknown id — a
//! session-not-found error after which the connection is to close.

use vstd::prelude::*;

verus! {

use crate::hash::MAX_INPUT_LEN;
use crate::message::Challenge;
use crate::message::Request;
use crate::message::Response;
use crate::message::Solution;
use crate::pow::PoW;
use crate::pow::PoWConfig;

/// Server startup parameters.
#[derive(Debug)]
pub struct Params {
    /// incoming request listening address
    pub listen: String,
    /// number of leading zero bits in target nonce
    pub zeroes: u8,
    /// length, in bytes, of challenge string
    pub length: usize,
    /// maximum number of request bytes to keep in temporary buffer
    pub memlimit: usize,
}

/// One outstanding puzzle and the quote index its request named.
pub struct Session {
    pow: PoW,
    number: Option<usize>,
}

/// The mathematical content of a session: the challenge bytes, the target,
/// and the requested index.
#[verifier::ext_equal]
pub ghost struct SessionView {
    pub challenge: Seq<u8>,
    pub target: u128,
    pub number: Option<usize>,
}

impl View for Session {
    type V = SessionView;

    closed spec fn view(&self) -> SessionView {
        SessionView {
            challenge: self.pow.challenge_spec(),
            target: self.pow.target_spec(),
            number: self.number,
        }
    }
}

/// Relies on `rand::random` for the quote index drawn when a request named
/// none; the value depends on the thread's generator, so nothing is
/// promised of it.
pub assume_specification<T>[ rand::random::<T> ]() -> (r: T)
    where
        rand::distributions::Standard: rand::distributions::Distribution<T>,
;

/// The index a solution resolves to: the requested number if one was
/// given, else the fallback, reduced modulo the quote count.
pub fn resolve_index(number: Option<usize>, fallback: usize, count: usize) -> (i: usize)
    requires
        count > 0,
    ensures
        i == (match number {
            Some(n) => n as int,
            None => fallback as int,
        }) % (count as int),
        i < count,
{
    let base = match number {
        Some(n) => n,
        None => fallback,
    };
    base % count
}

/// The per-connection session store.
pub struct ServerState {
    sessions: Vec<Session>,
}

impl ServerState {
    /// The stored sessions, in id order: the session with id `i` is the
    /// `i`-th entry.
    pub closed spec fn sessions_spec(&self) -> Seq<SessionView> {
        Seq::new(self.sessions@.len(), |i: int| self.sessions@[i]@)
    }

    /// How many sessions this connection has opened; also the id the next
    /// request will receive.
    pub open spec fn session_count(&self) -> nat {
        self.sessions_spec().len()
    }

    /// Every stored challenge leaves room for a nonce under the digest
    /// input bound.
    pub open spec fn wf(&self) -> bool {
        forall|i: int|
            0 <= i < self.sessions_spec().len() ==> (#[trigger] self.sessions_spec()[i]).challenge.len()
                + 16 <= MAX_INPUT_LEN
    }

    /// A fresh connection: no sessions, so the first id handed out is 0.
    pub fn new() -> (s: ServerState)
        ensures
            s.wf(),
            s.session_count() == 0,
    {
        ServerState { sessions: Vec::new() }
    }

    /// Handles a request: allocates the next session id in order, draws a
    /// fresh puzzle, stores it with the requested index, and returns the
    /// challenge to send.  Ids are consecutive: the `k`-th request on a
    /// connection is answered with session id `k`.
    pub fn handle_request(&mut self, req: &Request, conf: &PoWConfig) -> (c: Challenge)
        requires
            old(self).wf(),
            conf.length + 16 <= MAX_INPUT_LEN,
            old(self).session_count() < u32::MAX,
        ensures
            final(self).wf(),
            c.session == old(self).session_count(),
            final(self).session_count() == old(self).session_count() + 1,
            c.string@.len() == conf.length,
            c.target == PoW::spec_target(conf.zeroes),
            final(self).sessions_spec() =~= old(self).sessions_spec().push(
                SessionView { challenge: c.string@, target: c.target, number: req.number },
            ),
    {
        let pow = PoW::new(conf);
        let string = pow.challenge();
        let target = pow.target();
        let session = self.sessions.len() as u32;
        let ghost sv = SessionView { challenge: string@, target: target, number: req.number };
        self.sessions.push(Session { pow, number: req.number });
        proof {
            assert(self.sessions_spec() =~= old(self).sessions_spec().push(sv));
            assert forall|i: int|
                0 <= i < self.sessions_spec().len() implies (
            #[trigger] self.sessions_spec()[i]).challenge.len() + 16 <= MAX_INPUT_LEN by {
                if i < old(self).sessions_spec().len() {
                    assert(old(self).sessions_spec()[i].challenge.len() + 16 <= MAX_INPUT_LEN);
                }
            }
        }
        Challenge { session, string, target }
    }

    /// Handles a claimed solution.  An unknown session id is answered with
    /// a session-not-found error and the connection is to close; a failed
    /// digest check is answered with an invalid-solution error and the
    /// connection stays open; a valid solution is answered with the quote
    /// at the requested index — or at a drawn index if none was requested —
    /// modulo the quote count, and the connection stays open.  The store
    /// itself never changes.
    pub fn handle_solution(&self, sol: &Solution, quotes: &Vec<String>) -> (r: (Response, bool))
        requires
            self.wf(),
            quotes@.len() > 0,
        ensures
            r.0.session == sol.session,
            sol.session >= self.session_count() ==> !r.1 && (r.0@.result matches Err(m) && m
                == "session not found"@),
            sol.session < self.session_count() ==> {
                let s = self.sessions_spec()[sol.session as int];
                &&& r.1
                &&& PoW::spec_verified(s.challenge, s.target, sol.nonce) ==> (match s.number {
                    Some(n) => r.0@.result matches Ok(q) && q == quotes@[n as int % (
                    quotes@.len() as int)]@,
                    None => exists|i: int|
                        0 <= i < quotes@.len() && (r.0@.result matches Ok(q) && q == (
                        #[trigger] quotes@[i])@),
                })
                &&& !PoW::spec_verified(s.challenge, s.target, sol.nonce) ==> (
                r.0@.result matches Err(m) && m == "provided solution is invalid"@)
            },
    {
        let sid = sol.session as usize;
        if sid >= self.sessions.len() {
            let text: String = "session not found".to_owned();
            return (Response { session: sol.session, result: Err(text) }, false);
        }
        let sess = &self.sessions[sid];
        if sess.pow.verify(sol.nonce) {
            let fallback: usize = rand::random::<usize>();
            let idx = resolve_index(sess.number, fallback, quotes.len());
            let quote = quotes[idx].clone();
            (Response { session: sol.session, result: Ok(quote) }, true)
        } else {
            let text: String = "provided solution is invalid".to_owned();
            (Response { session: sol.session, result: Err(text) }, true)
        }
    }
}

} // verus!
