//! The admission server: one shared load window and a state machine per connection.
use crate::load::{recorded, window_total, LoadWindow, SLOTS};
use crate::miner::{check_solution, is_solution};
use crate::target::{target_of, Config};
use vstd::prelude::*;

verus! {

/// Client to server: a candidate solution of the current challenge.
#[derive(Clone, Copy, Debug, PartialEq, Eq, Structural)]
pub struct ChallengeRequest {
    pub solution: u64,
}

/// Server to client: the next challenge, the rounds still to solve, the difficulty,
/// and on the last message the access token (empty before that).
#[derive(Clone, Debug, PartialEq, Eq)]
pub struct ChallengeResponse {
    pub challenge: u64,
    pub left: u64,
    pub difficulty: u64,
    pub token: String,
}

/// Why a request was turned down. Both surface to the caller as an invalid argument.
#[derive(Clone, Copy, Debug, PartialEq, Eq, Structural)]
pub enum Rejection {
    InvalidSolution,
    InvalidToken,
}

impl Rejection {
    /// The text that goes with the rejection.
    pub fn message(&self) -> (r: &'static str)
        ensures
            *self == Rejection::InvalidSolution ==> r@ == "Invalid solution"@,
            *self == Rejection::InvalidToken ==> r@ == "Invalid token"@,
    {
        match self {
            Rejection::InvalidSolution => "Invalid solution",
            Rejection::InvalidToken => "Invalid token",
        }
    }
}

/// Where a connection stands.
#[derive(Clone, Copy, Debug, PartialEq, Eq, Structural)]
pub enum Phase {
    /// Waiting for a solution of the current challenge.
    Open,
    /// The token was granted; the stream is closed.
    Done,
    /// A wrong solution came in; the stream is closed.
    Failed,
}

/// The state of one connection, as the contracts see it.
pub struct SessionState {
    pub challenge: u64,
    pub done: u64,
    pub target: u64,
    pub phase: Phase,
}

/// The state of one connection: its current challenge, the rounds solved and the
/// rounds required.
pub struct Session {
    challenge: u64,
    done: u64,
    target: u64,
    phase: Phase,
}

impl View for Session {
    type V = SessionState;

    closed spec fn view(&self) -> SessionState {
        SessionState {
            challenge: self.challenge,
            done: self.done,
            target: self.target,
            phase: self.phase,
        }
    }
}

impl Session {
    /// An open connection still owes at least one round.
    pub open spec fn wf(&self) -> bool {
        self@.phase == Phase::Open ==> self@.done < self@.target
    }

    pub fn challenge(&self) -> (r: u64)
        ensures
            r == self@.challenge,
    {
        self.challenge
    }

    pub fn done(&self) -> (r: u64)
        ensures
            r == self@.done,
    {
        self.done
    }

    pub fn target(&self) -> (r: u64)
        ensures
            r == self@.target,
    {
        self.target
    }

    pub fn phase(&self) -> (r: Phase)
        ensures
            r == self@.phase,
    {
        self.phase
    }

    /// Whether the connection still waits for a solution.
    pub fn is_open(&self) -> (r: bool)
        ensures
            r == (self@.phase == Phase::Open),
    {
        self.phase == Phase::Open
    }
}

/// What the server does after a solution came in.
pub enum Reply {
    /// Send this challenge and wait for the next solution.
    Next(ChallengeResponse),
    /// Enough rounds are solved: mint a token, send it with this challenge, and close.
    Grant(u64),
    /// Send the rejection and close.
    Reject(Rejection),
}

impl Reply {
    /// The reply sends challenge `challenge` with `left` rounds to go at
    /// `difficulty`, without a token.
    pub open spec fn is_next(&self, challenge: u64, left: u64, difficulty: u64) -> bool {
        match self {
            Reply::Next(m) => m.challenge == challenge && m.left == left && m.difficulty
                == difficulty && m.token@.len() == 0,
            _ => false,
        }
    }
}

/// Relies on `rand::thread_rng` and `Rng::gen`: some `u64`, of which nothing is known.
#[verifier::external_body]
fn random_challenge() -> (r: u64) {
    rand::Rng::gen(&mut rand::thread_rng())
}

/// The admission server: its configuration and the load window that every
/// connection shares.
pub struct ApiServer {
    config: Config,
    window: LoadWindow,
}

impl ApiServer {
    pub closed spec fn spec_config(&self) -> Config {
        self.config
    }

    pub closed spec fn spec_window(&self) -> LoadWindow {
        self.window
    }

    pub open spec fn wf(&self) -> bool {
        self.spec_config().wf() && self.spec_window().wf()
    }

    /// The difficulty that every challenge of this server carries.
    pub open spec fn spec_difficulty(&self) -> u64 {
        self.spec_config().difficulty_spec()
    }

    /// The rounds required of a connection that starts now.
    pub open spec fn spec_current_target(&self) -> u64 {
        target_of(window_total(self.spec_window()@), self.spec_config().base_spec())
    }

    /// A server with no traffic recorded.
    pub fn new(config: Config) -> (r: ApiServer)
        requires
            config.wf(),
        ensures
            r.wf(),
            r.spec_config() == config,
            r.spec_window()@ == Seq::new(SLOTS as nat, |i: int| 0u64),
    {
        ApiServer { config, window: LoadWindow::new() }
    }

    /// A server that starts from the given load window.
    pub fn with_window(config: Config, window: LoadWindow) -> (r: ApiServer)
        requires
            config.wf(),
            window.wf(),
        ensures
            r.wf(),
            r.spec_config() == config,
            r.spec_window() == window,
    {
        ApiServer { config, window }
    }

    pub fn config(&self) -> (r: &Config)
        ensures
            *r == self.spec_config(),
    {
        &self.config
    }

    pub fn window(&self) -> (r: &LoadWindow)
        ensures
            *r == self.spec_window(),
    {
        &self.window
    }

    /// Opens a connection with first challenge `challenge`: the rounds required
    /// come from the traffic counted so far, none are done yet.
    pub fn open_session_with(&self, challenge: u64) -> (r: (Session, ChallengeResponse))
        requires
            self.wf(),
        ensures
            r.0.wf(),
            r.0@ == (SessionState {
                challenge,
                done: 0,
                target: self.spec_current_target(),
                phase: Phase::Open,
            }),
            r.1.challenge == challenge,
            r.1.left == self.spec_current_target(),
            r.1.difficulty == self.spec_difficulty(),
            r.1.token@.len() == 0,
    {
        let total = self.window.total();
        let target = self.config.target(total);
        let session = Session { challenge, done: 0, target, phase: Phase::Open };
        let first = ChallengeResponse {
            challenge,
            left: target,
            difficulty: self.config.difficulty(),
            token: String::new(),
        };
        (session, first)
    }

    /// Opens a connection with a random first challenge.
    pub fn open_session(&self) -> (r: (Session, ChallengeResponse))
        requires
            self.wf(),
        ensures
            r.0.wf(),
            r.0@.challenge == r.1.challenge,
            r.0@.done == 0,
            r.0@.target == self.spec_current_target(),
            r.0@.phase == Phase::Open,
            r.1.left == self.spec_current_target(),
            r.1.difficulty == self.spec_difficulty(),
            r.1.token@.len() == 0,
    {
        self.open_session_with(random_challenge())
    }

    /// Handles `solution` on an open connection, with `fresh` as the next challenge
    /// and `now` as the current second. A wrong solution fails the connection and
    /// leaves the load window alone. A right one counts one more round, records
    /// one request in second `now`, and recomputes the rounds required from the
    /// new total: the token is granted once the rounds done reach them.
    pub fn on_solution_with(
        &mut self,
        session: &mut Session,
        solution: u64,
        fresh: u64,
        now: u64,
    ) -> (r: Reply)
        requires
            old(self).wf(),
            old(session).wf(),
            old(session)@.phase == Phase::Open,
        ensures
            final(self).wf(),
            final(session).wf(),
            final(self).spec_config() == old(self).spec_config(),
            !is_solution(solution, old(session)@.challenge, old(self).spec_difficulty()) ==> {
                &&& r == Reply::Reject(Rejection::InvalidSolution)
                &&& final(self).spec_window()@ == old(self).spec_window()@
                &&& final(session)@ == (SessionState { phase: Phase::Failed, ..old(session)@ })
            },
            is_solution(solution, old(session)@.challenge, old(self).spec_difficulty()) ==> {
                let w = recorded(old(self).spec_window()@, now);
                let t = target_of(window_total(w), old(self).spec_config().base_spec());
                let d = old(session)@.done + 1;
                &&& final(self).spec_window()@ == w
                &&& final(session)@.challenge == fresh
                &&& final(session)@.done == d
                &&& final(session)@.target == t
                &&& d >= t ==> final(session)@.phase == Phase::Done && r == Reply::Grant(fresh)
                &&& d < t ==> final(session)@.phase == Phase::Open && r.is_next(
                    fresh,
                    (t - d) as u64,
                    old(self).spec_difficulty(),
                )
            },
    {
        let difficulty = self.config.difficulty();
        if !check_solution(solution, difficulty, session.challenge) {
            session.phase = Phase::Failed;
            return Reply::Reject(Rejection::InvalidSolution);
        }
        session.done = session.done + 1;
        session.challenge = fresh;
        let total = self.window.record_and_total(now);
        session.target = self.config.target(total);
        if session.done >= session.target {
            session.phase = Phase::Done;
            Reply::Grant(fresh)
        } else {
            Reply::Next(
                ChallengeResponse {
                    challenge: fresh,
                    left: session.target - session.done,
                    difficulty,
                    token: String::new(),
                },
            )
        }
    }

    /// Handles `solution` as `on_solution_with` does, with a random next challenge.
    pub fn on_solution(&mut self, session: &mut Session, solution: u64, now: u64) -> (r: Reply)
        requires
            old(self).wf(),
            old(session).wf(),
            old(session)@.phase == Phase::Open,
        ensures
            final(self).wf(),
            final(session).wf(),
            final(self).spec_config() == old(self).spec_config(),
            !is_solution(solution, old(session)@.challenge, old(self).spec_difficulty()) ==> {
                &&& r == Reply::Reject(Rejection::InvalidSolution)
                &&& final(self).spec_window()@ == old(self).spec_window()@
                &&& final(session)@ == (SessionState { phase: Phase::Failed, ..old(session)@ })
            },
            is_solution(solution, old(session)@.challenge, old(self).spec_difficulty()) ==> {
                let w = recorded(old(self).spec_window()@, now);
                let t = target_of(window_total(w), old(self).spec_config().base_spec());
                let d = old(session)@.done + 1;
                &&& final(self).spec_window()@ == w
                &&& final(session)@.done == d
                &&& final(session)@.target == t
                &&& d >= t ==> final(session)@.phase == Phase::Done && r == Reply::Grant(
                    final(session)@.challenge,
                )
                &&& d < t ==> final(session)@.phase == Phase::Open && r.is_next(
                    final(session)@.challenge,
                    (t - d) as u64,
                    old(self).spec_difficulty(),
                )
            },
    {
        let fresh = random_challenge();
        self.on_solution_with(session, solution, fresh, now)
    }

    /// The last message of a connection whose rounds are done: the challenge of
    /// the grant, nothing left to solve, and the token.
    pub fn grant_response(&self, challenge: u64, token: String) -> (r: ChallengeResponse)
        ensures
            r.challenge == challenge,
            r.left == 0,
            r.difficulty == self.spec_difficulty(),
            r.token == token,
    {
        ChallengeResponse { challenge, left: 0, difficulty: self.config.difficulty(), token }
    }

    /// Whether a quote may be fetched for a token: only when the token validated.
    pub fn authorize_quote(&self, token_valid: bool) -> (r: Result<(), Rejection>)
        ensures
            token_valid <==> r is Ok,
            !token_valid ==> r == Err::<(), Rejection>(Rejection::InvalidToken),
    {
        if token_valid {
            Ok(())
        } else {
            Err(Rejection::InvalidToken)
        }
    }
}

} // verus!
