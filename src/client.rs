//! The client's side of the protocol: what to do with each message of the server.
use crate::miner::{find_solution, is_solution};
use crate::server::ChallengeResponse;
use vstd::prelude::*;

verus! {

/// What the client does with a message of the server.
#[derive(Clone, Debug, PartialEq, Eq)]
pub enum ClientStep {
    /// The message carries the token: the exchange is over.
    Finished(String),
    /// Send this solution of the message's challenge.
    Submit(u64),
    /// No 64-bit value solves the challenge.
    Unsolvable,
}

/// The step for message `resp`: take its token if it has one, else submit the
/// smallest solution of its challenge.
pub fn next_client_step(resp: &ChallengeResponse) -> (r: ClientStep)
    ensures
        resp.token@.len() > 0 ==> r == ClientStep::Finished(resp.token),
        resp.token@.len() == 0 ==> match r {
            ClientStep::Submit(s) => is_solution(s, resp.challenge, resp.difficulty) && forall|
                t: u64,
            |
                t < s ==> !is_solution(t, resp.challenge, resp.difficulty),
            ClientStep::Unsolvable => forall|t: u64|
                !is_solution(t, resp.challenge, resp.difficulty),
            ClientStep::Finished(_) => false,
        },
{
    if !resp.token.as_str().is_empty() {
        return ClientStep::Finished(resp.token.clone());
    }
    match find_solution(resp.challenge, resp.difficulty) {
        Some(s) => ClientStep::Submit(s),
        None => ClientStep::Unsolvable,
    }
}

} // verus!
