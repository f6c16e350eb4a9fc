//! Matchmaking: deciding when to start the peer-to-peer session.
//!
//! The lobby is fed plain events — how many participants the signaling
//! layer currently reports — and makes the one decision matchmaking has to
//! make.  Opening the signaling connection, polling it, and constructing
//! the transport live outside the library; a failure to build the session
//! out there is fatal to the attempt and is surfaced by the caller, never
//! retried silently here.

use vstd::prelude::*;

verus! {

/// Number of participants a session needs: the local player and one remote.
pub const NUM_PLAYERS: usize = 2;

/// Fixed input delay, in ticks, a new session is configured with.
pub const INPUT_DELAY: usize = 2;

#[derive(Clone, Copy, PartialEq, Eq, Debug)]
pub enum SessionPhase {
    Matchmaking,
    InGame,
}

/// The parameters a ready-to-start session is constructed with.
#[derive(Clone, Copy, PartialEq, Eq, Debug)]
pub struct SessionPlan {
    pub num_players: usize,
    pub input_delay: usize,
}

pub struct Lobby {
    pub phase: SessionPhase,
}

/// The phase after one poll that sees `peer_count` participants.
pub open spec fn spec_poll_phase(phase: SessionPhase, peer_count: usize) -> SessionPhase {
    if phase is Matchmaking && peer_count >= NUM_PLAYERS {
        SessionPhase::InGame
    } else {
        phase
    }
}

impl Lobby {
    pub fn new() -> (l: Lobby)
        ensures
            l.phase is Matchmaking,
    {
        Lobby { phase: SessionPhase::Matchmaking }
    }

    /// One matchmaking poll.  Returns the session plan exactly on the
    /// single transition into the game: when matchmaking sees two
    /// participants for the first time.  Once in game, further polls
    /// change nothing and return nothing.
    pub fn poll(&mut self, peer_count: usize) -> (r: Option<SessionPlan>)
        ensures
            final(self).phase == spec_poll_phase(old(self).phase, peer_count),
            r is Some <==> (old(self).phase is Matchmaking && peer_count >= NUM_PLAYERS),
            r is Some ==> r == Some(
                SessionPlan { num_players: NUM_PLAYERS, input_delay: INPUT_DELAY },
            ),
    {
        match self.phase {
            SessionPhase::Matchmaking => {
                if peer_count >= NUM_PLAYERS {
                    self.phase = SessionPhase::InGame;
                    Some(SessionPlan { num_players: NUM_PLAYERS, input_delay: INPUT_DELAY })
                } else {
                    None
                }
            },
            SessionPhase::InGame => None,
        }
    }
}

/// The phase after a whole sequence of polls, oldest first.
pub open spec fn spec_poll_all(phase: SessionPhase, counts: Seq<usize>) -> SessionPhase
    decreases counts.len(),
{
    if counts.len() == 0 {
        phase
    } else {
        spec_poll_phase(spec_poll_all(phase, counts.drop_last()), counts.last())
    }
}

/// Law (lone participant): however long matchmaking polls, while fewer
/// than two participants are present it never transitions into the game.
pub proof fn lemma_lone_peer_never_starts(counts: Seq<usize>)
    requires
        forall|i: int| 0 <= i < counts.len() ==> counts[i] < NUM_PLAYERS,
    ensures
        spec_poll_all(SessionPhase::Matchmaking, counts) is Matchmaking,
    decreases counts.len(),
{
    if counts.len() > 0 {
        assert(forall|i: int|
            0 <= i < counts.drop_last().len() ==> counts.drop_last()[i] < NUM_PLAYERS);
        lemma_lone_peer_never_starts(counts.drop_last());
    }
}

} // verus!
