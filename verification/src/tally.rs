//! The results of a run of games, as a match harness counts them.

use vstd::prelude::*;

verus! {

/// How often one client won, drew and lost, counted apart for the games
/// it played as the first team and as the second.
#[derive(Debug, Copy, Clone, PartialEq, Eq, Structural)]
pub struct Tally {
    pub wins_when_team1: u32,
    pub draws_when_team1: u32,
    pub losses_when_team1: u32,
    pub wins_when_team2: u32,
    pub draws_when_team2: u32,
    pub losses_when_team2: u32,
}

impl Tally {
    /// The games won, on either side.
    pub open spec fn spec_wins(&self) -> u64 {
        (self.wins_when_team1 + self.wins_when_team2) as u64
    }

    /// The games drawn, on either side.
    pub open spec fn spec_draws(&self) -> u64 {
        (self.draws_when_team1 + self.draws_when_team2) as u64
    }

    /// The games lost, on either side.
    pub open spec fn spec_losses(&self) -> u64 {
        (self.losses_when_team1 + self.losses_when_team2) as u64
    }

    /// All games counted.
    pub open spec fn spec_games_played(&self) -> u64 {
        (self.wins() + self.draws() + self.losses()) as u64
    }

    /// The tally before the first game.
    pub fn new() -> (t: Tally)
        ensures
            t == (Tally {
                wins_when_team1: 0,
                draws_when_team1: 0,
                losses_when_team1: 0,
                wins_when_team2: 0,
                draws_when_team2: 0,
                losses_when_team2: 0,
            }),
            t.games_played() == 0,
    {
        Tally {
            wins_when_team1: 0,
            draws_when_team1: 0,
            losses_when_team1: 0,
            wins_when_team2: 0,
            draws_when_team2: 0,
            losses_when_team2: 0,
        }
    }

    /// The games won, on either side. The sum is taken in 64 bits, so it
    /// cannot overflow.
    #[verifier::when_used_as_spec(spec_wins)]
    pub fn wins(&self) -> (n: u64)
        ensures
            n == self.wins_when_team1 + self.wins_when_team2,
            n == self.spec_wins(),
    {
        self.wins_when_team1 as u64 + self.wins_when_team2 as u64
    }

    /// The games drawn, on either side.
    #[verifier::when_used_as_spec(spec_draws)]
    pub fn draws(&self) -> (n: u64)
        ensures
            n == self.draws_when_team1 + self.draws_when_team2,
            n == self.spec_draws(),
    {
        self.draws_when_team1 as u64 + self.draws_when_team2 as u64
    }

    /// The games lost, on either side.
    #[verifier::when_used_as_spec(spec_losses)]
    pub fn losses(&self) -> (n: u64)
        ensures
            n == self.losses_when_team1 + self.losses_when_team2,
            n == self.spec_losses(),
    {
        self.losses_when_team1 as u64 + self.losses_when_team2 as u64
    }

    /// All games counted: those won, drawn and lost.
    #[verifier::when_used_as_spec(spec_games_played)]
    pub fn games_played(&self) -> (n: u64)
        ensures
            n == self.wins() + self.draws() + self.losses(),
            n == self.wins_when_team1 + self.draws_when_team1 + self.losses_when_team1
                + self.wins_when_team2 + self.draws_when_team2 + self.losses_when_team2,
            n == self.spec_games_played(),
    {
        self.wins() + self.draws() + self.losses()
    }
}

} // verus!
