use vstd::prelude::*;

verus! {

/// One of the three hands.
#[derive(Clone, Copy, Debug, PartialEq, Eq, Structural)]
pub enum RPS {
    Rock,
    Paper,
    Scissors,
}

/// The outcome of one round, seen from the two players.
#[derive(Clone, Copy, Debug, PartialEq, Eq, Structural)]
pub enum Verdict {
    Player1Wins,
    Player2Wins,
    Draw,
}

/// The cyclic relation: Rock beats Scissors, Scissors beats Paper, Paper beats Rock.
pub open spec fn beats_spec(a: RPS, b: RPS) -> bool {
    (a == RPS::Rock && b == RPS::Scissors) || (a == RPS::Scissors && b == RPS::Paper) || (a
        == RPS::Paper && b == RPS::Rock)
}

pub open spec fn verdict_spec(p1: RPS, p2: RPS) -> Verdict {
    if beats_spec(p1, p2) {
        Verdict::Player1Wins
    } else if beats_spec(p2, p1) {
        Verdict::Player2Wins
    } else {
        Verdict::Draw
    }
}

/// Whether hand `a` beats hand `b`.
pub fn beats(a: RPS, b: RPS) -> (r: bool)
    ensures
        r == beats_spec(a, b),
{
    match (a, b) {
        (RPS::Rock, RPS::Scissors) => true,
        (RPS::Scissors, RPS::Paper) => true,
        (RPS::Paper, RPS::Rock) => true,
        _ => false,
    }
}

/// Decides a round between player 1's hand and player 2's hand.
pub fn verdict(p1: RPS, p2: RPS) -> (r: Verdict)
    ensures
        r == verdict_spec(p1, p2),
{
    if beats(p1, p2) {
        Verdict::Player1Wins
    } else if beats(p2, p1) {
        Verdict::Player2Wins
    } else {
        Verdict::Draw
    }
}

/// The verdict follows the cyclic beats-relation: a hand beats exactly one
/// other hand, loses to exactly one, and equal hands draw.
pub proof fn lemma_verdict_follows_beats(p1: RPS, p2: RPS)
    ensures
        beats_spec(RPS::Rock, RPS::Scissors),
        beats_spec(RPS::Scissors, RPS::Paper),
        beats_spec(RPS::Paper, RPS::Rock),
        !(beats_spec(p1, p2) && beats_spec(p2, p1)),
        (verdict_spec(p1, p2) == Verdict::Draw) <==> p1 == p2,
        (verdict_spec(p1, p2) == Verdict::Player1Wins) <==> beats_spec(p1, p2),
        (verdict_spec(p1, p2) == Verdict::Player2Wins) <==> beats_spec(p2, p1),
        p1 != p2 ==> (beats_spec(p1, p2) <==> !beats_spec(p2, p1)),
{
}

} // verus!
