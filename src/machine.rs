use vstd::prelude::*;
use crate::choice::{verdict, verdict_spec, Verdict, RPS};
use crate::commitment::{bytes32_equal, commitment_of, commitment_spec};
use crate::game::{same_key, Actions, Game, GameState, Key, PayoutSplit, Rejection};

verus! {

/// Slots that player 1 has, after player 2 joins, to reveal.
pub const REVEAL_WINDOW: u64 = 50;

/// What becomes of the stake of a player 1 who let the reveal window lapse:
/// `true` forfeits it to player 2, `false` returns it to player 1.
pub const FORFEIT_UNREVEALED_STAKE: bool = true;

/// The terminal state of a game whose reveal window lapsed: player 2 gets
/// their stake back, and player 1's stake goes as `FORFEIT_UNREVEALED_STAKE`
/// says.
pub open spec fn expired_spec(p1: Key, p2: Key, wager: u64) -> GameState {
    let w = wager as u128;
    GameState::Expired {
        refund_to: p2,
        payout_split: if FORFEIT_UNREVEALED_STAKE {
            PayoutSplit { player_1: p1, player_1_amount: 0, player_2: p2, player_2_amount: (2 * w) as u128 }
        } else {
            PayoutSplit { player_1: p1, player_1_amount: w, player_2: p2, player_2_amount: w }
        },
    }
}

/// The terminal state of a round between player 1's revealed hand `c1` and
/// player 2's hand `c2`: the winner takes both stakes, a draw returns each.
pub open spec fn resolved_spec(p1: Key, p2: Key, c1: RPS, c2: RPS, wager: u64) -> GameState {
    let w = wager as u128;
    match verdict_spec(c1, c2) {
        Verdict::Player1Wins => GameState::Resolved {
            winner: Some(p1),
            payout_split: PayoutSplit {
                player_1: p1,
                player_1_amount: (2 * w) as u128,
                player_2: p2,
                player_2_amount: 0,
            },
        },
        Verdict::Player2Wins => GameState::Resolved {
            winner: Some(p2),
            payout_split: PayoutSplit {
                player_1: p1,
                player_1_amount: 0,
                player_2: p2,
                player_2_amount: (2 * w) as u128,
            },
        },
        Verdict::Draw => GameState::Resolved {
            winner: None,
            payout_split: PayoutSplit {
                player_1: p1,
                player_1_amount: w,
                player_2: p2,
                player_2_amount: w,
            },
        },
    }
}

/// The transition, given `digest`, the hash of what a `Reveal` discloses.
pub open spec fn next_state(state: GameState, action: Actions, now: u64, digest: Seq<u8>) -> Result<
    GameState,
    Rejection,
> {
    match (state, action) {
        (GameState::Initialized, Actions::CreateGame { player_1_pubkey, commitment, config }) => {
            if config.wager_amount == 0 {
                Err(Rejection::ZeroWager)
            } else {
                Ok(GameState::AcceptingChallenge { player_1: player_1_pubkey, commitment, config })
            }
        },
        (
            GameState::AcceptingChallenge { player_1, commitment, config },
            Actions::JoinGame { player_2_pubkey, choice, secret },
        ) => {
            if player_2_pubkey == player_1 {
                Err(Rejection::SamePlayer)
            } else if now + REVEAL_WINDOW > u64::MAX {
                Err(Rejection::SlotOverflow)
            } else {
                Ok(
                    GameState::AcceptingReveal {
                        player_1,
                        player_2: player_2_pubkey,
                        commitment,
                        player_2_choice: choice,
                        player_2_secret: secret,
                        config,
                        expiry_slot: (now + REVEAL_WINDOW) as u64,
                    },
                )
            }
        },
        (
            GameState::AcceptingReveal {
                player_1,
                player_2,
                commitment,
                player_2_choice,
                config,
                expiry_slot,
                ..
            },
            Actions::Reveal { choice, .. },
        ) => {
            if now > expiry_slot {
                Err(Rejection::RevealWindowClosed)
            } else if digest != commitment@ {
                Err(Rejection::CommitmentMismatch)
            } else {
                Ok(resolved_spec(player_1, player_2, choice, player_2_choice, config.wager_amount))
            }
        },
        (
            GameState::AcceptingReveal { player_1, player_2, config, expiry_slot, .. },
            Actions::ExpireGame { .. },
        ) => {
            if now > expiry_slot {
                Ok(expired_spec(player_1, player_2, config.wager_amount))
            } else {
                Err(Rejection::NotYetExpired)
            }
        },
        _ => Err(Rejection::InvalidTransition),
    }
}

/// The hash that a transition consults: that of the disclosed hand and salt.
pub open spec fn disclosed_digest(action: Actions) -> Seq<u8> {
    match action {
        Actions::Reveal { choice, salt, .. } => commitment_spec(choice, salt),
        _ => Seq::empty(),
    }
}

/// What `action` at slot `now` does to `state`.
pub open spec fn outcome(state: GameState, action: Actions, now: u64) -> Result<
    GameState,
    Rejection,
> {
    next_state(state, action, now, disclosed_digest(action))
}

/// The state recorded after the action: the new state, or the old one if
/// the action was rejected.
pub open spec fn recorded(state: GameState, action: Actions, now: u64) -> GameState {
    match outcome(state, action, now) {
        Ok(s) => s,
        Err(_) => state,
    }
}

fn resolve(p1: Key, p2: Key, c1: RPS, c2: RPS, wager: u64) -> (r: GameState)
    ensures
        r == resolved_spec(p1, p2, c1, c2, wager),
{
    let w = wager as u128;
    match verdict(c1, c2) {
        Verdict::Player1Wins => GameState::Resolved {
            winner: Some(p1),
            payout_split: PayoutSplit {
                player_1: p1,
                player_1_amount: 2 * w,
                player_2: p2,
                player_2_amount: 0,
            },
        },
        Verdict::Player2Wins => GameState::Resolved {
            winner: Some(p2),
            payout_split: PayoutSplit {
                player_1: p1,
                player_1_amount: 0,
                player_2: p2,
                player_2_amount: 2 * w,
            },
        },
        Verdict::Draw => GameState::Resolved {
            winner: None,
            payout_split: PayoutSplit {
                player_1: p1,
                player_1_amount: w,
                player_2: p2,
                player_2_amount: w,
            },
        },
    }
}

fn expire(p1: Key, p2: Key, wager: u64) -> (r: GameState)
    ensures
        r == expired_spec(p1, p2, wager),
{
    let w = wager as u128;
    let payout_split = if FORFEIT_UNREVEALED_STAKE {
        PayoutSplit { player_1: p1, player_1_amount: 0, player_2: p2, player_2_amount: 2 * w }
    } else {
        PayoutSplit { player_1: p1, player_1_amount: w, player_2: p2, player_2_amount: w }
    };
    GameState::Expired { refund_to: p2, payout_split }
}

/// The transition, with the hash of what a `Reveal` discloses handed in as
/// `digest` (it is not consulted for other actions).
pub fn apply_with_digest(state: GameState, action: Actions, now_slot: u64, digest: &[u8; 32]) -> (r:
    Result<GameState, Rejection>)
    ensures
        r == next_state(state, action, now_slot, digest@),
{
    match (state, action) {
        (GameState::Initialized, Actions::CreateGame { player_1_pubkey, commitment, config }) => {
            if config.wager_amount == 0 {
                Err(Rejection::ZeroWager)
            } else {
                Ok(GameState::AcceptingChallenge { player_1: player_1_pubkey, commitment, config })
            }
        },
        (
            GameState::AcceptingChallenge { player_1, commitment, config },
            Actions::JoinGame { player_2_pubkey, choice, secret },
        ) => {
            if same_key(&player_2_pubkey, &player_1) {
                Err(Rejection::SamePlayer)
            } else if now_slot > u64::MAX - REVEAL_WINDOW {
                Err(Rejection::SlotOverflow)
            } else {
                Ok(
                    GameState::AcceptingReveal {
                        player_1,
                        player_2: player_2_pubkey,
                        commitment,
                        player_2_choice: choice,
                        player_2_secret: secret,
                        config,
                        expiry_slot: now_slot + REVEAL_WINDOW,
                    },
                )
            }
        },
        (
            GameState::AcceptingReveal {
                player_1,
                player_2,
                commitment,
                player_2_choice,
                config,
                expiry_slot,
                ..
            },
            Actions::Reveal { choice, .. },
        ) => {
            if now_slot > expiry_slot {
                Err(Rejection::RevealWindowClosed)
            } else if !bytes32_equal(digest, &commitment) {
                Err(Rejection::CommitmentMismatch)
            } else {
                Ok(resolve(player_1, player_2, choice, player_2_choice, config.wager_amount))
            }
        },
        (
            GameState::AcceptingReveal { player_1, player_2, config, expiry_slot, .. },
            Actions::ExpireGame { .. },
        ) => {
            if now_slot > expiry_slot {
                Ok(expire(player_1, player_2, config.wager_amount))
            } else {
                Err(Rejection::NotYetExpired)
            }
        },
        _ => Err(Rejection::InvalidTransition),
    }
}

/// Applies `action` at slot `now_slot` to the state of the game `game_id`:
/// the next state, or why the action was rejected.
pub fn apply(game_id: Key, state: GameState, action: Actions, now_slot: u64) -> (r: Result<
    GameState,
    Rejection,
>)
    ensures
        r == outcome(state, action, now_slot),
{
    match action {
        Actions::Reveal { choice, salt, .. } => {
            let digest = commitment_of(choice, salt);
            apply_with_digest(state, action, now_slot, &digest)
        },
        _ => {
            let none: [u8; 32] = [0u8; 32];
            let r = apply_with_digest(state, action, now_slot, &none);
            assert(r == next_state(state, action, now_slot, Seq::empty()));
            r
        },
    }
}

/// Applies `action` and returns the state to record: the next state, or
/// `state` itself when the action is rejected.
pub fn process_action(game_id: Key, state: GameState, action: Actions, now_slot: u64) -> (r:
    GameState)
    ensures
        r == recorded(state, action, now_slot),
{
    match apply(game_id, state, action, now_slot) {
        Ok(s) => s,
        Err(_) => state,
    }
}

impl Game {
    /// A fresh record, before any action.
    pub fn new() -> (r: Game)
        ensures
            r.state == GameState::Initialized,
    {
        Game { state: GameState::Initialized }
    }

    /// Applies `action` to the record, replacing its state when the action
    /// is accepted and leaving it as it was otherwise.
    pub fn act(&mut self, game_id: Key, action: Actions, now_slot: u64) -> (r: Result<(), Rejection>)
        ensures
            match outcome(old(self).state, action, now_slot) {
                Ok(s) => r == Ok::<(), Rejection>(()) && final(self).state == s,
                Err(e) => r == Err::<(), Rejection>(e) && final(self).state == old(self).state,
            },
    {
        match apply(game_id, self.state, action, now_slot) {
            Ok(s) => {
                self.state = s;
                Ok(())
            },
            Err(e) => Err(e),
        }
    }
}

} // verus!
