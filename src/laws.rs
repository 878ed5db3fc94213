use vstd::prelude::*;
use crate::choice::{beats_spec, RPS};
use crate::commitment::commitment_spec;
use crate::game::{Actions, GameConfig, GameState, Key, Rejection};
use crate::machine::{expired_spec, outcome, recorded, REVEAL_WINDOW};
use crate::settlement::{lemma_payouts_total, pays_only, payout_total, transfers_spec};

verus! {

/// A game waiting for player 1 to reveal, built from its fields.
pub open spec fn awaiting_reveal(
    player_1: Key,
    player_2: Key,
    commitment: [u8; 32],
    player_2_choice: RPS,
    player_2_secret: Option<u64>,
    config: GameConfig,
    expiry_slot: u64,
) -> GameState {
    GameState::AcceptingReveal {
        player_1,
        player_2,
        commitment,
        player_2_choice,
        player_2_secret,
        config,
        expiry_slot,
    }
}

/// Within the reveal window, a reveal is accepted exactly when the hash of
/// the disclosed hand and salt equals the stored commitment; otherwise it is
/// rejected as a mismatch and the recorded state stays as it was.
pub proof fn lemma_reveal_accepted_iff_commitment_matches(
    player_1: Key,
    player_2: Key,
    commitment: [u8; 32],
    player_2_choice: RPS,
    player_2_secret: Option<u64>,
    config: GameConfig,
    expiry_slot: u64,
    revealer: Key,
    choice: RPS,
    salt: u64,
    now: u64,
)
    requires
        now <= expiry_slot,
    ensures
        ({
            let s = awaiting_reveal(
                player_1,
                player_2,
                commitment,
                player_2_choice,
                player_2_secret,
                config,
                expiry_slot,
            );
            let a = Actions::Reveal { player_1_pubkey: revealer, choice, salt };
            &&& outcome(s, a, now) is Ok <==> commitment_spec(choice, salt) == commitment@
            &&& commitment_spec(choice, salt) != commitment@ ==> outcome(s, a, now) == Err::<
                GameState,
                Rejection,
            >(Rejection::CommitmentMismatch) && recorded(s, a, now) == s
        }),
{
}

/// The result of an action depends on the state, the action and the slot
/// alone: equal inputs give equal results.
pub proof fn lemma_apply_deterministic(
    s1: GameState,
    a1: Actions,
    n1: u64,
    s2: GameState,
    a2: Actions,
    n2: u64,
)
    requires
        s1 == s2,
        a1 == a2,
        n1 == n2,
    ensures
        outcome(s1, a1, n1) == outcome(s2, a2, n2),
        recorded(s1, a1, n1) == recorded(s2, a2, n2),
{
}

/// A resolved or expired game accepts no action: every action is rejected
/// as an invalid transition and the recorded state is unchanged.
pub proof fn lemma_terminal_states_absorb(state: GameState, action: Actions, now: u64)
    requires
        state.is_terminal(),
    ensures
        outcome(state, action, now) == Err::<GameState, Rejection>(Rejection::InvalidTransition),
        recorded(state, action, now) == state,
{
}

/// Expiry is accepted exactly when the slot is past the deadline: one slot
/// before it is rejected, one slot after it leads to `Expired`, refunding
/// player 2's stake and disbursing player 1's as the forfeit policy says.
pub proof fn lemma_expire_iff_past_deadline(
    player_1: Key,
    player_2: Key,
    commitment: [u8; 32],
    player_2_choice: RPS,
    player_2_secret: Option<u64>,
    config: GameConfig,
    expiry_slot: u64,
    caller: Key,
    now: u64,
)
    ensures
        ({
            let s = awaiting_reveal(
                player_1,
                player_2,
                commitment,
                player_2_choice,
                player_2_secret,
                config,
                expiry_slot,
            );
            let a = Actions::ExpireGame { player_pubkey: caller };
            let expired = expired_spec(player_1, player_2, config.wager_amount);
            &&& outcome(s, a, now) is Ok <==> now > expiry_slot
            &&& now > expiry_slot ==> outcome(s, a, now) == Ok::<GameState, Rejection>(expired)
            &&& expiry_slot > 0 ==> outcome(s, a, (expiry_slot - 1) as u64) == Err::<
                GameState,
                Rejection,
            >(Rejection::NotYetExpired)
            &&& expiry_slot < u64::MAX ==> outcome(s, a, (expiry_slot + 1) as u64) == Ok::<
                GameState,
                Rejection,
            >(expired)
        }),
{
}

/// An accepted reveal pays out exactly the two stakes held in escrow: all of
/// it to the holder of the winning hand, or one stake back to each on a draw.
/// (Two distinct players: a game never lets player 1 join as player 2.)
pub proof fn lemma_resolution_pays_out_both_stakes(
    player_1: Key,
    player_2: Key,
    commitment: [u8; 32],
    player_2_choice: RPS,
    player_2_secret: Option<u64>,
    config: GameConfig,
    expiry_slot: u64,
    revealer: Key,
    choice: RPS,
    salt: u64,
    now: u64,
)
    requires
        player_1 != player_2,
    ensures
        ({
            let s = awaiting_reveal(
                player_1,
                player_2,
                commitment,
                player_2_choice,
                player_2_secret,
                config,
                expiry_slot,
            );
            let a = Actions::Reveal { player_1_pubkey: revealer, choice, salt };
            let w = config.wager_amount as int;
            outcome(s, a, now) is Ok ==> match outcome(s, a, now)->Ok_0 {
                GameState::Resolved { winner, payout_split } => {
                    &&& payout_split.player_1 == player_1
                    &&& payout_split.player_2 == player_2
                    &&& payout_split.player_1_amount + payout_split.player_2_amount == 2 * w
                    &&& winner == Some(player_1) <==> beats_spec(choice, player_2_choice)
                    &&& winner == Some(player_2) <==> beats_spec(player_2_choice, choice)
                    &&& winner is None <==> choice == player_2_choice
                    &&& winner is None ==> payout_split.player_1_amount == w
                        && payout_split.player_2_amount == w
                    &&& winner is Some ==> payout_split.player_1_amount == 0
                        || payout_split.player_2_amount == 0
                },
                _ => false,
            }
        }),
{
    crate::choice::lemma_verdict_follows_beats(choice, player_2_choice);
}

/// Joining carries player 1's commitment and the game's configuration over
/// unchanged, records two distinct players, and sets the deadline
/// `REVEAL_WINDOW` slots after the join.
pub proof fn lemma_join_keeps_commitment_and_config(
    state: GameState,
    player_2: Key,
    choice: RPS,
    secret: Option<u64>,
    now: u64,
)
    requires
        state is AcceptingChallenge,
    ensures
        ({
            let a = Actions::JoinGame { player_2_pubkey: player_2, choice, secret };
            outcome(state, a, now) is Ok ==> match outcome(state, a, now)->Ok_0 {
                GameState::AcceptingReveal {
                    player_1,
                    player_2: p2,
                    commitment,
                    config,
                    expiry_slot,
                    ..
                } => {
                    &&& player_1 == state->AcceptingChallenge_player_1
                    &&& p2 == player_2
                    &&& player_1 != p2
                    &&& commitment == state->AcceptingChallenge_commitment
                    &&& config == state->AcceptingChallenge_config
                    &&& expiry_slot == now + REVEAL_WINDOW
                },
                _ => false,
            }
        }),
{
}

/// Every accepted reveal or expiry empties the escrow: the payouts that go
/// with it take out exactly the two stakes, twice the wager, and pay only the
/// two players.
pub proof fn lemma_settlement_empties_escrow(
    player_1: Key,
    player_2: Key,
    commitment: [u8; 32],
    player_2_choice: RPS,
    player_2_secret: Option<u64>,
    config: GameConfig,
    expiry_slot: u64,
    action: Actions,
    now: u64,
)
    requires
        action is Reveal || action is ExpireGame,
    ensures
        ({
            let s = awaiting_reveal(
                player_1,
                player_2,
                commitment,
                player_2_choice,
                player_2_secret,
                config,
                expiry_slot,
            );
            outcome(s, action, now) is Ok ==> {
                let t = transfers_spec(action, outcome(s, action, now)->Ok_0);
                &&& t is Some
                &&& payout_total(t->Some_0) == 2 * config.wager_amount
                &&& pays_only(t->Some_0, player_1, player_2)
            }
        }),
{
    let s = awaiting_reveal(
        player_1,
        player_2,
        commitment,
        player_2_choice,
        player_2_secret,
        config,
        expiry_slot,
    );
    if outcome(s, action, now) is Ok {
        match outcome(s, action, now)->Ok_0 {
            GameState::Resolved { payout_split, .. } => lemma_payouts_total(payout_split),
            GameState::Expired { payout_split, .. } => lemma_payouts_total(payout_split),
            _ => {},
        }
    }
}

} // verus!
