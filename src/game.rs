use vstd::prelude::*;
use crate::choice::RPS;
use crate::commitment::bytes32_equal;

verus! {

/// A 32-byte account address: a player, a mint or a game record.
#[derive(Clone, Copy, Debug, PartialEq, Eq)]
pub struct Key {
    pub bytes: [u8; 32],
}

/// Whether two addresses are the same.
pub fn same_key(a: &Key, b: &Key) -> (r: bool)
    ensures
        r == (a == b),
{
    broadcast use vstd::array::group_array_axioms;

    let r = bytes32_equal(&a.bytes, &b.bytes);
    if r {
        assert(a.bytes =~= b.bytes);
    }
    r
}

/// What is wagered, fixed when the game is created.
#[derive(Clone, Copy, Debug, PartialEq, Eq)]
pub struct GameConfig {
    /// The fungible asset wagered.
    pub mint: Key,
    /// What each player puts into escrow.
    pub wager_amount: u64,
    /// An optional eligibility token.
    pub entry_proof: Option<Key>,
}

/// How the escrow is split when a game is resolved.
#[derive(Clone, Copy, Debug, PartialEq, Eq)]
pub struct PayoutSplit {
    pub player_1: Key,
    pub player_1_amount: u128,
    pub player_2: Key,
    pub player_2_amount: u128,
}

/// The state of one game record.
#[derive(Clone, Copy, Debug, PartialEq, Eq)]
pub enum GameState {
    /// The record exists; nobody has acted on it yet.
    Initialized,
    /// Player 1 has committed to a hand and funded the escrow.
    AcceptingChallenge { player_1: Key, commitment: [u8; 32], config: GameConfig },
    /// Player 2 has joined with a hand and funded the escrow; player 1 must
    /// reveal no later than `expiry_slot`.
    AcceptingReveal {
        player_1: Key,
        player_2: Key,
        commitment: [u8; 32],
        player_2_choice: RPS,
        player_2_secret: Option<u64>,
        config: GameConfig,
        expiry_slot: u64,
    },
    /// Terminal: the round was played; `winner` is `None` on a draw.
    Resolved { winner: Option<Key>, payout_split: PayoutSplit },
    /// Terminal: player 1 did not reveal in time. Player 2's stake goes back
    /// to `refund_to`, and `payout_split` disburses the whole escrow.
    Expired { refund_to: Key, payout_split: PayoutSplit },
}

/// An action submitted against a game.
#[derive(Clone, Copy, Debug, PartialEq, Eq)]
pub enum Actions {
    CreateGame { player_1_pubkey: Key, commitment: [u8; 32], config: GameConfig },
    JoinGame { player_2_pubkey: Key, choice: RPS, secret: Option<u64> },
    Reveal { player_1_pubkey: Key, choice: RPS, salt: u64 },
    ExpireGame { player_pubkey: Key },
}

/// Why an action was not accepted.
#[derive(Clone, Copy, Debug, PartialEq, Eq, Structural)]
pub enum Rejection {
    /// The action does not apply to the current state.
    InvalidTransition,
    /// A game was created with a wager of zero.
    ZeroWager,
    /// Player 1 tried to join their own game.
    SamePlayer,
    /// The reveal deadline would not fit in a slot number.
    SlotOverflow,
    /// The revealed hand and salt do not hash to the commitment.
    CommitmentMismatch,
    /// The reveal came after the deadline.
    RevealWindowClosed,
    /// Expiry was asked for before the deadline had passed.
    NotYetExpired,
}

/// The single record kept for one game.
#[derive(Clone, Copy, Debug, PartialEq, Eq)]
pub struct Game {
    pub state: GameState,
}

impl GameState {
    /// A state from which no action leads anywhere.
    pub open spec fn is_terminal(self) -> bool {
        self is Resolved || self is Expired
    }
}

} // verus!
