use vstd::prelude::*;
use crate::game::{Actions, GameState, Key, PayoutSplit, Rejection};
use crate::machine::{apply, outcome};

verus! {

/// One movement of the wagered asset into or out of the game's escrow.
#[derive(Clone, Copy, Debug, PartialEq, Eq)]
pub enum Transfer {
    /// From a player's account into escrow.
    Deposit { from: Key, amount: u64 },
    /// From escrow to a player's account.
    Payout { to: Key, amount: u128 },
}

/// The payouts of a resolved or expired game, leaving out those of nothing.
pub open spec fn payouts_spec(split: PayoutSplit) -> Seq<Transfer> {
    let first = if split.player_1_amount > 0 {
        seq![Transfer::Payout { to: split.player_1, amount: split.player_1_amount }]
    } else {
        Seq::empty()
    };
    let second = if split.player_2_amount > 0 {
        seq![Transfer::Payout { to: split.player_2, amount: split.player_2_amount }]
    } else {
        Seq::empty()
    };
    first + second
}

/// What a sequence of transfers takes out of escrow in all.
pub open spec fn payout_total(t: Seq<Transfer>) -> int
    decreases t.len(),
{
    if t.len() == 0 {
        0
    } else {
        let rest = payout_total(t.drop_last());
        match t.last() {
            Transfer::Payout { amount, .. } => rest + amount,
            Transfer::Deposit { .. } => rest,
        }
    }
}

/// Every transfer is a payout to one of the two players.
pub open spec fn pays_only(t: Seq<Transfer>, p1: Key, p2: Key) -> bool {
    forall|i: int|
        0 <= i < t.len() ==> match #[trigger] t[i] {
            Transfer::Payout { to, .. } => to == p1 || to == p2,
            Transfer::Deposit { .. } => false,
        }
}

/// The payouts of a split take out exactly its two amounts, and pay only its
/// two players.
pub proof fn lemma_payouts_total(split: PayoutSplit)
    ensures
        payout_total(payouts_spec(split)) == split.player_1_amount + split.player_2_amount,
        pays_only(payouts_spec(split), split.player_1, split.player_2),
{
    let p1 = Transfer::Payout { to: split.player_1, amount: split.player_1_amount };
    let p2 = Transfer::Payout { to: split.player_2, amount: split.player_2_amount };
    let t = payouts_spec(split);
    assert(payout_total(Seq::<Transfer>::empty()) == 0);
    assert(seq![p1].drop_last() =~= Seq::<Transfer>::empty());
    assert(seq![p2].drop_last() =~= Seq::<Transfer>::empty());
    assert((seq![p1] + seq![p2]).drop_last() =~= seq![p1]);
    assert(payout_total(seq![p1]) == split.player_1_amount);
    assert(payout_total(seq![p2]) == split.player_2_amount);
    if split.player_1_amount > 0 && split.player_2_amount > 0 {
        assert(t =~= seq![p1] + seq![p2]);
        assert((seq![p1] + seq![p2]).last() == p2);
    } else if split.player_1_amount > 0 {
        assert(t =~= seq![p1]);
    } else if split.player_2_amount > 0 {
        assert(t =~= seq![p2]);
    } else {
        assert(t =~= Seq::<Transfer>::empty());
    }
}

/// The transfers that go with `action` having led to `next`, or `None`
/// when `next` is not the state that the action is meant to lead to.
pub open spec fn transfers_spec(action: Actions, next: GameState) -> Option<Seq<Transfer>> {
    match (action, next) {
        (Actions::CreateGame { player_1_pubkey, .. }, GameState::AcceptingChallenge { config, .. }) => {
            Some(seq![Transfer::Deposit { from: player_1_pubkey, amount: config.wager_amount }])
        },
        (Actions::JoinGame { player_2_pubkey, .. }, GameState::AcceptingReveal { config, .. }) => {
            Some(seq![Transfer::Deposit { from: player_2_pubkey, amount: config.wager_amount }])
        },
        (Actions::Reveal { .. }, GameState::Resolved { payout_split, .. }) => {
            Some(payouts_spec(payout_split))
        },
        (Actions::ExpireGame { .. }, GameState::Expired { payout_split, .. }) => {
            Some(payouts_spec(payout_split))
        },
        _ => None,
    }
}

/// The transfers that go with `action` having led to `next`; `None` when
/// `next` is not the state expected for the action, in which case the whole
/// operation must be abandoned.
pub fn transfers_for(action: &Actions, next: &GameState) -> (r: Option<Vec<Transfer>>)
    ensures
        match r {
            Some(v) => transfers_spec(*action, *next) == Some(v@),
            None => transfers_spec(*action, *next) is None,
        },
{
    match (*action, *next) {
        (Actions::CreateGame { player_1_pubkey, .. }, GameState::AcceptingChallenge { config, .. }) => {
            Some(vec![Transfer::Deposit { from: player_1_pubkey, amount: config.wager_amount }])
        },
        (Actions::JoinGame { player_2_pubkey, .. }, GameState::AcceptingReveal { config, .. }) => {
            Some(vec![Transfer::Deposit { from: player_2_pubkey, amount: config.wager_amount }])
        },
        (Actions::Reveal { .. }, GameState::Resolved { payout_split, .. }) => {
            Some(payouts(&payout_split))
        },
        (Actions::ExpireGame { .. }, GameState::Expired { payout_split, .. }) => {
            Some(payouts(&payout_split))
        },
        _ => None,
    }
}

/// The payouts of a resolved or expired game, leaving out those of nothing.
fn payouts(payout_split: &PayoutSplit) -> (r: Vec<Transfer>)
    ensures
        r@ == payouts_spec(*payout_split),
{
    let mut v: Vec<Transfer> = Vec::new();
    if payout_split.player_1_amount > 0 {
        v.push(
            Transfer::Payout {
                to: payout_split.player_1,
                amount: payout_split.player_1_amount,
            },
        );
    }
    if payout_split.player_2_amount > 0 {
        v.push(
            Transfer::Payout {
                to: payout_split.player_2,
                amount: payout_split.player_2_amount,
            },
        );
    }
    assert(v@ =~= payouts_spec(*payout_split));
    v
}

/// Plans one operation: the next state together with the transfers it calls
/// for, to be carried out before the state is recorded; or why the action was
/// rejected, in which case nothing is to be moved.
pub fn plan(game_id: Key, state: GameState, action: Actions, now_slot: u64) -> (r: Result<
    (GameState, Vec<Transfer>),
    Rejection,
>)
    ensures
        match outcome(state, action, now_slot) {
            Ok(s) => r is Ok && r->Ok_0.0 == s && transfers_spec(action, s) == Some(r->Ok_0.1@),
            Err(e) => r == Err::<(GameState, Vec<Transfer>), Rejection>(e),
        },
{
    match apply(game_id, state, action, now_slot) {
        Ok(s) => {
            match transfers_for(&action, &s) {
                Some(v) => Ok((s, v)),
                None => {
                    // every accepted action leads to the state it is meant to
                    assert(false);
                    Err(Rejection::InvalidTransition)
                },
            }
        },
        Err(e) => Err(e),
    }
}

} // verus!
