use rps::choice::{beats, verdict, Verdict, RPS};
use rps::commitment::{commitment_of, encode_preimage};
use rps::game::{Actions, Game, GameConfig, GameState, Key, PayoutSplit, Rejection};
use rps::machine::{apply, apply_with_digest, process_action, FORFEIT_UNREVEALED_STAKE, REVEAL_WINDOW};
use rps::settlement::{plan, transfers_for, Transfer};

const ROCK_7: [u8; 32] = [
    125, 209, 101, 122, 54, 25, 125, 130, 191, 174, 105, 12, 50, 18, 239, 155, 60, 13, 123, 186,
    239, 18, 221, 184, 239, 143, 159, 48, 178, 55, 49, 133,
];

fn key(b: u8) -> Key {
    Key { bytes: [b; 32] }
}

fn config(wager: u64) -> GameConfig {
    GameConfig { mint: key(9), wager_amount: wager, entry_proof: None }
}

fn expired_after_forfeit() -> GameState {
    GameState::Expired {
        refund_to: key(2),
        payout_split: PayoutSplit {
            player_1: key(1),
            player_1_amount: 0,
            player_2: key(2),
            player_2_amount: 10,
        },
    }
}

fn created(wager: u64) -> GameState {
    let action = Actions::CreateGame {
        player_1_pubkey: key(1),
        commitment: commitment_of(RPS::Rock, 7),
        config: config(wager),
    };
    apply(key(0), GameState::Initialized, action, 10).unwrap()
}

fn joined(choice: RPS, slot: u64) -> GameState {
    let action = Actions::JoinGame { player_2_pubkey: key(2), choice, secret: None };
    apply(key(0), created(5), action, slot).unwrap()
}

fn reveal_action(choice: RPS, salt: u64) -> Actions {
    Actions::Reveal { player_1_pubkey: key(1), choice, salt }
}

fn expire() -> Actions {
    Actions::ExpireGame { player_pubkey: key(2) }
}

#[test]
fn commitment_is_sha256_of_tag_and_salt() {
    assert_eq!(encode_preimage(RPS::Rock, 7), vec![0, 7, 0, 0, 0, 0, 0, 0, 0]);
    assert_eq!(
        encode_preimage(RPS::Scissors, 0x0102030405060708),
        vec![2, 8, 7, 6, 5, 4, 3, 2, 1]
    );
    assert_eq!(commitment_of(RPS::Rock, 7), ROCK_7);
    assert_ne!(commitment_of(RPS::Paper, 7), ROCK_7);
    assert_ne!(commitment_of(RPS::Rock, 8), ROCK_7);
}

#[test]
fn verdict_follows_cycle() {
    let all = [RPS::Rock, RPS::Paper, RPS::Scissors];
    assert!(beats(RPS::Rock, RPS::Scissors));
    assert!(beats(RPS::Scissors, RPS::Paper));
    assert!(beats(RPS::Paper, RPS::Rock));
    for a in all {
        for b in all {
            let v = verdict(a, b);
            if a == b {
                assert_eq!(v, Verdict::Draw);
            } else if beats(a, b) {
                assert_eq!(v, Verdict::Player1Wins);
                assert!(!beats(b, a));
            } else {
                assert_eq!(v, Verdict::Player2Wins);
                assert!(beats(b, a));
            }
        }
    }
}

#[test]
fn end_to_end_rock_beats_scissors() {
    let s1 = created(5);
    assert_eq!(
        s1,
        GameState::AcceptingChallenge { player_1: key(1), commitment: ROCK_7, config: config(5) }
    );
    let s2 = joined(RPS::Scissors, 20);
    match s2 {
        GameState::AcceptingReveal { expiry_slot, player_2, .. } => {
            assert_eq!(expiry_slot, 20 + REVEAL_WINDOW);
            assert_eq!(player_2, key(2));
        }
        _ => panic!("expected AcceptingReveal"),
    }
    let s3 = apply(key(0), s2, reveal_action(RPS::Rock, 7), 30).unwrap();
    assert_eq!(
        s3,
        GameState::Resolved {
            winner: Some(key(1)),
            payout_split: PayoutSplit {
                player_1: key(1),
                player_1_amount: 10,
                player_2: key(2),
                player_2_amount: 0,
            },
        }
    );
}

#[test]
fn end_to_end_paper_beats_rock() {
    let s2 = joined(RPS::Paper, 20);
    let s3 = apply(key(0), s2, reveal_action(RPS::Rock, 7), 30).unwrap();
    assert_eq!(
        s3,
        GameState::Resolved {
            winner: Some(key(2)),
            payout_split: PayoutSplit {
                player_1: key(1),
                player_1_amount: 0,
                player_2: key(2),
                player_2_amount: 10,
            },
        }
    );
}

#[test]
fn draw_returns_each_stake() {
    let s2 = joined(RPS::Rock, 20);
    let s3 = apply(key(0), s2, reveal_action(RPS::Rock, 7), 30).unwrap();
    assert_eq!(
        s3,
        GameState::Resolved {
            winner: None,
            payout_split: PayoutSplit {
                player_1: key(1),
                player_1_amount: 5,
                player_2: key(2),
                player_2_amount: 5,
            },
        }
    );
}

#[test]
fn expire_rejected_before_deadline_accepted_after() {
    let s = joined(RPS::Paper, 100);
    match s {
        GameState::AcceptingReveal { expiry_slot, .. } => assert_eq!(expiry_slot, 150),
        _ => panic!("expected AcceptingReveal"),
    }
    assert_eq!(apply(key(0), s, expire(), 140), Err(Rejection::NotYetExpired));
    assert_eq!(process_action(key(0), s, expire(), 140), s);
    assert_eq!(
        apply(key(0), s, expire(), 151),
        Ok(expired_after_forfeit())
    );
}

#[test]
fn expire_one_slot_around_deadline() {
    let s = joined(RPS::Paper, 100);
    assert_eq!(apply(key(0), s, expire(), 149), Err(Rejection::NotYetExpired));
    assert_eq!(apply(key(0), s, expire(), 150), Err(Rejection::NotYetExpired));
    assert!(apply(key(0), s, expire(), 151).is_ok());
}

#[test]
fn reveal_with_other_hand_or_salt_is_rejected() {
    let s = joined(RPS::Scissors, 100);
    assert_eq!(apply(key(0), s, reveal_action(RPS::Paper, 7), 120), Err(Rejection::CommitmentMismatch));
    assert_eq!(apply(key(0), s, reveal_action(RPS::Rock, 6), 120), Err(Rejection::CommitmentMismatch));
    assert_eq!(apply(key(0), s, reveal_action(RPS::Rock, 7 ^ (1 << 40)), 120), Err(Rejection::CommitmentMismatch));
    assert_eq!(process_action(key(0), s, reveal_action(RPS::Paper, 7), 120), s);
    assert!(apply(key(0), s, reveal_action(RPS::Rock, 7), 120).is_ok());
}

#[test]
fn reveal_after_deadline_is_rejected() {
    let s = joined(RPS::Scissors, 100);
    assert!(apply(key(0), s, reveal_action(RPS::Rock, 7), 150).is_ok());
    assert_eq!(apply(key(0), s, reveal_action(RPS::Rock, 7), 151), Err(Rejection::RevealWindowClosed));
}

#[test]
fn digest_handed_in_decides_reveal() {
    let s = joined(RPS::Scissors, 100);
    assert!(apply_with_digest(s, reveal_action(RPS::Rock, 7), 120, &ROCK_7).is_ok());
    assert_eq!(
        apply_with_digest(s, reveal_action(RPS::Rock, 7), 120, &[0u8; 32]),
        Err(Rejection::CommitmentMismatch)
    );
}

#[test]
fn apply_is_deterministic() {
    let s = joined(RPS::Paper, 100);
    let a = reveal_action(RPS::Rock, 7);
    assert_eq!(apply(key(0), s, a, 120), apply(key(0), s, a, 120));
    assert_eq!(process_action(key(0), s, a, 120), process_action(key(0), s, a, 120));
}

#[test]
fn terminal_states_accept_nothing() {
    let resolved = apply(key(0), joined(RPS::Paper, 100), reveal_action(RPS::Rock, 7), 120).unwrap();
    let expired = apply(key(0), joined(RPS::Paper, 100), expire(), 200).unwrap();
    let actions = [
        Actions::CreateGame { player_1_pubkey: key(1), commitment: ROCK_7, config: config(5) },
        Actions::JoinGame { player_2_pubkey: key(3), choice: RPS::Rock, secret: Some(4) },
        reveal_action(RPS::Rock, 7),
        expire(),
    ];
    for s in [resolved, expired] {
        for a in actions {
            assert_eq!(apply(key(0), s, a, 300), Err(Rejection::InvalidTransition));
            assert_eq!(process_action(key(0), s, a, 300), s);
        }
    }
}

#[test]
fn wrong_state_is_invalid_transition() {
    assert_eq!(apply(key(0), GameState::Initialized, expire(), 1), Err(Rejection::InvalidTransition));
    assert_eq!(
        apply(key(0), created(5), reveal_action(RPS::Rock, 7), 1),
        Err(Rejection::InvalidTransition)
    );
    let create = Actions::CreateGame { player_1_pubkey: key(1), commitment: ROCK_7, config: config(5) };
    assert_eq!(apply(key(0), created(5), create, 1), Err(Rejection::InvalidTransition));
}

#[test]
fn zero_wager_is_rejected() {
    let create = Actions::CreateGame { player_1_pubkey: key(1), commitment: ROCK_7, config: config(0) };
    assert_eq!(apply(key(0), GameState::Initialized, create, 1), Err(Rejection::ZeroWager));
}

#[test]
fn player_cannot_join_own_game() {
    let join = Actions::JoinGame { player_2_pubkey: key(1), choice: RPS::Rock, secret: None };
    assert_eq!(apply(key(0), created(5), join, 20), Err(Rejection::SamePlayer));
}

#[test]
fn join_at_last_slots_overflows() {
    let join = Actions::JoinGame { player_2_pubkey: key(2), choice: RPS::Rock, secret: None };
    assert_eq!(apply(key(0), created(5), join, u64::MAX), Err(Rejection::SlotOverflow));
    assert_eq!(apply(key(0), created(5), join, u64::MAX - REVEAL_WINDOW + 1), Err(Rejection::SlotOverflow));
    assert!(apply(key(0), created(5), join, u64::MAX - REVEAL_WINDOW).is_ok());
}

#[test]
fn largest_wager_pays_twice_the_stake() {
    let s2 = {
        let join = Actions::JoinGame { player_2_pubkey: key(2), choice: RPS::Scissors, secret: None };
        apply(key(0), created(u64::MAX), join, 20).unwrap()
    };
    match apply(key(0), s2, reveal_action(RPS::Rock, 7), 30).unwrap() {
        GameState::Resolved { payout_split, .. } => {
            assert_eq!(payout_split.player_1_amount, 2 * (u64::MAX as u128));
        }
        _ => panic!("expected Resolved"),
    }
}

#[test]
fn game_record_changes_only_on_acceptance() {
    let mut g = Game::new();
    assert_eq!(g.state, GameState::Initialized);
    assert_eq!(g.act(key(0), expire(), 1), Err(Rejection::InvalidTransition));
    assert_eq!(g.state, GameState::Initialized);
    let create = Actions::CreateGame { player_1_pubkey: key(1), commitment: ROCK_7, config: config(5) };
    assert_eq!(g.act(key(0), create, 1), Ok(()));
    assert_eq!(g.state, created(5));
}

#[test]
fn transfers_for_each_transition() {
    let create = Actions::CreateGame { player_1_pubkey: key(1), commitment: ROCK_7, config: config(5) };
    assert_eq!(
        transfers_for(&create, &created(5)),
        Some(vec![Transfer::Deposit { from: key(1), amount: 5 }])
    );
    assert_eq!(transfers_for(&create, &GameState::Initialized), None);
    let join = Actions::JoinGame { player_2_pubkey: key(2), choice: RPS::Rock, secret: None };
    assert_eq!(
        transfers_for(&join, &joined(RPS::Rock, 20)),
        Some(vec![Transfer::Deposit { from: key(2), amount: 5 }])
    );
    let won = apply(key(0), joined(RPS::Scissors, 20), reveal_action(RPS::Rock, 7), 30).unwrap();
    assert_eq!(
        transfers_for(&reveal_action(RPS::Rock, 7), &won),
        Some(vec![Transfer::Payout { to: key(1), amount: 10 }])
    );
    let drawn = apply(key(0), joined(RPS::Rock, 20), reveal_action(RPS::Rock, 7), 30).unwrap();
    assert_eq!(
        transfers_for(&reveal_action(RPS::Rock, 7), &drawn),
        Some(vec![
            Transfer::Payout { to: key(1), amount: 5 },
            Transfer::Payout { to: key(2), amount: 5 },
        ])
    );
    assert_eq!(
        transfers_for(&expire(), &expired_after_forfeit()),
        Some(vec![Transfer::Payout { to: key(2), amount: 10 }])
    );
    assert_eq!(transfers_for(&expire(), &won), None);
}

#[test]
fn plan_stages_transfers_or_rejects() {
    let s = joined(RPS::Paper, 100);
    assert_eq!(plan(key(0), s, expire(), 140), Err(Rejection::NotYetExpired));
    assert_eq!(
        plan(key(0), s, expire(), 151),
        Ok((
            expired_after_forfeit(),
            vec![Transfer::Payout { to: key(2), amount: 10 }]
        ))
    );
    let (next, transfers) = plan(key(0), s, reveal_action(RPS::Rock, 7), 120).unwrap();
    assert_eq!(next, apply(key(0), s, reveal_action(RPS::Rock, 7), 120).unwrap());
    assert_eq!(transfers, vec![Transfer::Payout { to: key(2), amount: 10 }]);
}

#[test]
fn expiry_disburses_both_stakes() {
    assert!(FORFEIT_UNREVEALED_STAKE);
    let s = joined(RPS::Paper, 100);
    let (next, transfers) = plan(key(0), s, expire(), 151).unwrap();
    assert_eq!(next, expired_after_forfeit());
    let total: u128 = transfers
        .iter()
        .map(|t| match t {
            Transfer::Payout { amount, .. } => *amount,
            Transfer::Deposit { .. } => panic!("a deposit on expiry"),
        })
        .sum();
    assert_eq!(total, 10);
}
