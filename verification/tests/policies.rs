use banqi_engine::engine::policies::{
    bucket_actions, CaptureFirstPolicy, Move, Policy, RevealFirstPolicy,
};

fn mv(action: usize, is_capture: bool, is_flip: bool) -> Move {
    Move { action, is_capture, is_flip }
}

/// A deterministic stream of positions, each given by its legal moves.
struct Positions {
    state: u64,
}

impl Positions {
    fn next(&mut self) -> u64 {
        self.state = self.state.wrapping_mul(6364136223846793005).wrapping_add(1442695040888963407);
        self.state >> 33
    }

    fn moves(&mut self) -> Vec<Move> {
        let count = self.next() % 12;
        let mut moves = Vec::new();
        for i in 0..count {
            let kind = self.next() % 4;
            moves.push(mv(i as usize * 5 + 1, kind == 0, kind == 1));
        }
        moves
    }

    fn step(&mut self, action: usize) {
        self.state = self.state.wrapping_add(action as u64);
    }
}

#[test]
fn capture_first_prefers_captures() {
    let mut checked = 0;
    for seed in 1..=64u64 {
        let mut positions = Positions { state: seed };
        for _ in 0..200 {
            let moves = positions.moves();
            if moves.iter().any(|m| m.is_capture) {
                let action = CaptureFirstPolicy::choose_action(&moves)
                    .expect("a capture is legal, so an action has to be chosen");
                let chosen = moves
                    .iter()
                    .find(|m| m.action == action)
                    .expect("the chosen action has to be legal");
                assert!(chosen.is_capture, "seed={seed}: a capture is legal but was not chosen");
                checked += 1;
            }
            if moves.is_empty() {
                break;
            }
            let pick = moves[(seed as usize * 7 + moves.len()) % moves.len()].action;
            positions.step(pick);
        }
    }
    assert!(checked > 0, "no position with a capture came up");
}

#[test]
fn buckets_keep_order_and_kind() {
    let moves = [
        mv(4, false, true),
        mv(9, true, false),
        mv(1, false, false),
        mv(7, true, true),
        mv(2, false, true),
    ];
    assert_eq!(bucket_actions(&moves), (vec![9, 7], vec![4, 2], vec![1]));
    assert_eq!(bucket_actions(&[]), (vec![], vec![], vec![]));
}

#[test]
fn buckets_hold_every_move_once() {
    let mut positions = Positions { state: 5 };
    for _ in 0..50 {
        let moves = positions.moves();
        let (captures, flips, others) = bucket_actions(&moves);
        let mut all: Vec<usize> = captures;
        all.extend(flips);
        all.extend(others);
        all.sort();
        let mut expected: Vec<usize> = moves.iter().map(|m| m.action).collect();
        expected.sort();
        assert_eq!(all, expected);
    }
}

#[test]
fn reveal_first_candidates_are_flips_while_there_are_any() {
    let moves = [mv(3, true, false), mv(5, false, true), mv(6, false, false), mv(8, false, true)];
    assert_eq!(RevealFirstPolicy::candidate_actions(&moves), vec![5, 8]);
    let no_flip = [mv(6, false, false), mv(3, true, false), mv(2, false, false)];
    assert_eq!(RevealFirstPolicy::candidate_actions(&no_flip), vec![3, 6, 2]);
    let capturing_flip = [mv(6, false, false), mv(4, true, true)];
    assert_eq!(RevealFirstPolicy::candidate_actions(&capturing_flip), vec![4, 6]);
    assert!(RevealFirstPolicy::candidate_actions(&[]).is_empty());
}

#[test]
fn capture_first_candidates_fall_back_in_order() {
    let all = [mv(3, true, false), mv(5, false, true), mv(6, false, false)];
    assert_eq!(CaptureFirstPolicy::candidate_actions(&all), vec![3]);
    assert_eq!(CaptureFirstPolicy::candidate_actions(&all[1..]), vec![5]);
    assert_eq!(CaptureFirstPolicy::candidate_actions(&all[2..]), vec![6]);
    assert!(CaptureFirstPolicy::candidate_actions(&[]).is_empty());
}

#[test]
fn no_move_means_no_action() {
    assert_eq!(RevealFirstPolicy::choose_action(&[]), None);
    assert_eq!(CaptureFirstPolicy::choose_action(&[]), None);
}

#[test]
fn a_single_candidate_is_chosen() {
    let moves = [mv(11, false, true), mv(12, false, false)];
    assert_eq!(RevealFirstPolicy::choose_action(&moves), Some(11));
    assert_eq!(CaptureFirstPolicy::choose_action(&moves), Some(11));
}

#[test]
fn every_candidate_is_chosen_sooner_or_later() {
    let moves = [mv(1, false, false), mv(2, false, false), mv(3, true, false)];
    let mut seen = [false; 4];
    for _ in 0..2000 {
        let action = RevealFirstPolicy::choose_action(&moves).expect("there are legal moves");
        assert!((1..=3).contains(&action));
        seen[action] = true;
    }
    assert_eq!(seen, [false, true, true, true]);
}
