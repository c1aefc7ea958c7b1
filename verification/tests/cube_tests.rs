use cubie::cube::Cubie;

fn is_permutation(slots: &[u8]) -> bool {
    let n = slots.len();
    let mut seen = vec![false; n];
    for &p in slots {
        if (p as usize) >= n || seen[p as usize] {
            return false;
        }
        seen[p as usize] = true;
    }
    true
}

fn scrambled() -> Cubie {
    let mut c = Cubie::default();
    c.B_plus();
    c.R_plus();
    c.U_plus();
    c.L_minus();
    c.D_plus();
    c
}

#[test]
fn default_is_solved() {
    let c = Cubie::default();
    assert!(c.is_solved());
    assert_eq!(c.corners_pos, [0, 1, 2, 3, 4, 5, 6, 7]);
    assert_eq!(c.corners_ori, [0; 8]);
    assert_eq!(c.edges_pos, [0, 1, 2, 3, 4, 5, 6, 7, 8, 9, 10, 11]);
    assert_eq!(c.edges_ori, [0; 12]);
}

#[test]
fn u_plus_literal_cycle() {
    let mut c = Cubie::default();
    c.U_plus();
    assert_eq!(c.corners_pos, [3, 0, 1, 2, 4, 5, 6, 7]);
    assert_eq!(c.corners_ori, [0; 8]);
    assert_eq!(c.edges_pos, [3, 0, 1, 2, 4, 5, 6, 7, 8, 9, 10, 11]);
    assert_eq!(c.edges_ori, [0; 12]);
    assert!(!c.is_solved());
}

#[test]
fn b_plus_literal_cycle() {
    let mut c = Cubie::default();
    c.B_plus();
    // slots 2,3,7,6 cycle: 2 <- 6, 6 <- 7, 7 <- 3, 3 <- 2
    assert_eq!(c.corners_pos, [0, 1, 6, 2, 4, 5, 7, 3]);
    // twists at the cycled slots follow the alternating 1,2,1,2 deltas
    assert_eq!(c.corners_ori, [0, 0, 1, 2, 0, 0, 2, 1]);
    assert_eq!(c.edges_pos, [0, 1, 9, 3, 4, 5, 10, 7, 8, 6, 2, 11]);
    // exactly the four touched edge slots 2,10,6,9 are flipped
    assert_eq!(c.edges_ori, [0, 0, 1, 0, 0, 0, 1, 0, 0, 1, 1, 0]);
}

#[test]
fn identity_closure_u() {
    let mut c = Cubie::default();
    c.U_plus();
    c.U_minus();
    assert!(c.is_solved());
    c.U_minus();
    c.U_plus();
    assert!(c.is_solved());
    let start = scrambled();
    let mut c = start;
    c.U_plus();
    c.U_minus();
    assert_eq!(c, start);
}

#[test]
fn identity_closure_d() {
    let mut c = Cubie::default();
    c.D_plus();
    c.D_minus();
    assert!(c.is_solved());
    c.D_minus();
    c.D_plus();
    assert!(c.is_solved());
    let start = scrambled();
    let mut c = start;
    c.D_minus();
    c.D_plus();
    assert_eq!(c, start);
}

#[test]
fn identity_closure_r_l_b() {
    let mut c = Cubie::default();
    c.R_plus();
    c.R_minus();
    assert!(c.is_solved());
    c.L_plus();
    c.L_minus();
    assert!(c.is_solved());
    c.B_plus();
    c.B_minus();
    assert!(c.is_solved());
    let start = scrambled();
    let mut c = start;
    c.R_minus();
    c.R_plus();
    assert_eq!(c, start);
    c.L_plus();
    c.L_minus();
    assert_eq!(c, start);
    c.B_minus();
    c.B_plus();
    assert_eq!(c, start);
}

#[test]
fn order_four_every_generator() {
    let start = scrambled();
    let moves: [fn(&mut Cubie); 10] = [
        Cubie::U_plus,
        Cubie::U_minus,
        Cubie::D_plus,
        Cubie::D_minus,
        Cubie::R_plus,
        Cubie::R_minus,
        Cubie::L_plus,
        Cubie::L_minus,
        Cubie::B_plus,
        Cubie::B_minus,
    ];
    for mv in moves {
        let mut c = start;
        mv(&mut c);
        assert_ne!(c, start);
        mv(&mut c);
        mv(&mut c);
        mv(&mut c);
        assert_eq!(c, start);
    }
}

#[test]
fn positions_stay_permutations() {
    let mut c = Cubie::default();
    let moves: [fn(&mut Cubie); 10] = [
        Cubie::U_plus,
        Cubie::B_plus,
        Cubie::R_minus,
        Cubie::L_plus,
        Cubie::D_minus,
        Cubie::B_minus,
        Cubie::U_minus,
        Cubie::R_plus,
        Cubie::L_minus,
        Cubie::D_plus,
    ];
    for mv in moves {
        mv(&mut c);
        assert!(is_permutation(&c.corners_pos));
        assert!(is_permutation(&c.edges_pos));
        assert!(c.corners_ori.iter().all(|&x| x < 3));
        assert!(c.edges_ori.iter().all(|&x| x < 2));
    }
}

#[test]
fn orientation_sums_stay_zero() {
    let mut c = Cubie::default();
    let moves: [fn(&mut Cubie); 10] = [
        Cubie::B_plus,
        Cubie::R_plus,
        Cubie::U_plus,
        Cubie::L_minus,
        Cubie::D_plus,
        Cubie::B_minus,
        Cubie::R_minus,
        Cubie::U_minus,
        Cubie::L_plus,
        Cubie::D_minus,
    ];
    for mv in moves {
        mv(&mut c);
        let corner_sum: u32 = c.corners_ori.iter().map(|&x| x as u32).sum();
        let edge_sum: u32 = c.edges_ori.iter().map(|&x| x as u32).sum();
        assert_eq!(corner_sum % 3, 0);
        assert_eq!(edge_sum % 2, 0);
    }
}

#[test]
fn scramble_cycle_returns_to_solved() {
    // repeating the fixed sequence R+, D+, L+, U+ first returns to solved
    // after 105 repetitions (420 single moves); recorded regression value
    let mut c = Cubie::default();
    let mut counter: u64 = 0;
    loop {
        c.R_plus();
        c.D_plus();
        c.L_plus();
        c.U_plus();
        counter += 4;
        if c.is_solved() || counter > 1_000_000 {
            break;
        }
    }
    assert!(c.is_solved());
    assert_eq!(counter, 420);
    assert_eq!(counter / 4, 105);
}

#[test]
fn u_and_d_commute() {
    let start = scrambled();
    let mut a = start;
    a.U_plus();
    a.D_plus();
    let mut b = start;
    b.D_plus();
    b.U_plus();
    assert_eq!(a, b);
}

#[test]
fn r_and_l_commute() {
    let start = scrambled();
    let mut a = start;
    a.R_plus();
    a.L_plus();
    let mut b = start;
    b.L_plus();
    b.R_plus();
    assert_eq!(a, b);
}

#[test]
fn randomize_zero_is_identity() {
    let start = scrambled();
    let mut c = start;
    c.randomize(0);
    assert_eq!(c, start);
}

#[test]
fn randomize_applies_moves() {
    // every one of the ten operators moves the solved state away from solved
    let mut c = Cubie::default();
    c.randomize(1);
    assert!(!c.is_solved());
}

#[test]
fn randomize_preserves_invariants() {
    let mut c = Cubie::default();
    c.randomize(200);
    assert!(is_permutation(&c.corners_pos));
    assert!(is_permutation(&c.edges_pos));
    assert!(c.corners_ori.iter().all(|&x| x < 3));
    assert!(c.edges_ori.iter().all(|&x| x < 2));
    let corner_sum: u32 = c.corners_ori.iter().map(|&x| x as u32).sum();
    let edge_sum: u32 = c.edges_ori.iter().map(|&x| x as u32).sum();
    assert_eq!(corner_sum % 3, 0);
    assert_eq!(edge_sum % 2, 0);
}
