//! The cubie-level state of the puzzle and its face-turn operators.
//!
//! A configuration is four fixed-size arrays: which corner piece sits in
//! each of the 8 corner slots and how it is twisted (mod 3), and which edge
//! piece sits in each of the 12 edge slots and whether it is flipped (mod 2).
//! Each face quarter turn 4-cycles the slots of its face, the orientations
//! travelling with their pieces, and twists the corners it moves; the
//! inverse turns are three applications of the corresponding forward turn,
//! which exactly undoes one (a quarter turn has order four).

use vstd::prelude::*;
use rand::RngExt;

verus! {

/// One of the ten named move operators: the five face quarter-turn
/// generators and their inverses.
pub enum Move {
    UPlus,
    UMinus,
    DPlus,
    DMinus,
    RPlus,
    RMinus,
    LPlus,
    LMinus,
    BPlus,
    BMinus,
}

/// Mathematical model of one cube configuration: the four attribute arrays
/// as sequences.
#[verifier::ext_equal]
pub ghost struct CubieView {
    pub corners_pos: Seq<u8>,
    pub corners_ori: Seq<u8>,
    pub edges_pos: Seq<u8>,
    pub edges_ori: Seq<u8>,
}

impl CubieView {
    /// The four sequences have the lengths of the physical slot arrays.
    pub open spec fn dims_ok(self) -> bool {
        &&& self.corners_pos.len() == 8
        &&& self.corners_ori.len() == 8
        &&& self.edges_pos.len() == 12
        &&& self.edges_ori.len() == 12
    }

    /// `corners_pos` is a permutation of 0..8: in range and without
    /// duplicates.
    pub open spec fn corners_pos_is_permutation(self) -> bool {
        &&& forall|i: int| 0 <= i < 8 ==> self.corners_pos[i] < 8
        &&& forall|i: int, j: int|
            0 <= i < j < 8 ==> self.corners_pos[i] != self.corners_pos[j]
    }

    /// `edges_pos` is a permutation of 0..12: in range and without
    /// duplicates.
    pub open spec fn edges_pos_is_permutation(self) -> bool {
        &&& forall|i: int| 0 <= i < 12 ==> self.edges_pos[i] < 12
        &&& forall|i: int, j: int|
            0 <= i < j < 12 ==> self.edges_pos[i] != self.edges_pos[j]
    }

    /// Every corner twist lies in {0,1,2} and every edge flip in {0,1}.
    pub open spec fn oris_in_range(self) -> bool {
        &&& forall|i: int| 0 <= i < 8 ==> self.corners_ori[i] < 3
        &&& forall|i: int| 0 <= i < 12 ==> self.edges_ori[i] < 2
    }

    /// A well-formed configuration: right dimensions, both position arrays
    /// permutations of their domains, all orientations within their moduli.
    pub open spec fn wf(self) -> bool {
        &&& self.dims_ok()
        &&& self.corners_pos_is_permutation()
        &&& self.edges_pos_is_permutation()
        &&& self.oris_in_range()
    }
}

/// The canonical solved configuration: both position arrays are the
/// identity permutation and every orientation is zero.
pub open spec fn solved_view() -> CubieView {
    CubieView {
        corners_pos: Seq::new(8, |i: int| i as u8),
        corners_ori: Seq::new(8, |i: int| 0u8),
        edges_pos: Seq::new(12, |i: int| i as u8),
        edges_ori: Seq::new(12, |i: int| 0u8),
    }
}

/// The result of rotating the four entries of `s` at slots `a`, `b`, `c`,
/// `d` one step around that cycle: slot `a` receives the entry of `d`, `d`
/// that of `c`, `c` that of `b`, and `b` that of `a`.
pub open spec fn spec_cycle4<T>(s: Seq<T>, a: int, b: int, c: int, d: int) -> Seq<T> {
    s.update(a, s[d]).update(d, s[c]).update(c, s[b]).update(b, s[a])
}

/// A corner twist advanced by `d`, taken modulo 3.
pub open spec fn add3(x: u8, d: u8) -> u8 {
    (((x + d) % 3) as u8)
}

/// An edge flip toggled, taken modulo 2.
pub open spec fn flip2(x: u8) -> u8 {
    (((x + 1) % 2) as u8)
}

/// The corner-twist array after a face turn: the four slots on the turned
/// face each advance by their per-slot delta, modulo 3.
pub open spec fn spec_add_ori4(
    s: Seq<u8>,
    a: int,
    b: int,
    c: int,
    d: int,
    da: u8,
    db: u8,
    dc: u8,
    dd: u8,
) -> Seq<u8> {
    s.update(a, add3(s[a], da)).update(b, add3(s[b], db)).update(c, add3(s[c], dc)).update(
        d,
        add3(s[d], dd),
    )
}

/// The edge-flip array after a face turn that flips edges: the four slots on
/// the turned face are each toggled.
pub open spec fn spec_flip4(s: Seq<u8>, a: int, b: int, c: int, d: int) -> Seq<u8> {
    s.update(a, flip2(s[a])).update(b, flip2(s[b])).update(c, flip2(s[c])).update(
        d,
        flip2(s[d]),
    )
}

/// The effect of a `U+` quarter turn: the top-layer slots 0,1,2,3 cycle in
/// all four arrays; no orientation changes beyond the slot rotation.
pub open spec fn spec_u_plus(v: CubieView) -> CubieView {
    CubieView {
        corners_pos: spec_cycle4(v.corners_pos, 0, 1, 2, 3),
        corners_ori: spec_cycle4(v.corners_ori, 0, 1, 2, 3),
        edges_pos: spec_cycle4(v.edges_pos, 0, 1, 2, 3),
        edges_ori: spec_cycle4(v.edges_ori, 0, 1, 2, 3),
    }
}

/// `U-` is three `U+` quarter turns.
pub open spec fn spec_u_minus(v: CubieView) -> CubieView {
    spec_u_plus(spec_u_plus(spec_u_plus(v)))
}

/// The effect of a `D+` quarter turn: the bottom-layer slots 4,5,6,7 cycle
/// in all four arrays.
pub open spec fn spec_d_plus(v: CubieView) -> CubieView {
    CubieView {
        corners_pos: spec_cycle4(v.corners_pos, 4, 5, 6, 7),
        corners_ori: spec_cycle4(v.corners_ori, 4, 5, 6, 7),
        edges_pos: spec_cycle4(v.edges_pos, 4, 5, 6, 7),
        edges_ori: spec_cycle4(v.edges_ori, 4, 5, 6, 7),
    }
}

/// `D-` is three `D+` quarter turns.
pub open spec fn spec_d_minus(v: CubieView) -> CubieView {
    spec_d_plus(spec_d_plus(spec_d_plus(v)))
}

/// The effect of an `R+` quarter turn: corner slots 1,2,6,5 cycle — each
/// twist travels with its piece — and the four arriving pieces twist by the
/// alternating per-slot deltas 1,2,1,2; edge slots 1,9,5,8 cycle; no edge
/// flips.
pub open spec fn spec_r_plus(v: CubieView) -> CubieView {
    CubieView {
        corners_pos: spec_cycle4(v.corners_pos, 1, 2, 6, 5),
        corners_ori: spec_add_ori4(
            spec_cycle4(v.corners_ori, 1, 2, 6, 5),
            1,
            2,
            6,
            5,
            1,
            2,
            1,
            2,
        ),
        edges_pos: spec_cycle4(v.edges_pos, 1, 9, 5, 8),
        edges_ori: v.edges_ori,
    }
}

/// `R-` is three `R+` quarter turns.
pub open spec fn spec_r_minus(v: CubieView) -> CubieView {
    spec_r_plus(spec_r_plus(spec_r_plus(v)))
}

/// The effect of an `L+` quarter turn: corner slots 0,3,7,4 cycle — each
/// twist travels with its piece — and the four arriving pieces twist by the
/// alternating per-slot deltas 2,1,2,1; edge slots 3,11,7,10 cycle; no edge
/// flips.
pub open spec fn spec_l_plus(v: CubieView) -> CubieView {
    CubieView {
        corners_pos: spec_cycle4(v.corners_pos, 0, 3, 7, 4),
        corners_ori: spec_add_ori4(
            spec_cycle4(v.corners_ori, 0, 3, 7, 4),
            0,
            3,
            7,
            4,
            2,
            1,
            2,
            1,
        ),
        edges_pos: spec_cycle4(v.edges_pos, 3, 11, 7, 10),
        edges_ori: v.edges_ori,
    }
}

/// `L-` is three `L+` quarter turns.
pub open spec fn spec_l_minus(v: CubieView) -> CubieView {
    spec_l_plus(spec_l_plus(spec_l_plus(v)))
}

/// The effect of a `B+` quarter turn: corner slots 2,3,7,6 cycle — each
/// twist travels with its piece — and the four arriving pieces twist by the
/// alternating per-slot deltas 1,2,1,2; edge slots 2,10,6,9 cycle and the
/// flip state of each of those four slots is toggled.
pub open spec fn spec_b_plus(v: CubieView) -> CubieView {
    CubieView {
        corners_pos: spec_cycle4(v.corners_pos, 2, 3, 7, 6),
        corners_ori: spec_add_ori4(
            spec_cycle4(v.corners_ori, 2, 3, 7, 6),
            2,
            3,
            7,
            6,
            1,
            2,
            1,
            2,
        ),
        edges_pos: spec_cycle4(v.edges_pos, 2, 10, 6, 9),
        edges_ori: spec_flip4(v.edges_ori, 2, 10, 6, 9),
    }
}

/// `B-` is three `B+` quarter turns.
pub open spec fn spec_b_minus(v: CubieView) -> CubieView {
    spec_b_plus(spec_b_plus(spec_b_plus(v)))
}

/// The effect of one named move operator on a configuration.
pub open spec fn spec_move(v: CubieView, m: Move) -> CubieView {
    match m {
        Move::UPlus => spec_u_plus(v),
        Move::UMinus => spec_u_minus(v),
        Move::DPlus => spec_d_plus(v),
        Move::DMinus => spec_d_minus(v),
        Move::RPlus => spec_r_plus(v),
        Move::RMinus => spec_r_minus(v),
        Move::LPlus => spec_l_plus(v),
        Move::LMinus => spec_l_minus(v),
        Move::BPlus => spec_b_plus(v),
        Move::BMinus => spec_b_minus(v),
    }
}

/// The effect of a sequence of move operators, applied left to right.
pub open spec fn spec_moves(v: CubieView, ms: Seq<Move>) -> CubieView
    decreases ms.len(),
{
    if ms.len() == 0 {
        v
    } else {
        spec_move(spec_moves(v, ms.drop_last()), ms.last())
    }
}

/// Rotate the entries of `arr` at the four distinct slots `a`, `b`, `c`, `d`
/// one step: `a` receives the entry of `d`, `d` that of `c`, `c` that of
/// `b`, and `b` that of `a`.
fn cycle4<T: Copy, const N: usize>(arr: &mut [T; N], a: usize, b: usize, c: usize, d: usize)
    requires
        a < N,
        b < N,
        c < N,
        d < N,
        a != b,
        a != c,
        a != d,
        b != c,
        b != d,
        c != d,
    ensures
        final(arr)@ == spec_cycle4(old(arr)@, a as int, b as int, c as int, d as int),
{
    let tmp = arr[a];
    arr[a] = arr[d];
    arr[d] = arr[c];
    arr[c] = arr[b];
    arr[b] = tmp;
}

/// Advance the corner twists at the four distinct slots `a`, `b`, `c`, `d`
/// by the per-slot deltas, modulo 3.
fn add_corner_ori(
    arr: &mut [u8; 8],
    a: usize,
    b: usize,
    c: usize,
    d: usize,
    da: u8,
    db: u8,
    dc: u8,
    dd: u8,
)
    requires
        a < 8,
        b < 8,
        c < 8,
        d < 8,
        a != b,
        a != c,
        a != d,
        b != c,
        b != d,
        c != d,
        da < 3,
        db < 3,
        dc < 3,
        dd < 3,
    ensures
        final(arr)@ == spec_add_ori4(
            old(arr)@,
            a as int,
            b as int,
            c as int,
            d as int,
            da,
            db,
            dc,
            dd,
        ),
{
    arr[a] = (arr[a] % 3 + da) % 3;
    arr[b] = (arr[b] % 3 + db) % 3;
    arr[c] = (arr[c] % 3 + dc) % 3;
    arr[d] = (arr[d] % 3 + dd) % 3;
}

/// Cubie-level state of the puzzle. `corners_pos[s]` and `edges_pos[s]` name
/// the piece occupying slot `s`; `corners_ori[s]` and `edges_ori[s]` give the
/// twist (mod 3) respectively flip (mod 2) of the piece in that slot.
#[derive(Clone, Copy, Debug, PartialEq, Eq)]
pub struct Cubie {
    pub corners_pos: [u8; 8],
    pub corners_ori: [u8; 8],
    pub edges_pos: [u8; 12],
    pub edges_ori: [u8; 12],
}

impl View for Cubie {
    type V = CubieView;

    open spec fn view(&self) -> CubieView {
        CubieView {
            corners_pos: self.corners_pos@,
            corners_ori: self.corners_ori@,
            edges_pos: self.edges_pos@,
            edges_ori: self.edges_ori@,
        }
    }
}

impl Default for Cubie {
    /// The solved cube.
    fn default() -> (c: Cubie)
        ensures
            c@ == solved_view(),
            c@.wf(),
    {
        let c = Cubie {
            corners_pos: [0, 1, 2, 3, 4, 5, 6, 7],
            corners_ori: [0; 8],
            edges_pos: [0, 1, 2, 3, 4, 5, 6, 7, 8, 9, 10, 11],
            edges_ori: [0; 12],
        };
        proof {
            assert(c@.corners_pos =~= solved_view().corners_pos);
            assert(c@.corners_ori =~= solved_view().corners_ori);
            assert(c@.edges_pos =~= solved_view().edges_pos);
            assert(c@.edges_ori =~= solved_view().edges_ori);
        }
        c
    }
}

impl Cubie {
    /// True exactly when the state is the canonical solved configuration.
    pub fn is_solved(&self) -> (r: bool)
        ensures
            r == (self@ == solved_view()),
    {
        let mut i: usize = 0;
        while i < 8
            invariant
                i <= 8,
                forall|j: int|
                    0 <= j < i ==> self.corners_pos@[j] == j as u8
                        && self.corners_ori@[j] == 0u8,
            decreases 8 - i,
        {
            if self.corners_pos[i] != i as u8 || self.corners_ori[i] != 0 {
                return false;
            }
            i += 1;
        }
        let mut j: usize = 0;
        while j < 12
            invariant
                j <= 12,
                forall|k: int|
                    0 <= k < j ==> self.edges_pos@[k] == k as u8
                        && self.edges_ori@[k] == 0u8,
            decreases 12 - j,
        {
            if self.edges_pos[j] != j as u8 || self.edges_ori[j] != 0 {
                return false;
            }
            j += 1;
        }
        proof {
            assert(self@.corners_pos =~= solved_view().corners_pos);
            assert(self@.corners_ori =~= solved_view().corners_ori);
            assert(self@.edges_pos =~= solved_view().edges_pos);
            assert(self@.edges_ori =~= solved_view().edges_ori);
        }
        true
    }

    /// Apply `depth` moves, each chosen independently and uniformly at
    /// random from the ten named operators. Whatever the random source
    /// returns, the result is the given state transformed by some sequence
    /// of exactly `depth` moves.
    pub fn randomize(&mut self, depth: usize)
        ensures
            exists|ms: Seq<Move>|
                ms.len() == depth && final(self)@ == spec_moves(old(self)@, ms),
    {
        let ghost mut ms: Seq<Move> = Seq::empty();
        let mut k: usize = 0;
        while k < depth
            invariant
                k <= depth,
                ms.len() == k,
                self@ == spec_moves(old(self)@, ms),
            decreases depth - k,
        {
            let mv = random_move_index();
            proof {
                let m = chosen_move(mv);
                assert(ms.push(m).drop_last() =~= ms);
                ms = ms.push(m);
            }
            match mv {
                0 => self.R_plus(),
                1 => self.R_minus(),
                2 => self.L_plus(),
                3 => self.L_minus(),
                4 => self.U_plus(),
                5 => self.U_minus(),
                6 => self.D_plus(),
                7 => self.D_minus(),
                8 => self.B_plus(),
                _ => self.B_minus(),
            }
            k += 1;
        }
    }
}

/// The move operator that the randomize driver applies for a drawn index.
pub open spec fn chosen_move(mv: u8) -> Move {
    if mv == 0 {
        Move::RPlus
    } else if mv == 1 {
        Move::RMinus
    } else if mv == 2 {
        Move::LPlus
    } else if mv == 3 {
        Move::LMinus
    } else if mv == 4 {
        Move::UPlus
    } else if mv == 5 {
        Move::UMinus
    } else if mv == 6 {
        Move::DPlus
    } else if mv == 7 {
        Move::DMinus
    } else if mv == 8 {
        Move::BPlus
    } else {
        Move::BMinus
    }
}

/// Relies on rand::rng and rand::RngExt::random_range: one value drawn
/// uniformly at random from the half-open range 0..10 handed to it (the
/// range is non-empty, so the call does not panic).
#[verifier::external_body]
fn random_move_index() -> (r: u8)
    ensures
        r < 10,
{
    rand::rng().random_range(0u8..10)
}

#[allow(non_snake_case)]
impl Cubie {
    /// Quarter turn of the up face.
    pub fn U_plus(&mut self)
        ensures
            final(self)@ == spec_u_plus(old(self)@),
    {
        cycle4(&mut self.corners_pos, 0, 1, 2, 3);
        cycle4(&mut self.corners_ori, 0, 1, 2, 3);
        cycle4(&mut self.edges_pos, 0, 1, 2, 3);
        cycle4(&mut self.edges_ori, 0, 1, 2, 3);
    }

    /// Inverse quarter turn of the up face: three `U+` turns.
    pub fn U_minus(&mut self)
        ensures
            final(self)@ == spec_u_minus(old(self)@),
    {
        self.U_plus();
        self.U_plus();
        self.U_plus();
    }

    /// Quarter turn of the down face.
    pub fn D_plus(&mut self)
        ensures
            final(self)@ == spec_d_plus(old(self)@),
    {
        cycle4(&mut self.corners_pos, 4, 5, 6, 7);
        cycle4(&mut self.corners_ori, 4, 5, 6, 7);
        cycle4(&mut self.edges_pos, 4, 5, 6, 7);
        cycle4(&mut self.edges_ori, 4, 5, 6, 7);
    }

    /// Inverse quarter turn of the down face: three `D+` turns.
    pub fn D_minus(&mut self)
        ensures
            final(self)@ == spec_d_minus(old(self)@),
    {
        self.D_plus();
        self.D_plus();
        self.D_plus();
    }

    /// Quarter turn of the right face.
    pub fn R_plus(&mut self)
        ensures
            final(self)@ == spec_r_plus(old(self)@),
    {
        cycle4(&mut self.corners_pos, 1, 2, 6, 5);
        // the twists travel with their pieces, then the arrivals twist
        cycle4(&mut self.corners_ori, 1, 2, 6, 5);
        add_corner_ori(&mut self.corners_ori, 1, 2, 6, 5, 1, 2, 1, 2);
        cycle4(&mut self.edges_pos, 1, 9, 5, 8);
        // the R face does not flip edges
    }

    /// Inverse quarter turn of the right face: three `R+` turns.
    pub fn R_minus(&mut self)
        ensures
            final(self)@ == spec_r_minus(old(self)@),
    {
        self.R_plus();
        self.R_plus();
        self.R_plus();
    }

    /// Quarter turn of the left face.
    pub fn L_plus(&mut self)
        ensures
            final(self)@ == spec_l_plus(old(self)@),
    {
        cycle4(&mut self.corners_pos, 0, 3, 7, 4);
        // the twists travel with their pieces, then the arrivals twist
        cycle4(&mut self.corners_ori, 0, 3, 7, 4);
        add_corner_ori(&mut self.corners_ori, 0, 3, 7, 4, 2, 1, 2, 1);
        cycle4(&mut self.edges_pos, 3, 11, 7, 10);
        // the L face does not flip edges
    }

    /// Inverse quarter turn of the left face: three `L+` turns.
    pub fn L_minus(&mut self)
        ensures
            final(self)@ == spec_l_minus(old(self)@),
    {
        self.L_plus();
        self.L_plus();
        self.L_plus();
    }

    /// Quarter turn of the back face: the only generator that flips edges.
    pub fn B_plus(&mut self)
        ensures
            final(self)@ == spec_b_plus(old(self)@),
    {
        cycle4(&mut self.corners_pos, 2, 3, 7, 6);
        // the twists travel with their pieces, then the arrivals twist
        cycle4(&mut self.corners_ori, 2, 3, 7, 6);
        add_corner_ori(&mut self.corners_ori, 2, 3, 7, 6, 1, 2, 1, 2);
        cycle4(&mut self.edges_pos, 2, 10, 6, 9);
        // the B face flips the four edges it touches
        self.edges_ori[2] = (self.edges_ori[2] % 2 + 1) % 2;
        self.edges_ori[10] = (self.edges_ori[10] % 2 + 1) % 2;
        self.edges_ori[6] = (self.edges_ori[6] % 2 + 1) % 2;
        self.edges_ori[9] = (self.edges_ori[9] % 2 + 1) % 2;
    }

    /// Inverse quarter turn of the back face: three `B+` turns.
    pub fn B_minus(&mut self)
        ensures
            final(self)@ == spec_b_minus(old(self)@),
    {
        self.B_plus();
        self.B_plus();
        self.B_plus();
    }
}

} // verus!
