//! Algebraic laws of the move operators, proved over the model.
//!
//! The laws quantify over whole configurations and over arbitrary sequences
//! of operator applications: well-formedness (positions stay permutations,
//! orientations stay within their moduli) is preserved by every operator;
//! the orientation sums taken modulo their group orders are invariant along
//! any sequence of moves from the solved state; the up and down (and the
//! right and left) quarter turns commute; and every move operator has order
//! four, so each quarter turn is undone exactly by its derived inverse.

use vstd::prelude::*;
use crate::cube::CubieView;
use crate::cube::Move;
use crate::cube::solved_view;
use crate::cube::spec_b_plus;
use crate::cube::spec_r_minus;
use crate::cube::spec_l_minus;
use crate::cube::spec_b_minus;
use crate::cube::spec_d_minus;
use crate::cube::spec_d_plus;
use crate::cube::spec_l_plus;
use crate::cube::spec_move;
use crate::cube::spec_moves;
use crate::cube::spec_r_plus;
use crate::cube::spec_u_minus;
use crate::cube::spec_u_plus;

verus! {

/// The solved configuration is well-formed.
pub proof fn lemma_solved_wf()
    ensures
        solved_view().wf(),
{
}

proof fn lemma_u_plus_wf(v: CubieView)
    requires
        v.wf(),
    ensures
        spec_u_plus(v).wf(),
{
}

proof fn lemma_d_plus_wf(v: CubieView)
    requires
        v.wf(),
    ensures
        spec_d_plus(v).wf(),
{
}

proof fn lemma_r_plus_wf(v: CubieView)
    requires
        v.wf(),
    ensures
        spec_r_plus(v).wf(),
{
}

proof fn lemma_l_plus_wf(v: CubieView)
    requires
        v.wf(),
    ensures
        spec_l_plus(v).wf(),
{
}

proof fn lemma_b_plus_wf(v: CubieView)
    requires
        v.wf(),
    ensures
        spec_b_plus(v).wf(),
{
}

/// Law: every move operator preserves well-formedness — applied to a state
/// whose position arrays are permutations and whose orientations lie within
/// their moduli, it yields such a state again.
pub proof fn lemma_move_preserves_wf(v: CubieView, m: Move)
    requires
        v.wf(),
    ensures
        spec_move(v, m).wf(),
{
    match m {
        Move::UPlus => lemma_u_plus_wf(v),
        Move::UMinus => {
            lemma_u_plus_wf(v);
            lemma_u_plus_wf(spec_u_plus(v));
            lemma_u_plus_wf(spec_u_plus(spec_u_plus(v)));
        },
        Move::DPlus => lemma_d_plus_wf(v),
        Move::DMinus => {
            lemma_d_plus_wf(v);
            lemma_d_plus_wf(spec_d_plus(v));
            lemma_d_plus_wf(spec_d_plus(spec_d_plus(v)));
        },
        Move::RPlus => lemma_r_plus_wf(v),
        Move::RMinus => {
            lemma_r_plus_wf(v);
            lemma_r_plus_wf(spec_r_plus(v));
            lemma_r_plus_wf(spec_r_plus(spec_r_plus(v)));
        },
        Move::LPlus => lemma_l_plus_wf(v),
        Move::LMinus => {
            lemma_l_plus_wf(v);
            lemma_l_plus_wf(spec_l_plus(v));
            lemma_l_plus_wf(spec_l_plus(spec_l_plus(v)));
        },
        Move::BPlus => lemma_b_plus_wf(v),
        Move::BMinus => {
            lemma_b_plus_wf(v);
            lemma_b_plus_wf(spec_b_plus(v));
            lemma_b_plus_wf(spec_b_plus(spec_b_plus(v)));
        },
    }
}

/// Law: any sequence of move operators preserves well-formedness.
pub proof fn lemma_moves_preserve_wf(v: CubieView, ms: Seq<Move>)
    requires
        v.wf(),
    ensures
        spec_moves(v, ms).wf(),
    decreases ms.len(),
{
    if ms.len() > 0 {
        lemma_moves_preserve_wf(v, ms.drop_last());
        lemma_move_preserves_wf(spec_moves(v, ms.drop_last()), ms.last());
    }
}

/// Law: after any sequence of move operators starting from the solved
/// state, `corners_pos` is a permutation of 0..8, `edges_pos` is a
/// permutation of 0..12, every corner twist lies in {0,1,2} and every edge
/// flip lies in {0,1}.
pub proof fn lemma_reachable_wf(ms: Seq<Move>)
    ensures
        spec_moves(solved_view(), ms).wf(),
{
    lemma_solved_wf();
    lemma_moves_preserve_wf(solved_view(), ms);
}

proof fn lemma_u_plus_pow4(v: CubieView)
    requires
        v.dims_ok(),
    ensures
        spec_u_plus(spec_u_plus(spec_u_plus(spec_u_plus(v)))) == v,
{
    let w = spec_u_plus(spec_u_plus(spec_u_plus(spec_u_plus(v))));
    assert(w.corners_pos =~= v.corners_pos);
    assert(w.corners_ori =~= v.corners_ori);
    assert(w.edges_pos =~= v.edges_pos);
    assert(w.edges_ori =~= v.edges_ori);
    assert(w =~= v);
}

proof fn lemma_d_plus_pow4(v: CubieView)
    requires
        v.dims_ok(),
    ensures
        spec_d_plus(spec_d_plus(spec_d_plus(spec_d_plus(v)))) == v,
{
    let w = spec_d_plus(spec_d_plus(spec_d_plus(spec_d_plus(v))));
    assert(w.corners_pos =~= v.corners_pos);
    assert(w.corners_ori =~= v.corners_ori);
    assert(w.edges_pos =~= v.edges_pos);
    assert(w.edges_ori =~= v.edges_ori);
    assert(w =~= v);
}

#[verifier::rlimit(60)]
proof fn lemma_r_plus_pow4(v: CubieView)
    requires
        v.dims_ok(),
        v.oris_in_range(),
    ensures
        spec_r_plus(spec_r_plus(spec_r_plus(spec_r_plus(v)))) == v,
{
    let w = spec_r_plus(spec_r_plus(spec_r_plus(spec_r_plus(v))));
    assert(w.corners_pos =~= v.corners_pos);
    assert(w.corners_ori =~= v.corners_ori);
    assert(w.edges_pos =~= v.edges_pos);
    assert(w.edges_ori =~= v.edges_ori);
    assert(w =~= v);
}

#[verifier::rlimit(60)]
proof fn lemma_l_plus_pow4(v: CubieView)
    requires
        v.dims_ok(),
        v.oris_in_range(),
    ensures
        spec_l_plus(spec_l_plus(spec_l_plus(spec_l_plus(v)))) == v,
{
    let w = spec_l_plus(spec_l_plus(spec_l_plus(spec_l_plus(v))));
    assert(w.corners_pos =~= v.corners_pos);
    assert(w.corners_ori =~= v.corners_ori);
    assert(w.edges_pos =~= v.edges_pos);
    assert(w.edges_ori =~= v.edges_ori);
    assert(w =~= v);
}

#[verifier::rlimit(60)]
proof fn lemma_b_plus_pow4(v: CubieView)
    requires
        v.dims_ok(),
        v.oris_in_range(),
    ensures
        spec_b_plus(spec_b_plus(spec_b_plus(spec_b_plus(v)))) == v,
{
    let w = spec_b_plus(spec_b_plus(spec_b_plus(spec_b_plus(v))));
    assert(w.corners_pos =~= v.corners_pos);
    assert(w.corners_ori =~= v.corners_ori);
    assert(w.edges_pos =~= v.edges_pos);
    assert(w.edges_ori =~= v.edges_ori);
    assert(w =~= v);
}

/// Law: every move operator has order four — applying any one of the ten
/// four times in a row returns any state whose orientations lie within
/// their moduli unchanged. For the turns that twist corners the four
/// per-slot deltas gathered around the cycle sum to 0 modulo 3, and the
/// back turn's four edge toggles cancel modulo 2.
pub proof fn lemma_order_four(v: CubieView, m: Move)
    requires
        v.dims_ok(),
        v.oris_in_range(),
    ensures
        spec_move(spec_move(spec_move(spec_move(v, m), m), m), m) == v,
{
    match m {
        Move::UPlus | Move::UMinus => {
            lemma_u_plus_pow4(v);
            lemma_u_plus_pow4(spec_u_plus(spec_u_plus(spec_u_plus(spec_u_plus(v)))));
            lemma_u_plus_pow4(
                spec_u_plus(
                    spec_u_plus(
                        spec_u_plus(
                            spec_u_plus(spec_u_plus(spec_u_plus(spec_u_plus(spec_u_plus(v))))),
                        ),
                    ),
                ),
            );
        },
        Move::DPlus | Move::DMinus => {
            lemma_d_plus_pow4(v);
            lemma_d_plus_pow4(spec_d_plus(spec_d_plus(spec_d_plus(spec_d_plus(v)))));
            lemma_d_plus_pow4(
                spec_d_plus(
                    spec_d_plus(
                        spec_d_plus(
                            spec_d_plus(spec_d_plus(spec_d_plus(spec_d_plus(spec_d_plus(v))))),
                        ),
                    ),
                ),
            );
        },
        Move::RPlus | Move::RMinus => {
            lemma_r_plus_pow4(v);
            lemma_r_plus_pow4(spec_r_plus(spec_r_plus(spec_r_plus(spec_r_plus(v)))));
            lemma_r_plus_pow4(
                spec_r_plus(
                    spec_r_plus(
                        spec_r_plus(
                            spec_r_plus(spec_r_plus(spec_r_plus(spec_r_plus(spec_r_plus(v))))),
                        ),
                    ),
                ),
            );
        },
        Move::LPlus | Move::LMinus => {
            lemma_l_plus_pow4(v);
            lemma_l_plus_pow4(spec_l_plus(spec_l_plus(spec_l_plus(spec_l_plus(v)))));
            lemma_l_plus_pow4(
                spec_l_plus(
                    spec_l_plus(
                        spec_l_plus(
                            spec_l_plus(spec_l_plus(spec_l_plus(spec_l_plus(spec_l_plus(v))))),
                        ),
                    ),
                ),
            );
        },
        Move::BPlus | Move::BMinus => {
            lemma_b_plus_pow4(v);
            lemma_b_plus_pow4(spec_b_plus(spec_b_plus(spec_b_plus(spec_b_plus(v)))));
            lemma_b_plus_pow4(
                spec_b_plus(
                    spec_b_plus(
                        spec_b_plus(
                            spec_b_plus(spec_b_plus(spec_b_plus(spec_b_plus(spec_b_plus(v))))),
                        ),
                    ),
                ),
            );
        },
    }
}

/// Law: a `U+` turn followed by its inverse `U-` (or `U-` followed by `U+`)
/// restores the state exactly.
pub proof fn lemma_u_identity_closure(v: CubieView)
    requires
        v.dims_ok(),
    ensures
        spec_u_minus(spec_u_plus(v)) == v,
        spec_u_plus(spec_u_minus(v)) == v,
{
    lemma_u_plus_pow4(v);
}

/// Law: a `D+` turn followed by its inverse `D-` (or `D-` followed by `D+`)
/// restores the state exactly.
pub proof fn lemma_d_identity_closure(v: CubieView)
    requires
        v.dims_ok(),
    ensures
        spec_d_minus(spec_d_plus(v)) == v,
        spec_d_plus(spec_d_minus(v)) == v,
{
    lemma_d_plus_pow4(v);
}

/// Law: an `R+` turn followed by its inverse `R-` (or `R-` followed by
/// `R+`) restores any state whose orientations lie within their moduli.
pub proof fn lemma_r_identity_closure(v: CubieView)
    requires
        v.dims_ok(),
        v.oris_in_range(),
    ensures
        spec_r_minus(spec_r_plus(v)) == v,
        spec_r_plus(spec_r_minus(v)) == v,
{
    lemma_r_plus_pow4(v);
}

/// Law: an `L+` turn followed by its inverse `L-` (or `L-` followed by
/// `L+`) restores any state whose orientations lie within their moduli.
pub proof fn lemma_l_identity_closure(v: CubieView)
    requires
        v.dims_ok(),
        v.oris_in_range(),
    ensures
        spec_l_minus(spec_l_plus(v)) == v,
        spec_l_plus(spec_l_minus(v)) == v,
{
    lemma_l_plus_pow4(v);
}

/// Law: a `B+` turn followed by its inverse `B-` (or `B-` followed by
/// `B+`) restores any state whose orientations lie within their moduli.
pub proof fn lemma_b_identity_closure(v: CubieView)
    requires
        v.dims_ok(),
        v.oris_in_range(),
    ensures
        spec_b_minus(spec_b_plus(v)) == v,
        spec_b_plus(spec_b_minus(v)) == v,
{
    lemma_b_plus_pow4(v);
}

/// Law: `U+` and `D+` touch disjoint slot sets, so they commute — applied
/// in either order to the same state they yield identical results.
pub proof fn lemma_u_d_commute(v: CubieView)
    requires
        v.dims_ok(),
    ensures
        spec_d_plus(spec_u_plus(v)) == spec_u_plus(spec_d_plus(v)),
{
    let w1 = spec_d_plus(spec_u_plus(v));
    let w2 = spec_u_plus(spec_d_plus(v));
    assert(w1.corners_pos =~= w2.corners_pos);
    assert(w1.corners_ori =~= w2.corners_ori);
    assert(w1.edges_pos =~= w2.edges_pos);
    assert(w1.edges_ori =~= w2.edges_ori);
    assert(w1 =~= w2);
}

/// Law: `R+` and `L+` touch disjoint slot sets, so they commute — applied
/// in either order to the same state they yield identical results.
pub proof fn lemma_r_l_commute(v: CubieView)
    requires
        v.dims_ok(),
    ensures
        spec_l_plus(spec_r_plus(v)) == spec_r_plus(spec_l_plus(v)),
{
    let w1 = spec_l_plus(spec_r_plus(v));
    let w2 = spec_r_plus(spec_l_plus(v));
    assert(w1.corners_pos =~= w2.corners_pos);
    assert(w1.corners_ori =~= w2.corners_ori);
    assert(w1.edges_pos =~= w2.edges_pos);
    assert(w1.edges_ori =~= w2.edges_ori);
    assert(w1 =~= w2);
}

/// The total corner twist of a configuration.
pub open spec fn corner_ori_sum(v: CubieView) -> int {
    v.corners_ori[0] + v.corners_ori[1] + v.corners_ori[2] + v.corners_ori[3]
        + v.corners_ori[4] + v.corners_ori[5] + v.corners_ori[6] + v.corners_ori[7]
}

/// The total edge flip of a configuration.
pub open spec fn edge_ori_sum(v: CubieView) -> int {
    v.edges_ori[0] + v.edges_ori[1] + v.edges_ori[2] + v.edges_ori[3] + v.edges_ori[4]
        + v.edges_ori[5] + v.edges_ori[6] + v.edges_ori[7] + v.edges_ori[8] + v.edges_ori[9]
        + v.edges_ori[10] + v.edges_ori[11]
}

proof fn lemma_u_plus_sums(v: CubieView)
    requires
        v.wf(),
    ensures
        corner_ori_sum(spec_u_plus(v)) % 3 == corner_ori_sum(v) % 3,
        edge_ori_sum(spec_u_plus(v)) % 2 == edge_ori_sum(v) % 2,
{
}

proof fn lemma_d_plus_sums(v: CubieView)
    requires
        v.wf(),
    ensures
        corner_ori_sum(spec_d_plus(v)) % 3 == corner_ori_sum(v) % 3,
        edge_ori_sum(spec_d_plus(v)) % 2 == edge_ori_sum(v) % 2,
{
}

#[verifier::rlimit(50)]
proof fn lemma_r_plus_sums(v: CubieView)
    requires
        v.wf(),
    ensures
        corner_ori_sum(spec_r_plus(v)) % 3 == corner_ori_sum(v) % 3,
        edge_ori_sum(spec_r_plus(v)) % 2 == edge_ori_sum(v) % 2,
{
}

#[verifier::rlimit(50)]
proof fn lemma_l_plus_sums(v: CubieView)
    requires
        v.wf(),
    ensures
        corner_ori_sum(spec_l_plus(v)) % 3 == corner_ori_sum(v) % 3,
        edge_ori_sum(spec_l_plus(v)) % 2 == edge_ori_sum(v) % 2,
{
}

#[verifier::rlimit(50)]
proof fn lemma_b_plus_corner_sum(v: CubieView)
    requires
        v.wf(),
    ensures
        corner_ori_sum(spec_b_plus(v)) % 3 == corner_ori_sum(v) % 3,
{
}

#[verifier::rlimit(50)]
proof fn lemma_b_plus_edge_sum(v: CubieView)
    requires
        v.wf(),
    ensures
        edge_ori_sum(spec_b_plus(v)) % 2 == edge_ori_sum(v) % 2,
{
}

proof fn lemma_b_plus_sums(v: CubieView)
    requires
        v.wf(),
    ensures
        corner_ori_sum(spec_b_plus(v)) % 3 == corner_ori_sum(v) % 3,
        edge_ori_sum(spec_b_plus(v)) % 2 == edge_ori_sum(v) % 2,
{
    lemma_b_plus_corner_sum(v);
    lemma_b_plus_edge_sum(v);
}

/// Law: every move operator preserves the total corner twist modulo 3 and
/// the total edge flip modulo 2 of a well-formed state.
pub proof fn lemma_move_preserves_ori_sums(v: CubieView, m: Move)
    requires
        v.wf(),
    ensures
        corner_ori_sum(spec_move(v, m)) % 3 == corner_ori_sum(v) % 3,
        edge_ori_sum(spec_move(v, m)) % 2 == edge_ori_sum(v) % 2,
{
    match m {
        Move::UPlus => lemma_u_plus_sums(v),
        Move::UMinus => {
            lemma_u_plus_sums(v);
            lemma_u_plus_wf(v);
            lemma_u_plus_sums(spec_u_plus(v));
            lemma_u_plus_wf(spec_u_plus(v));
            lemma_u_plus_sums(spec_u_plus(spec_u_plus(v)));
        },
        Move::DPlus => lemma_d_plus_sums(v),
        Move::DMinus => {
            lemma_d_plus_sums(v);
            lemma_d_plus_wf(v);
            lemma_d_plus_sums(spec_d_plus(v));
            lemma_d_plus_wf(spec_d_plus(v));
            lemma_d_plus_sums(spec_d_plus(spec_d_plus(v)));
        },
        Move::RPlus => lemma_r_plus_sums(v),
        Move::RMinus => {
            lemma_r_plus_sums(v);
            lemma_r_plus_wf(v);
            lemma_r_plus_sums(spec_r_plus(v));
            lemma_r_plus_wf(spec_r_plus(v));
            lemma_r_plus_sums(spec_r_plus(spec_r_plus(v)));
        },
        Move::LPlus => lemma_l_plus_sums(v),
        Move::LMinus => {
            lemma_l_plus_sums(v);
            lemma_l_plus_wf(v);
            lemma_l_plus_sums(spec_l_plus(v));
            lemma_l_plus_wf(spec_l_plus(v));
            lemma_l_plus_sums(spec_l_plus(spec_l_plus(v)));
        },
        Move::BPlus => lemma_b_plus_sums(v),
        Move::BMinus => {
            lemma_b_plus_sums(v);
            lemma_b_plus_wf(v);
            lemma_b_plus_sums(spec_b_plus(v));
            lemma_b_plus_wf(spec_b_plus(v));
            lemma_b_plus_sums(spec_b_plus(spec_b_plus(v)));
        },
    }
}

/// Law: for every state reachable from the solved state by a sequence of
/// move operators, the sum of the corner twists is 0 modulo 3 and the sum
/// of the edge flips is 0 modulo 2.
pub proof fn lemma_reachable_ori_sums(ms: Seq<Move>)
    ensures
        corner_ori_sum(spec_moves(solved_view(), ms)) % 3 == 0,
        edge_ori_sum(spec_moves(solved_view(), ms)) % 2 == 0,
    decreases ms.len(),
{
    lemma_solved_wf();
    if ms.len() > 0 {
        lemma_reachable_ori_sums(ms.drop_last());
        lemma_moves_preserve_wf(solved_view(), ms.drop_last());
        lemma_move_preserves_ori_sums(spec_moves(solved_view(), ms.drop_last()), ms.last());
    }
}

} // verus!
