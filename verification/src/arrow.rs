//! Arrows: their kinds, their states, and who picks up the ones stuck in walls.

use vstd::prelude::*;

verus! {

/// The kinds of arrow.
#[derive(Clone, Copy, Debug, PartialEq, Eq, Structural)]
pub enum ArrowType {
    Normal,
}

/// Whether an arrow still flies or is stuck in a wall.
#[derive(Clone, Copy, Debug, PartialEq, Eq, Structural)]
pub enum ArrowState {
    Flying,
    Stuck,
}

/// The arrows (by kind), among the first `n`, that `player` picks up: those
/// stuck in a wall that touch the player, in order.
pub open spec fn gained(
    arrows: Seq<(ArrowType, ArrowState)>,
    touching: Seq<Vec<bool>>,
    player: int,
    n: int,
) -> Seq<ArrowType>
    decreases n,
{
    if n <= 0 {
        Seq::empty()
    } else {
        let a = n - 1;
        gained(arrows, touching, player, n - 1) + if arrows[a].1 == ArrowState::Stuck
            && touching[a]@[player] {
            seq![arrows[a].0]
        } else {
            Seq::empty()
        }
    }
}

/// Whether some player picks up arrow `a`.
pub open spec fn picked_up(arrows: Seq<(ArrowType, ArrowState)>, touching: Seq<Vec<bool>>, a: int) -> bool {
    arrows[a].1 == ArrowState::Stuck && exists|p: int|
        0 <= p < touching[a].len() && #[trigger] touching[a]@[p]
}

/// Players pick up the stuck arrows they touch: each touching player adds the
/// arrow's kind to its inventory (several players touching one arrow each get
/// it). `touching[a][p]` tells whether arrow `a` touches player `p`. Returns
/// the picked-up arrows, in order, which leave the level.
pub fn collect_arrows(
    arrows: &Vec<(ArrowType, ArrowState)>,
    touching: &Vec<Vec<bool>>,
    inventories: &mut Vec<Vec<ArrowType>>,
) -> (picked: Vec<usize>)
    requires
        touching.len() == arrows.len(),
        forall|a: int| 0 <= a < touching.len() ==> (#[trigger] touching[a]).len() == old(inventories).len(),
    ensures
        final(inventories).len() == old(inventories).len(),
        forall|p: int|
            0 <= p < old(inventories).len() ==> (#[trigger] final(inventories)[p])@ == old(
                inventories,
            )[p]@ + gained(arrows@, touching@, p, arrows.len() as int),
        forall|k: int| 0 <= k < picked.len() ==> picked_up(arrows@, touching@, #[trigger] picked@[k] as int),
        forall|a: int|
            0 <= a < arrows.len() && picked_up(arrows@, touching@, a) ==> picked@.contains(a as usize),
        forall|k: int, l: int| 0 <= k < l < picked.len() ==> picked@[k] < picked@[l],
{
    let mut picked: Vec<usize> = Vec::new();
    let n_players = inventories.len();
    let ghost inv0 = inventories@;
    let mut a: usize = 0;
    while a < arrows.len()
        invariant
            a <= arrows.len(),
            touching.len() == arrows.len(),
            n_players == inv0.len(),
            inventories.len() == n_players,
            forall|x: int| 0 <= x < touching.len() ==> (#[trigger] touching[x]).len() == n_players,
            forall|p: int|
                0 <= p < n_players ==> (#[trigger] inventories[p])@ == inv0[p]@ + gained(
                    arrows@,
                    touching@,
                    p,
                    a as int,
                ),
            forall|k: int| 0 <= k < picked.len() ==> picked_up(arrows@, touching@, #[trigger] picked@[k] as int),
            forall|k: int| 0 <= k < picked.len() ==> #[trigger] picked@[k] < a,
            forall|x: int| 0 <= x < a && picked_up(arrows@, touching@, x) ==> picked@.contains(x as usize),
            forall|k: int, l: int| 0 <= k < l < picked.len() ==> picked@[k] < picked@[l],
        decreases arrows.len() - a,
    {
        let (kind, state) = arrows[a];
        let mut taken = false;
        let mut p: usize = 0;
        while p < n_players
            invariant
                a < arrows.len(),
                p <= n_players,
                touching.len() == arrows.len(),
                n_players == inv0.len(),
                inventories.len() == n_players,
                (kind, state) == arrows@[a as int],
                forall|x: int| 0 <= x < touching.len() ==> (#[trigger] touching[x]).len() == n_players,
                forall|q: int|
                    0 <= q < p ==> (#[trigger] inventories[q])@ == inv0[q]@ + gained(
                        arrows@,
                        touching@,
                        q,
                        a as int + 1,
                    ),
                forall|q: int|
                    p <= q < n_players ==> (#[trigger] inventories[q])@ == inv0[q]@ + gained(
                        arrows@,
                        touching@,
                        q,
                        a as int,
                    ),
                taken == (state == ArrowState::Stuck && exists|q: int|
                    0 <= q < p && #[trigger] touching[a as int]@[q]),
            decreases n_players - p,
        {
            let ghost before = inventories[p as int]@;
            if state == ArrowState::Stuck && touching[a][p] {
                inventories[p].push(kind);
                taken = true;
            }
            assert(inventories[p as int]@ =~= inv0[p as int]@ + gained(
                arrows@,
                touching@,
                p as int,
                a as int + 1,
            ));
            p = p + 1;
        }
        assert(taken == picked_up(arrows@, touching@, a as int));
        let ghost before = picked@;
        if taken {
            picked.push(a);
        }
        assert forall|x: int| 0 <= x < a + 1 && picked_up(arrows@, touching@, x) implies picked@.contains(
            x as usize,
        ) by {
            if x == a {
                assert(picked@[picked.len() - 1] == a);
            } else {
                let k = choose|k: int| 0 <= k < before.len() && before[k] == x as usize;
                assert(picked@[k] == x as usize);
            }
        }
        a = a + 1;
    }
    picked
}

} // verus!
