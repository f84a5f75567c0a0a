//! The population: selection, reproduction, the one-evaluation-per-step
//! protocol, and the best-so-far query.

use vstd::prelude::*;

use crate::individual::Individual;
use crate::order::{is_unordered, real_eq, real_le, real_lt};
use crate::settings::{same_config, Settings};
use crate::source::{drawn_from, sane_range, RandomSource};

verus! {

/// Whether selection exchanges a slot's pair: the personal best is taken
/// whenever it has no cost yet, or the current cost is no greater than the
/// personal best's. The tie favours movement on purpose, to keep the search
/// from stagnating; an incomparable pair fails both tests and stays put.
pub open spec fn wants_swap(c: Individual, b: Individual) -> bool {
    ||| b.cost is None
    ||| (c.cost is Some && b.cost is Some && real_le(c.cost->0, b.cost->0))
}

/// Selection breaks ties toward movement: two comparable equal costs make
/// the pair exchange, never stand still.
pub proof fn lemma_selection_tie_breaks_toward_movement(c: Individual, b: Individual)
    requires
        c.cost is Some,
        b.cost is Some,
        real_eq(c.cost->0, b.cost->0),
    ensures
        wants_swap(c, b),
{
}

/// What one selection pass leaves at a single slot: the pair exchanged when
/// [`wants_swap`] holds, and untouched otherwise.
pub open spec fn slot_selected(pc: Individual, pb: Individual, c: Individual, b: Individual) -> bool {
    if wants_swap(pc, pb) {
        c == pb && b == pc
    } else {
        c == pc && b == pb
    }
}

/// The current array a selection pass leaves: slotwise, the personal best
/// moves in wherever [`wants_swap`] holds.
pub open spec fn select_curr(pre_c: Seq<Individual>, pre_b: Seq<Individual>) -> Seq<Individual> {
    Seq::new(
        pre_c.len(),
        |i: int|
            if wants_swap(pre_c[i], pre_b[i]) {
                pre_b[i]
            } else {
                pre_c[i]
            },
    )
}

/// The personal-best array a selection pass leaves: slotwise, the current
/// individual moves in wherever [`wants_swap`] holds.
pub open spec fn select_best(pre_c: Seq<Individual>, pre_b: Seq<Individual>) -> Seq<Individual> {
    Seq::new(
        pre_b.len(),
        |i: int|
            if wants_swap(pre_c[i], pre_b[i]) {
                pre_c[i]
            } else {
                pre_b[i]
            },
    )
}

/// Whether `post` could have been bred from `base` with the pairwise
/// distinct donor slots `i1`, `i2`, `i3` of `bests` and the forced
/// dimension `fd`: every dimension is either the base's component unchanged
/// or a value the mutation arithmetic admits for exactly that dimension's
/// donors, and the forced dimension is such a mutant unconditionally — even
/// when the crossover probability is zero.
pub open spec fn donors_ok<G: Fn(u32, u32, u32, u32) -> u32>(
    g: G,
    bests: Seq<Individual>,
    base: Individual,
    post: Individual,
    dim: int,
    i1: int,
    i2: int,
    i3: int,
    fd: int,
) -> bool {
    &&& 0 <= i1 < bests.len()
    &&& 0 <= i2 < bests.len()
    &&& 0 <= i3 < bests.len()
    &&& i1 != i2 && i1 != i3 && i2 != i3
    &&& 0 <= fd < dim
    &&& forall|d: int|
        0 <= d < dim ==> (#[trigger] post.pos@[d]) == base.pos@[d] || call_ensures(
            g,
            (bests[i3].pos@[d], post.f, bests[i1].pos@[d], bests[i2].pos@[d]),
            post.pos@[d],
        )
    &&& call_ensures(
        g,
        (bests[i3].pos@[fd], post.f, bests[i1].pos@[fd], bests[i2].pos@[fd]),
        post.pos@[fd],
    )
}

/// What one reproduction pass leaves at a single slot: a costless fresh
/// individual of full dimensionality, control parameters either inherited
/// from the slot's personal best or redrawn inside their ranges, and a
/// position bred from some admissible donors and forced dimension.
pub open spec fn reproduced_slot<G: Fn(u32, u32, u32, u32) -> u32>(
    g: G,
    bests: Seq<Individual>,
    base: Individual,
    post: Individual,
    dim: int,
    cr_mm: (u32, u32),
    f_mm: (u32, u32),
) -> bool {
    &&& post.cost is None
    &&& post.pos.len() == dim
    &&& (sane_range(cr_mm.0, cr_mm.1) ==> post.cr == base.cr || drawn_from(
        post.cr,
        cr_mm.0,
        cr_mm.1,
    ))
    &&& (sane_range(f_mm.0, f_mm.1) ==> post.f == base.f || drawn_from(post.f, f_mm.0, f_mm.1))
    &&& exists|i1: int, i2: int, i3: int, fd: int|
        #[trigger] donors_ok(g, bests, base, post, dim, i1, i2, i3, fd)
}

/// What one reproduction pass does to the whole current array, given the
/// personal-best array it draws from.
pub open spec fn reproduced<G: Fn(u32, u32, u32, u32) -> u32>(
    g: G,
    bests: Seq<Individual>,
    post: Seq<Individual>,
    dim: int,
    cr_mm: (u32, u32),
    f_mm: (u32, u32),
) -> bool {
    &&& post.len() == bests.len()
    &&& forall|i: int|
        0 <= i < bests.len() ==> reproduced_slot(g, bests, bests[i], #[trigger] post[i], dim, cr_mm, f_mm)
}

/// What recording one evaluation does to the current array: only the
/// evaluated slot changes, and only its cost.
pub open spec fn costed(pre: Seq<Individual>, post: Seq<Individual>, idx: int, c: u32) -> bool {
    &&& 0 <= idx < pre.len()
    &&& post == pre.update(
        idx,
        (Individual { pos: pre[idx].pos, cost: Some(c), cr: pre[idx].cr, f: pre[idx].f }),
    )
}

/// How the global-best cache moves on one evaluation: it takes the fresh
/// cost exactly when there is no cache yet or the fresh cost is strictly
/// smaller; an incomparable cost never displaces it.
pub open spec fn cache_updated(
    pre_cache: Option<u32>,
    pre_idx: Option<usize>,
    c: u32,
    slot: usize,
    post_cache: Option<u32>,
    post_idx: Option<usize>,
) -> bool {
    if pre_cache is None || real_lt(c, pre_cache->0) {
        post_cache == Some(c) && post_idx == Some(slot)
    } else {
        post_cache == pre_cache && post_idx == pre_idx
    }
}

/// Copies a position vector, component for component.
fn clone_components(v: &Vec<u32>) -> (r: Vec<u32>)
    ensures
        r@ == v@,
{
    let mut r: Vec<u32> = Vec::new();
    let mut i: usize = 0;
    while i < v.len()
        invariant
            i <= v@.len(),
            r@.len() == i,
            forall|k: int| 0 <= k < i ==> r@[k] == v@[k],
        decreases v@.len() - i,
    {
        r.push(v[i]);
        i += 1;
    }
    proof {
        assert(r@ =~= v@);
    }
    r
}

/// Replaces the element at `i`, handing back the one that was there.
fn replace_at(v: &mut Vec<Individual>, i: usize, x: Individual) -> (r: Individual)
    requires
        i < old(v)@.len(),
    ensures
        final(v)@ == old(v)@.update(i as int, x),
        r == old(v)@[i as int],
{
    let r = v.remove(i);
    v.insert(i, x);
    proof {
        assert(v@ =~= old(v)@.update(i as int, x));
    }
    r
}

/// One selection pass over the two parallel arrays: every slot where
/// [`wants_swap`] holds exchanges its pair, transferring ownership both
/// ways; every other slot is left exactly as it was.
pub fn select_generation(curr: &mut Vec<Individual>, best: &mut Vec<Individual>)
    requires
        old(curr)@.len() == old(best)@.len(),
    ensures
        final(curr)@ == select_curr(old(curr)@, old(best)@),
        final(best)@ == select_best(old(curr)@, old(best)@),
{
    let n = curr.len();
    let mut i: usize = 0;
    while i < n
        invariant
            i <= n,
            n == old(curr)@.len(),
            n == old(best)@.len(),
            curr@.len() == n,
            best@.len() == n,
            forall|j: int|
                0 <= j < i ==> slot_selected(
                    old(curr)@[j],
                    old(best)@[j],
                    #[trigger] curr@[j],
                    best@[j],
                ),
            forall|j: int| i <= j < n ==> #[trigger] curr@[j] == old(curr)@[j],
            forall|j: int| i <= j < n ==> #[trigger] best@[j] == old(best)@[j],
        decreases n - i,
    {
        let ghost cpre = curr@;
        let ghost bpre = best@;
        let do_swap = if best[i].cost.is_none() {
            true
        } else if curr[i].cost.is_some() {
            crate::order::le(curr[i].cost.unwrap(), best[i].cost.unwrap())
        } else {
            false
        };
        proof {
            assert(do_swap == wants_swap(old(curr)@[i as int], old(best)@[i as int]));
        }
        if do_swap {
            let c_ind = curr.remove(i);
            let b_ind = best.remove(i);
            best.insert(i, c_ind);
            curr.insert(i, b_ind);
            proof {
                assert(curr@ =~= cpre.update(i as int, bpre[i as int]));
                assert(best@ =~= bpre.update(i as int, cpre[i as int]));
            }
        }
        proof {
            assert(slot_selected(
                old(curr)@[i as int],
                old(best)@[i as int],
                curr@[i as int],
                best@[i as int],
            ));
        }
        i += 1;
    }
    proof {
        assert forall|j: int| 0 <= j < n implies best@[j] == select_best(old(curr)@, old(best)@)[j]
            && curr@[j] == select_curr(old(curr)@, old(best)@)[j] by {
            assert(slot_selected(old(curr)@[j], old(best)@[j], curr@[j], best@[j]));
        }
        assert(curr@ =~= select_curr(old(curr)@, old(best)@));
        assert(best@ =~= select_best(old(curr)@, old(best)@));
    }
}

/// The population. Two parallel arrays of individuals, the configuration,
/// the global-best bookkeeping, the evaluation counter, and the countdown
/// of slots still unevaluated in the active generation.
pub struct Population<F, G, R> where
    F: Fn(Vec<u32>) -> u32,
    G: Fn(u32, u32, u32, u32) -> u32,
    R: RandomSource,
{
    /// The generation currently being evaluated.
    pub curr: Vec<Individual>,
    /// Each slot's personal best found so far, parallel to `curr`.
    pub best: Vec<Individual>,
    /// The configuration, including the random source it consumes.
    pub settings: Settings<F, G, R>,
    /// Slot of the global best, in `curr` or `best`; absent before the
    /// first evaluation.
    pub best_idx: Option<usize>,
    /// Copy of the global best's cost, for constant-time comparison.
    pub best_cost_cache: Option<u32>,
    /// How many times the cost function has been invoked.
    pub num_cost_evaluations: usize,
    /// The problem dimensionality.
    pub dim: usize,
    /// Slots of `curr` not yet evaluated in the active generation.
    pub pop_countdown: usize,
}

impl<F, G, R> Population<F, G, R> where
    F: Fn(Vec<u32>) -> u32,
    G: Fn(u32, u32, u32, u32) -> u32,
    R: RandomSource,
{
    /// The caller-supplied closures accept every argument the engine may
    /// hand them: any position of the problem's dimensionality for the cost
    /// function, and any four encodings for the mutation arithmetic.
    pub open spec fn callable(self) -> bool {
        &&& forall|pv: Vec<u32>|
            pv@.len() == self.dim ==> call_requires(self.settings.cost_function, (pv,))
        &&& forall|a: u32, b: u32, c: u32, d: u32| call_requires(self.settings.blend, (a, b, c, d))
    }

    /// Structural well-formedness: parallel arrays of the configured size,
    /// every position of the problem's dimensionality, and a population
    /// large enough to draw three distinct donors from.
    pub open spec fn shape_ok(self) -> bool {
        &&& self.curr@.len() == self.settings.pop_size
        &&& self.best@.len() == self.settings.pop_size
        &&& self.settings.pop_size >= 3
        &&& self.dim == self.settings.min_max_pos@.len()
        &&& self.dim >= 1
        &&& forall|i: int| 0 <= i < self.curr@.len() ==> (#[trigger] self.curr@[i]).pos@.len() == self.dim
        &&& forall|i: int| 0 <= i < self.best@.len() ==> (#[trigger] self.best@[i]).pos@.len() == self.dim
        &&& self.callable()
    }

    /// The full invariant: shape, a countdown within bounds, every slot at
    /// or above the countdown already evaluated, and global-best
    /// bookkeeping that points at a slot holding a cost on at least one
    /// side.
    pub open spec fn wf(self) -> bool {
        &&& self.shape_ok()
        &&& self.pop_countdown <= self.settings.pop_size
        &&& (self.best_idx is Some <==> self.best_cost_cache is Some)
        &&& (self.best_idx is Some ==> self.best_idx->0 < self.settings.pop_size)
        &&& (self.best_idx is Some ==> (self.curr@[self.best_idx->0 as int].cost is Some
            || self.best@[self.best_idx->0 as int].cost is Some))
        &&& forall|i: int|
            self.pop_countdown <= i < self.curr@.len() ==> (#[trigger] self.curr@[i]).cost is Some
    }

    /// What a population looks like straight out of construction: nothing
    /// evaluated, a full countdown, no global best, every current
    /// individual seeded inside the configured ranges, and every
    /// personal-best slot a placeholder with an all-zero position.
    pub open spec fn freshly_seeded(self) -> bool {
        &&& self.num_cost_evaluations == 0
        &&& self.pop_countdown == self.settings.pop_size
        &&& self.best_idx is None
        &&& self.best_cost_cache is None
        &&& forall|i: int| 0 <= i < self.curr@.len() ==> (#[trigger] self.curr@[i]).cost is None
        &&& forall|i: int, d: int|
            0 <= i < self.curr@.len() && 0 <= d < self.dim && sane_range(
                self.settings.min_max_pos@[d].0,
                self.settings.min_max_pos@[d].1,
            ) ==> drawn_from(
                #[trigger] self.curr@[i].pos@[d],
                self.settings.min_max_pos@[d].0,
                self.settings.min_max_pos@[d].1,
            )
        &&& forall|i: int|
            0 <= i < self.curr@.len() && sane_range(
                self.settings.cr_min_max.0,
                self.settings.cr_min_max.1,
            ) ==> drawn_from(
                (#[trigger] self.curr@[i]).cr,
                self.settings.cr_min_max.0,
                self.settings.cr_min_max.1,
            )
        &&& forall|i: int|
            0 <= i < self.curr@.len() && sane_range(
                self.settings.f_min_max.0,
                self.settings.f_min_max.1,
            ) ==> drawn_from(
                (#[trigger] self.curr@[i]).f,
                self.settings.f_min_max.0,
                self.settings.f_min_max.1,
            )
        &&& forall|i: int|
            0 <= i < self.best@.len() ==> (#[trigger] self.best@[i]).cost is None
        &&& forall|i: int, d: int|
            0 <= i < self.best@.len() && 0 <= d < self.dim ==> (#[trigger] self.best@[i].pos@[d])
                == 0u32
    }

    /// How one call to `eval` relates the population before to the
    /// population after: the counter advances by one; the countdown steps
    /// down, wrapping from zero to one below the population size after a
    /// generation boundary; at a boundary, one selection pass and one
    /// reproduction pass happen first; then exactly the slot at the new
    /// countdown is evaluated, its fresh cost is an admissible output of
    /// the cost function on exactly that slot's position, and the
    /// global-best cache takes it exactly when it improves.
    pub open spec fn evolved(pre: Self, post: Self) -> bool {
        let n = pre.settings.pop_size;
        let idx = if pre.pop_countdown == 0 {
            n - 1
        } else {
            pre.pop_countdown - 1
        };
        let stage_best = if pre.pop_countdown == 0 {
            select_best(pre.curr@, pre.best@)
        } else {
            pre.best@
        };
        &&& same_config(post.settings, pre.settings)
        &&& post.dim == pre.dim
        &&& post.num_cost_evaluations == pre.num_cost_evaluations + 1
        &&& post.pop_countdown == idx
        &&& post.best@ == stage_best
        &&& exists|stage_curr: Seq<Individual>, c: u32|
            #[trigger] Self::evolved_through(pre, post, stage_curr, c)
    }

    /// The body of [`Self::evolved`]'s existential: `stage_curr` is the
    /// current array right before the evaluation (reproduced afresh at a
    /// generation boundary, the previous array otherwise) and `c` the
    /// fresh cost the evaluated slot received.
    pub open spec fn evolved_through(
        pre: Self,
        post: Self,
        stage_curr: Seq<Individual>,
        c: u32,
    ) -> bool {
        let n = pre.settings.pop_size;
        let idx = if pre.pop_countdown == 0 {
            n - 1
        } else {
            pre.pop_countdown - 1
        };
        let stage_best = if pre.pop_countdown == 0 {
            select_best(pre.curr@, pre.best@)
        } else {
            pre.best@
        };
        &&& (if pre.pop_countdown == 0 {
            reproduced(
                pre.settings.blend,
                stage_best,
                stage_curr,
                pre.dim as int,
                pre.settings.cr_min_max,
                pre.settings.f_min_max,
            )
        } else {
            stage_curr == pre.curr@
        })
        &&& (exists|arg: Vec<u32>|
            arg@ == stage_curr[idx].pos@ && call_ensures(pre.settings.cost_function, (arg,), c))
        &&& costed(stage_curr, post.curr@, idx, c)
        &&& cache_updated(
            pre.best_cost_cache,
            pre.best_idx,
            c,
            idx as usize,
            post.best_cost_cache,
            post.best_idx,
        )
    }

    /// Returns the best cost and position found so far, or nothing before
    /// the first evaluation: the slot the global-best index names is
    /// resolved at query time, taking whichever of its current and
    /// personal-best sides holds the strictly lower cost, and the side
    /// that holds one at all when only one does.
    pub fn best(&self) -> (r: Option<(u32, Vec<u32>)>)
        requires
            self.wf(),
        ensures
            r is Some <==> self.best_idx is Some,
            r matches Some(p) ==> (self.resolved_best() matches Some(q) && p.0 == q.0 && p.1@
                == q.1),
            r matches Some(p) ==> p.1@.len() == self.dim,
    {
        match self.best_idx {
            None => None,
            Some(bi) => {
                if self.curr[bi].cost.is_none() {
                    Some((self.best[bi].cost.unwrap(), clone_components(&self.best[bi].pos)))
                } else if self.best[bi].cost.is_none() {
                    Some((self.curr[bi].cost.unwrap(), clone_components(&self.curr[bi].pos)))
                } else if crate::order::lt(
                    self.curr[bi].cost.unwrap(),
                    self.best[bi].cost.unwrap(),
                ) {
                    Some((self.curr[bi].cost.unwrap(), clone_components(&self.curr[bi].pos)))
                } else {
                    Some((self.best[bi].cost.unwrap(), clone_components(&self.best[bi].pos)))
                }
            },
        }
    }

    /// Total number of cost-function invocations performed so far.
    pub fn num_cost_evaluations(&self) -> (r: usize)
        ensures
            r == self.num_cost_evaluations,
    {
        self.num_cost_evaluations
    }

    /// Number of individuals of the active generation still awaiting
    /// evaluation.
    pub fn countdown(&self) -> (r: usize)
        ensures
            r == self.pop_countdown,
    {
        self.pop_countdown
    }

    /// Advances by exactly one evaluation and returns the best cost known
    /// after it: the one-step form of the lazy iteration sequence, which
    /// the caller drives with whatever stopping rule it likes.
    pub fn step(&mut self) -> (r: Option<u32>)
        requires
            old(self).wf(),
            old(self).num_cost_evaluations < usize::MAX,
        ensures
            final(self).wf(),
            Self::evolved(*old(self), *final(self)),
            r == final(self).best_cost_cache,
            r is Some,
    {
        self.eval();
        self.best_cost_cache
    }

    /// Runs one selection pass over the whole population, updating each
    /// slot's personal best; nothing else changes, the random source
    /// included.
    pub fn update_best(&mut self)
        requires
            old(self).curr@.len() == old(self).best@.len(),
        ensures
            final(self).curr@ == select_curr(old(self).curr@, old(self).best@),
            final(self).best@ == select_best(old(self).curr@, old(self).best@),
            final(self).settings == old(self).settings,
            final(self).best_idx == old(self).best_idx,
            final(self).best_cost_cache == old(self).best_cost_cache,
            final(self).num_cost_evaluations == old(self).num_cost_evaluations,
            final(self).dim == old(self).dim,
            final(self).pop_countdown == old(self).pop_countdown,
    {
        select_generation(&mut self.curr, &mut self.best);
    }

    /// Creates a population from the given settings: both arrays allocated
    /// at the configured size, every current individual's control
    /// parameters and position components drawn uniformly inside their
    /// configured ranges, every personal-best slot a costless placeholder
    /// with an all-zero position, and no cost evaluation performed.
    ///
    /// The bounds sequence must not be empty, and the population must be
    /// large enough to draw three pairwise distinct donor indices from.
    pub fn new(s: Settings<F, G, R>) -> (p: Population<F, G, R>)
        requires
            s.min_max_pos@.len() >= 1,
            s.pop_size >= 3,
            forall|pv: Vec<u32>|
                pv@.len() == s.min_max_pos@.len() ==> call_requires(s.cost_function, (pv,)),
            forall|a: u32, b: u32, c: u32, d: u32| call_requires(s.blend, (a, b, c, d)),
        ensures
            p.wf(),
            p.freshly_seeded(),
            same_config(p.settings, s),
            p.dim == s.min_max_pos@.len(),
    {
        let mut s = s;
        let ghost s0 = s;
        let dim = s.min_max_pos.len();
        let pop_size = s.pop_size;

        let mut best: Vec<Individual> = Vec::new();
        let mut k: usize = 0;
        while k < pop_size
            invariant
                k <= pop_size,
                best@.len() == k,
                forall|i: int| 0 <= i < k ==> (#[trigger] best@[i]).cost is None,
                forall|i: int| 0 <= i < k ==> (#[trigger] best@[i]).pos@.len() == dim,
                forall|i: int, d: int|
                    0 <= i < k && 0 <= d < dim ==> (#[trigger] best@[i].pos@[d]) == 0u32,
            decreases pop_size - k,
        {
            let zeros = vec![0u32; dim];
            best.push(Individual { pos: zeros, cost: None, cr: 0, f: 0 });
            k += 1;
        }

        let mut curr: Vec<Individual> = Vec::new();
        let mut i: usize = 0;
        while i < pop_size
            invariant
                i <= pop_size,
                curr@.len() == i,
                same_config(s, s0),
                dim == s0.min_max_pos@.len(),
                forall|j: int| 0 <= j < i ==> (#[trigger] curr@[j]).cost is None,
                forall|j: int| 0 <= j < i ==> (#[trigger] curr@[j]).pos@.len() == dim,
                forall|j: int, d: int|
                    0 <= j < i && 0 <= d < dim && sane_range(
                        s0.min_max_pos@[d].0,
                        s0.min_max_pos@[d].1,
                    ) ==> drawn_from(
                        #[trigger] curr@[j].pos@[d],
                        s0.min_max_pos@[d].0,
                        s0.min_max_pos@[d].1,
                    ),
                forall|j: int|
                    0 <= j < i && sane_range(s0.cr_min_max.0, s0.cr_min_max.1) ==> drawn_from(
                        (#[trigger] curr@[j]).cr,
                        s0.cr_min_max.0,
                        s0.cr_min_max.1,
                    ),
                forall|j: int|
                    0 <= j < i && sane_range(s0.f_min_max.0, s0.f_min_max.1) ==> drawn_from(
                        (#[trigger] curr@[j]).f,
                        s0.f_min_max.0,
                        s0.f_min_max.1,
                    ),
            decreases pop_size - i,
        {
            let cr = s.rng.draw(s.cr_min_max.0, s.cr_min_max.1);
            let fv = s.rng.draw(s.f_min_max.0, s.f_min_max.1);
            let mut pos: Vec<u32> = Vec::new();
            let mut d: usize = 0;
            while d < dim
                invariant
                    d <= dim,
                    pos@.len() == d,
                    same_config(s, s0),
                    dim == s0.min_max_pos@.len(),
                    forall|e: int|
                        0 <= e < d && sane_range(
                            s0.min_max_pos@[e].0,
                            s0.min_max_pos@[e].1,
                        ) ==> drawn_from(
                            #[trigger] pos@[e],
                            s0.min_max_pos@[e].0,
                            s0.min_max_pos@[e].1,
                        ),
                decreases dim - d,
            {
                let bounds = s.min_max_pos[d];
                pos.push(s.rng.draw(bounds.0, bounds.1));
                d += 1;
            }
            curr.push(Individual { pos, cost: None, cr, f: fv });
            i += 1;
        }

        Population {
            curr,
            best,
            best_idx: None,
            best_cost_cache: None,
            num_cost_evaluations: 0,
            dim,
            pop_countdown: pop_size,
            settings: s,
        }
    }

    /// One reproduction pass: every slot of the current array is rebuilt
    /// from the personal-best array. For each slot, three pairwise distinct
    /// donor slots are drawn, the control parameters self-adapt (each is
    /// redrawn inside its range with its configured probability, otherwise
    /// inherited from the slot's personal best), a forced dimension is
    /// drawn, and then every dimension that is forced or wins a crossover
    /// draw against `cr` takes the mutant value `b3 + f * (b1 - b2)` over
    /// the donors' components, while every other dimension keeps the
    /// slot's personal-best component. The fresh individual's cost is
    /// cleared for re-evaluation. The personal-best array itself, and all
    /// bookkeeping, stay untouched.
    pub fn update_positions(&mut self)
        requires
            old(self).shape_ok(),
        ensures
            final(self).shape_ok(),
            reproduced(
                old(self).settings.blend,
                old(self).best@,
                final(self).curr@,
                old(self).dim as int,
                old(self).settings.cr_min_max,
                old(self).settings.f_min_max,
            ),
            final(self).best@ == old(self).best@,
            same_config(final(self).settings, old(self).settings),
            final(self).best_idx == old(self).best_idx,
            final(self).best_cost_cache == old(self).best_cost_cache,
            final(self).num_cost_evaluations == old(self).num_cost_evaluations,
            final(self).dim == old(self).dim,
            final(self).pop_countdown == old(self).pop_countdown,
    {
        let n = self.settings.pop_size;
        let dim = self.dim;
        let mut i: usize = 0;
        while i < n
            invariant
                i <= n,
                self.shape_ok(),
                dim == self.dim,
                n == self.settings.pop_size,
                same_config(self.settings, old(self).settings),
                self.best@ == old(self).best@,
                self.best_idx == old(self).best_idx,
                self.best_cost_cache == old(self).best_cost_cache,
                self.num_cost_evaluations == old(self).num_cost_evaluations,
                self.pop_countdown == old(self).pop_countdown,
                forall|j: int|
                    0 <= j < i ==> reproduced_slot(
                        old(self).settings.blend,
                        old(self).best@,
                        old(self).best@[j],
                        #[trigger] self.curr@[j],
                        dim as int,
                        old(self).settings.cr_min_max,
                        old(self).settings.f_min_max,
                    ),
            decreases n - i,
        {
            let id1 = self.settings.rng.pick(n);
            let t2 = self.settings.rng.pick(n - 1);
            let id2 = if t2 >= id1 {
                t2 + 1
            } else {
                t2
            };
            let lo = if id1 < id2 {
                id1
            } else {
                id2
            };
            let hi = if id1 < id2 {
                id2
            } else {
                id1
            };
            let t3 = self.settings.rng.pick(n - 2);
            let mut id3 = t3;
            if id3 >= lo {
                id3 = id3 + 1;
            }
            if id3 >= hi {
                id3 = id3 + 1;
            }

            let u = self.settings.rng.fraction();
            let new_cr = if crate::order::lt(u, self.settings.cr_change_probability) {
                self.settings.rng.draw(self.settings.cr_min_max.0, self.settings.cr_min_max.1)
            } else {
                self.best[i].cr
            };
            let w = self.settings.rng.fraction();
            let new_f = if crate::order::lt(w, self.settings.f_change_probability) {
                self.settings.rng.draw(self.settings.f_min_max.0, self.settings.f_min_max.1)
            } else {
                self.best[i].f
            };
            let forced = self.settings.rng.pick(dim);

            let ghost curr_snap = self.curr@;
            let mut npos: Vec<u32> = Vec::new();
            let mut d: usize = 0;
            while d < dim
                invariant
                    d <= dim,
                    npos@.len() == d,
                    i < n,
                    id1 < n,
                    id2 < n,
                    id3 < n,
                    id1 != id2,
                    id1 != id3,
                    id2 != id3,
                    forced < dim,
                    self.shape_ok(),
                    dim == self.dim,
                    n == self.settings.pop_size,
                    same_config(self.settings, old(self).settings),
                    self.best@ == old(self).best@,
                    self.best_idx == old(self).best_idx,
                    self.best_cost_cache == old(self).best_cost_cache,
                    self.num_cost_evaluations == old(self).num_cost_evaluations,
                    self.pop_countdown == old(self).pop_countdown,
                    self.curr@ == curr_snap,
                    forall|e: int|
                        0 <= e < d ==> (#[trigger] npos@[e]) == old(self).best@[i as int].pos@[e]
                            || call_ensures(
                            old(self).settings.blend,
                            (
                                old(self).best@[id3 as int].pos@[e],
                                new_f,
                                old(self).best@[id1 as int].pos@[e],
                                old(self).best@[id2 as int].pos@[e],
                            ),
                            npos@[e],
                        ),
                    d > forced ==> call_ensures(
                        old(self).settings.blend,
                        (
                            old(self).best@[id3 as int].pos@[forced as int],
                            new_f,
                            old(self).best@[id1 as int].pos@[forced as int],
                            old(self).best@[id2 as int].pos@[forced as int],
                        ),
                        npos@[forced as int],
                    ),
                decreases dim - d,
            {
                let mutate = if d == forced {
                    true
                } else {
                    let t = self.settings.rng.fraction();
                    crate::order::lt(t, new_cr)
                };
                let val = if mutate {
                    (self.settings.blend)(
                        self.best[id3].pos[d],
                        new_f,
                        self.best[id1].pos[d],
                        self.best[id2].pos[d],
                    )
                } else {
                    self.best[i].pos[d]
                };
                npos.push(val);
                d += 1;
            }
            let fresh = Individual { pos: npos, cost: None, cr: new_cr, f: new_f };
            let _former = replace_at(&mut self.curr, i, fresh);
            proof {
                assert(donors_ok(
                    old(self).settings.blend,
                    old(self).best@,
                    old(self).best@[i as int],
                    self.curr@[i as int],
                    dim as int,
                    id1 as int,
                    id2 as int,
                    id3 as int,
                    forced as int,
                ));
            }
            i += 1;
        }
    }

    /// Performs a single cost evaluation. At a generation boundary — the
    /// countdown exhausted — it first runs one selection pass and one
    /// reproduction pass and refills the countdown. Then the countdown
    /// steps down, the slot it now names is evaluated with exactly one
    /// cost-function invocation, and the global best moves to the fresh
    /// cost exactly when it strictly improves.
    #[verifier::rlimit(60)]
    pub fn eval(&mut self)
        requires
            old(self).wf(),
            old(self).num_cost_evaluations < usize::MAX,
        ensures
            final(self).wf(),
            Self::evolved(*old(self), *final(self)),
            final(self).best_cost_cache is Some,
            old(self).best_cost_cache matches Some(b) ==> (final(self).best_cost_cache
                == old(self).best_cost_cache || (final(self).best_cost_cache matches Some(nb)
                && real_lt(nb, b))),
    {
        if self.pop_countdown == 0 {
            self.update_best();
            self.update_positions();
            self.pop_countdown = self.settings.pop_size;
        }
        self.pop_countdown = self.pop_countdown - 1;
        let idx = self.pop_countdown;
        let ghost stage_curr = self.curr@;
        let arg = clone_components(&self.curr[idx].pos);
        let ghost garg = arg;
        let c = (self.settings.cost_function)(arg);
        // take the evaluated slot out, record its fresh cost, put it back
        let mut ind = replace_at(
            &mut self.curr,
            idx,
            (Individual { pos: Vec::new(), cost: None, cr: 0, f: 0 }),
        );
        ind.cost = Some(c);
        let _placeholder = replace_at(&mut self.curr, idx, ind);
        self.num_cost_evaluations = self.num_cost_evaluations + 1;
        let improved = match self.best_cost_cache {
            None => true,
            Some(bc) => crate::order::lt(c, bc),
        };
        if improved {
            self.best_cost_cache = Some(c);
            self.best_idx = Some(idx);
        }
        proof {
            assert(self.curr@ =~= stage_curr.update(
                idx as int,
                (Individual {
                    pos: stage_curr[idx as int].pos,
                    cost: Some(c),
                    cr: stage_curr[idx as int].cr,
                    f: stage_curr[idx as int].f,
                }),
            ));
            assert(costed(stage_curr, self.curr@, idx as int, c));
            let ghost pre = *old(self);
            let ghost post = *self;
            let ghost n = pre.settings.pop_size;
            let ghost spec_idx: int = if pre.pop_countdown == 0 {
                n - 1
            } else {
                pre.pop_countdown - 1
            };
            assert(garg@ == stage_curr[spec_idx].pos@);
            assert(exists|arg: Vec<u32>|
                arg@ == stage_curr[spec_idx].pos@ && call_ensures(
                    pre.settings.cost_function,
                    (arg,),
                    c,
                ));
            assert(Self::evolved_through(pre, post, stage_curr, c));
        }
    }

    /// The best-so-far query's answer, resolved from the state: the slot
    /// the global-best index names, taking whichever of its two sides holds
    /// the strictly lower cost, and the side that has a cost at all when
    /// only one does.
    pub open spec fn resolved_best(self) -> Option<(u32, Seq<u32>)> {
        match self.best_idx {
            None => None,
            Some(bi) => {
                let c = self.curr@[bi as int];
                let b = self.best@[bi as int];
                if c.cost is None {
                    Some((b.cost->0, b.pos@))
                } else if b.cost is None {
                    Some((c.cost->0, c.pos@))
                } else if real_lt(c.cost->0, b.cost->0) {
                    Some((c.cost->0, c.pos@))
                } else {
                    Some((b.cost->0, b.pos@))
                }
            },
        }
    }
}

/// The forced-mutation guarantee: every individual a reproduction pass
/// leaves behind has at least one dimension whose component is an
/// admissible mutant of its donors' components — whatever the crossover
/// probability was, zero included.
pub proof fn lemma_forced_dimension_mutates<G: Fn(u32, u32, u32, u32) -> u32>(
    g: G,
    bests: Seq<Individual>,
    base: Individual,
    post: Individual,
    dim: int,
    cr_mm: (u32, u32),
    f_mm: (u32, u32),
)
    requires
        reproduced_slot(g, bests, base, post, dim, cr_mm, f_mm),
    ensures
        exists|fd: int, i1: int, i2: int, i3: int|
            #![auto]
            {
                &&& 0 <= fd < dim
                &&& 0 <= i1 < bests.len()
                &&& 0 <= i2 < bests.len()
                &&& 0 <= i3 < bests.len()
                &&& i1 != i2 && i1 != i3 && i2 != i3
                &&& call_ensures(
                    g,
                    (bests[i3].pos@[fd], post.f, bests[i1].pos@[fd], bests[i2].pos@[fd]),
                    post.pos@[fd],
                )
            },
{
    let (i1, i2, i3, fd) = choose|i1: int, i2: int, i3: int, fd: int|
        donors_ok(g, bests, base, post, dim, i1, i2, i3, fd);
    assert(donors_ok(g, bests, base, post, dim, i1, i2, i3, fd));
}

/// Convenience construction: a population with the standard
/// control-parameter defaults, built from the search bounds, the cost
/// function, the mutation arithmetic and the random source.
pub fn self_adaptive_de<F, G, R>(
    min_max_pos: Vec<(u32, u32)>,
    cost_function: F,
    blend: G,
    rng: R,
) -> (p: Population<F, G, R>) where
    F: Fn(Vec<u32>) -> u32,
    G: Fn(u32, u32, u32, u32) -> u32,
    R: RandomSource,

    requires
        min_max_pos@.len() >= 1,
        forall|pv: Vec<u32>|
            pv@.len() == min_max_pos@.len() ==> call_requires(cost_function, (pv,)),
        forall|a: u32, b: u32, c: u32, d: u32| call_requires(blend, (a, b, c, d)),
    ensures
        p.wf(),
        p.freshly_seeded(),
        p.dim == min_max_pos@.len(),
        p.settings.min_max_pos == min_max_pos,
        p.settings.cr_min_max == (0u32, crate::settings::UNIT_ENCODING),
        p.settings.cr_change_probability == crate::settings::TENTH_ENCODING,
        p.settings.f_min_max == (crate::settings::TENTH_ENCODING, crate::settings::UNIT_ENCODING),
        p.settings.f_change_probability == crate::settings::TENTH_ENCODING,
        p.settings.pop_size == crate::settings::DEFAULT_POP_SIZE,
{
    Population::new(Settings::default(min_max_pos, cost_function, blend, rng))
}

/// The global best never worsens: across any single evaluation step, a
/// best cost already present stays present and comes out no greater than
/// it went in — so along any run of steps the best-cost trajectory is
/// non-increasing.
pub proof fn lemma_best_cost_monotone<F, G, R>(
    pre: Population<F, G, R>,
    post: Population<F, G, R>,
) where
    F: Fn(Vec<u32>) -> u32,
    G: Fn(u32, u32, u32, u32) -> u32,
    R: RandomSource,

    requires
        Population::evolved(pre, post),
        pre.best_cost_cache is Some,
        !is_unordered(pre.best_cost_cache->0),
    ensures
        post.best_cost_cache is Some,
        !is_unordered(post.best_cost_cache->0),
        real_le(post.best_cost_cache->0, pre.best_cost_cache->0),
{
}

/// The global best never worsens along a whole run: in any chain of
/// states linked by single evaluation steps whose starting best cost is
/// present and comparable, every later best cost is no greater than any
/// earlier one.
pub proof fn lemma_best_cost_monotone_run<F, G, R>(run: Seq<Population<F, G, R>>, i: int, j: int) where
    F: Fn(Vec<u32>) -> u32,
    G: Fn(u32, u32, u32, u32) -> u32,
    R: RandomSource,

    requires
        forall|k: int|
            0 <= k < run.len() - 1 ==> Population::evolved(#[trigger] run[k], run[k + 1]),
        0 <= i <= j < run.len(),
        run[i].best_cost_cache is Some,
        !is_unordered(run[i].best_cost_cache->0),
    ensures
        run[j].best_cost_cache is Some,
        !is_unordered(run[j].best_cost_cache->0),
        real_le(run[j].best_cost_cache->0, run[i].best_cost_cache->0),
    decreases j - i,
{
    if i < j {
        lemma_best_cost_monotone_run(run, i, j - 1);
        lemma_best_cost_monotone(run[j - 1], run[j]);
        crate::order::lemma_le_transitive(
            run[j].best_cost_cache->0,
            run[j - 1].best_cost_cache->0,
            run[i].best_cost_cache->0,
        );
    }
}

} // verus!
