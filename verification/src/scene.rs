//! The nearest hit among the primitives of a scene.
//!
//! The primitives are tested in order, each against a window whose upper end
//! is the closest hit found so far. The result is proved to be what testing
//! every primitive against the full window and keeping the smallest parameter
//! would give.

use vstd::prelude::*;
use crate::double::Double;
use crate::sphere::{hit_parameter, lemma_narrowed_range, nearest_root, Roots};

verus! {

/// The primitive that is hit first and the ray parameter of that hit.
#[derive(Clone, Copy, Debug, PartialEq, Eq, Structural)]
pub struct Nearest {
    pub index: usize,
    pub t: Double,
}

/// Every primitive that has roots has them in order, free of NaN, and the
/// primitives can be counted in a `usize`.
pub open spec fn well_formed(candidates: Seq<Option<Roots>>) -> bool {
    &&& candidates.len() <= usize::MAX
    &&& forall|i: int|
        0 <= i < candidates.len() ==> ((#[trigger] candidates[i]) matches Some(roots)
            ==> roots.ordered())
}

/// The upper end of the window once `best` has been found.
pub open spec fn closest_so_far(best: Option<Nearest>, t_max: Double) -> Double {
    match best {
        Some(nearest) => nearest.t,
        None => t_max,
    }
}

/// The scan as it runs: primitive by primitive, each tested against the window
/// narrowed by the hits before it, a new hit replacing the one held.
pub open spec fn scan(
    candidates: Seq<Option<Roots>>,
    t_min: Double,
    t_max: Double,
) -> Option<Nearest>
    decreases candidates.len(),
{
    if candidates.len() == 0 {
        None
    } else {
        let before = scan(candidates.drop_last(), t_min, t_max);
        match hit_parameter(candidates.last(), t_min, closest_so_far(before, t_max)) {
            Some(t) => Some(Nearest { index: (candidates.len() - 1) as usize, t }),
            None => before,
        }
    }
}

/// The closer of a hit already held and the hit, if any, of the primitive at
/// `index`. On equal parameters the later primitive is kept.
pub open spec fn closer(
    best: Option<Nearest>,
    index: usize,
    hit: Option<Double>,
) -> Option<Nearest> {
    match hit {
        None => best,
        Some(t) => match best {
            Some(held) if held.t.less(t) => best,
            _ => Some(Nearest { index, t }),
        },
    }
}

/// The pairwise minimum over the hits that the primitives report one by one
/// against the full window `[t_min, t_max]`.
pub open spec fn pairwise_nearest(
    candidates: Seq<Option<Roots>>,
    t_min: Double,
    t_max: Double,
) -> Option<Nearest>
    decreases candidates.len(),
{
    if candidates.len() == 0 {
        None
    } else {
        closer(
            pairwise_nearest(candidates.drop_last(), t_min, t_max),
            (candidates.len() - 1) as usize,
            hit_parameter(candidates.last(), t_min, t_max),
        )
    }
}

/// The hit that the scan holds is a number and does not lie beyond the full
/// window.
proof fn lemma_scan_in_window(candidates: Seq<Option<Roots>>, t_min: Double, t_max: Double)
    requires
        well_formed(candidates),
    ensures
        scan(candidates, t_min, t_max) matches Some(nearest) ==> {
            &&& !nearest.t.nan()
            &&& !t_max.less(nearest.t)
        },
    decreases candidates.len(),
{
    if candidates.len() > 0 {
        lemma_scan_in_window(candidates.drop_last(), t_min, t_max);
    }
}

/// Scanning with a narrowing window finds the same primitive and the same
/// parameter as the pairwise minimum over the individual hits against the
/// full window.
pub proof fn lemma_scan_is_pairwise_nearest(
    candidates: Seq<Option<Roots>>,
    t_min: Double,
    t_max: Double,
)
    requires
        well_formed(candidates),
    ensures
        scan(candidates, t_min, t_max) == pairwise_nearest(candidates, t_min, t_max),
    decreases candidates.len(),
{
    if candidates.len() > 0 {
        let rest = candidates.drop_last();
        lemma_scan_is_pairwise_nearest(rest, t_min, t_max);
        lemma_scan_in_window(rest, t_min, t_max);
        if let (Some(held), Some(roots)) = (scan(rest, t_min, t_max), candidates.last()) {
            assert(candidates[candidates.len() - 1] == Some(roots));
            lemma_narrowed_range(roots, t_min, t_max, held.t);
        }
    }
}

/// What it means for `result` to be the nearest hit: it is a hit of the
/// primitive it names, no primitive is hit at a smaller parameter, and every
/// later primitive is hit strictly farther away, if at all. No result means
/// that no primitive is hit.
pub open spec fn is_nearest(
    candidates: Seq<Option<Roots>>,
    t_min: Double,
    t_max: Double,
    result: Option<Nearest>,
) -> bool {
    match result {
        Some(nearest) => {
            &&& nearest.index < candidates.len()
            &&& hit_parameter(candidates[nearest.index as int], t_min, t_max) == Some(nearest.t)
            &&& forall|j: int|
                0 <= j < candidates.len() ==> (#[trigger] hit_parameter(
                    candidates[j],
                    t_min,
                    t_max,
                ) matches Some(t) ==> {
                    &&& !t.less(nearest.t)
                    &&& j > nearest.index ==> nearest.t.less(t)
                })
        },
        None => forall|j: int|
            0 <= j < candidates.len() ==> #[trigger] hit_parameter(candidates[j], t_min, t_max)
                is None,
    }
}

/// The pairwise minimum is the nearest hit.
pub proof fn lemma_pairwise_nearest_is_minimal(
    candidates: Seq<Option<Roots>>,
    t_min: Double,
    t_max: Double,
)
    requires
        well_formed(candidates),
    ensures
        is_nearest(candidates, t_min, t_max, pairwise_nearest(candidates, t_min, t_max)),
    decreases candidates.len(),
{
    if candidates.len() > 0 {
        let rest = candidates.drop_last();
        let last = candidates.len() - 1;
        lemma_pairwise_nearest_is_minimal(rest, t_min, t_max);
        assert forall|j: int| 0 <= j < last implies hit_parameter(candidates[j], t_min, t_max)
            == hit_parameter(rest[j], t_min, t_max) by {
            assert(candidates[j] == rest[j]);
        }
        if let Some(held) = pairwise_nearest(rest, t_min, t_max) {
            assert(candidates[held.index as int] == rest[held.index as int]);
        }
    }
}

/// The nearest hit of a ray among the primitives of a scene, each given by the
/// roots of its quadratic, or `None` where it has no real root.
pub fn nearest_hit(
    candidates: &Vec<Option<Roots>>,
    t_min: Double,
    t_max: Double,
) -> (r: Option<Nearest>)
    ensures
        r == scan(candidates@, t_min, t_max),
        well_formed(candidates@) ==> r == pairwise_nearest(
            candidates@,
            t_min,
            t_max,
        ) && is_nearest(candidates@, t_min, t_max, r),
{
    let mut best: Option<Nearest> = None;
    let mut closest: Double = t_max;
    let mut i: usize = 0;
    while i < candidates.len()
        invariant
            i <= candidates.len(),
            best == scan(candidates@.take(i as int), t_min, t_max),
            closest == closest_so_far(best, t_max),
        decreases candidates.len() - i,
    {
        proof {
            assert(candidates@.take(i + 1).drop_last() =~= candidates@.take(i as int));
        }
        match candidates[i] {
            Some(roots) => {
                match nearest_root(roots, t_min, closest) {
                    Some(t) => {
                        best = Some(Nearest { index: i, t });
                        closest = t;
                    },
                    None => {},
                }
            },
            None => {},
        }
        i += 1;
    }
    proof {
        assert(candidates@.take(i as int) =~= candidates@);
        if well_formed(candidates@) {
            lemma_scan_is_pairwise_nearest(candidates@, t_min, t_max);
            lemma_pairwise_nearest_is_minimal(candidates@, t_min, t_max);
        }
    }
    best
}

} // verus!
