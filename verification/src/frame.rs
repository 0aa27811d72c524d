//! One frame of progressive refinement: the weights that keep the
//! accumulated image at the mean of all rays cast so far, and the layout of
//! the displayed bytes.

use vstd::prelude::*;
use crate::grid::ray_budget;
use crate::scene::RaytraceState;

verus! {

/// Brightness scale of the accumulated image.
pub const BRIGHTNESS: u32 = 100;

/// Alpha byte of every displayed pixel.
pub const OPAQUE: u8 = 255;

/// What one frame does to the accumulated image, as exact ratios.
#[derive(Clone, Copy, Debug, PartialEq, Eq)]
pub struct FramePlan {
    /// Every accumulated cell is first multiplied by `keep.0 / keep.1`.
    pub keep: (u32, u32),
    /// Each visit of a ray then adds its colour times `weight.0 / weight.1`.
    pub weight: (u32, u64),
    /// Number of rays to cast.
    pub rays: u32,
    /// Step budget of each ray.
    pub steps: u64,
}

/// The quotient of two integers as a real number.
pub open spec fn ratio(num: int, den: int) -> real {
    (num as real) / (den as real)
}

/// Factor by which frame number `frame` discounts what earlier frames have
/// accumulated.
pub open spec fn keep_factor(frame: nat) -> real {
    ratio(frame - 1, frame as int)
}

/// Weight of one ray visit in frame number `frame`.
pub open spec fn ray_weight(rays: nat, frame: nat) -> real {
    ratio(BRIGHTNESS as int, (rays * frame) as int)
}

/// Value of a cell after `visits.len()` frames, where rays of unit colour
/// visited it `visits[i]` times during frame `i + 1`.
pub open spec fn accumulated(rays: nat, visits: Seq<nat>) -> real
    decreases visits.len(),
{
    if visits.len() == 0 {
        0real
    } else {
        accumulated(rays, visits.drop_last()) * keep_factor(visits.len()) + (visits.last() as real)
            * ray_weight(rays, visits.len())
    }
}

/// Number of visits over all frames.
pub open spec fn total(visits: Seq<nat>) -> nat
    decreases visits.len(),
{
    if visits.len() == 0 {
        0
    } else {
        total(visits.drop_last()) + visits.last()
    }
}

/// The bytes displayed for a sequence of encoded cells: red, green, blue and
/// an opaque alpha for each.
pub open spec fn blitted(cells: Seq<(u8, u8, u8)>) -> Seq<u8> {
    Seq::new(
        4 * cells.len(),
        |i: int|
            if i % 4 == 0 {
                cells[i / 4].0
            } else if i % 4 == 1 {
                cells[i / 4].1
            } else if i % 4 == 2 {
                cells[i / 4].2
            } else {
                OPAQUE
            },
    )
}

/// Progressive mean: after any number of frames a cell holds the brightness
/// times the mean number of visits per frame, divided by the rays per frame.
/// Reweighting and then accumulating is the arithmetic mean over all frames,
/// not an exponential decay.
pub proof fn lemma_progressive_mean(rays: nat, visits: Seq<nat>)
    requires
        rays >= 1,
        visits.len() >= 1,
    ensures
        accumulated(rays, visits) == ratio(
            BRIGHTNESS * total(visits),
            (rays * visits.len()) as int,
        ),
    decreases visits.len(),
{
    let f = visits.len() as int;
    let n = visits.last() as int;
    let k = BRIGHTNESS as int;
    let r = rays as int;
    let earlier = visits.drop_last();
    let t = total(earlier) as int;
    let acc = accumulated(rays, earlier);
    assert(accumulated(rays, visits) == acc * ratio(f - 1, f) + (n as real) * ratio(k, r * f));
    assert(total(visits) == t + n);
    if f == 1 {
        assert(earlier.len() == 0);
        assert(acc == 0real);
        assert(t == 0);
        assert(acc * ratio(f - 1, f) + (n as real) * ratio(k, r * f) == ratio(k * (t + n), r * f))
            by (nonlinear_arith)
            requires
                f == 1,
                t == 0,
                acc == 0real,
                r >= 1,
                ratio(f - 1, f) == ((f - 1) as real) / (f as real),
                ratio(k, r * f) == (k as real) / ((r * f) as real),
                ratio(k * (t + n), r * f) == ((k * (t + n)) as real) / ((r * f) as real),
        ;
    } else {
        lemma_progressive_mean(rays, earlier);
        assert(acc == ratio(k * t, r * (f - 1)));
        assert(acc * ratio(f - 1, f) + (n as real) * ratio(k, r * f) == ratio(k * (t + n), r * f))
            by (nonlinear_arith)
            requires
                f >= 2,
                r >= 1,
                acc == ((k * t) as real) / ((r * (f - 1)) as real),
                ratio(f - 1, f) == ((f - 1) as real) / (f as real),
                ratio(k, r * f) == (k as real) / ((r * f) as real),
                ratio(k * (t + n), r * f) == ((k * (t + n)) as real) / ((r * f) as real),
        ;
    }
}

/// A cell that no frame visits more than `most` times was visited at most
/// `most` times the number of frames in all.
pub proof fn lemma_total_bounded(visits: Seq<nat>, most: nat)
    requires
        forall|i: int| 0 <= i < visits.len() ==> visits[i] <= most,
    ensures
        total(visits) <= most * visits.len(),
    decreases visits.len(),
{
    if visits.len() > 0 {
        let earlier = visits.drop_last();
        lemma_total_bounded(earlier, most);
        assert(most * earlier.len() + most == most * visits.len()) by (nonlinear_arith)
            requires
                earlier.len() + 1 == visits.len(),
        ;
    }
}

/// Stabilisation: where no frame visits a cell more than `most` times, the
/// frame number `f` changes the cell by at most the weight of `most` visits
/// in that frame, which shrinks as `1 / f`.
pub proof fn lemma_frame_change_bounded(rays: nat, visits: Seq<nat>, most: nat)
    requires
        rays >= 1,
        visits.len() >= 2,
        forall|i: int| 0 <= i < visits.len() ==> visits[i] <= most,
    ensures
        accumulated(rays, visits) - accumulated(rays, visits.drop_last()) <= (most as real)
            * ray_weight(rays, visits.len()),
        accumulated(rays, visits.drop_last()) - accumulated(rays, visits) <= (most as real)
            * ray_weight(rays, visits.len()),
{
    let f = visits.len() as int;
    let n = visits.last() as int;
    let k = BRIGHTNESS as int;
    let r = rays as int;
    let m = most as int;
    let earlier = visits.drop_last();
    let t = total(earlier) as int;
    lemma_progressive_mean(rays, visits);
    lemma_progressive_mean(rays, earlier);
    lemma_total_bounded(earlier, most);
    let now = accumulated(rays, visits);
    let before = accumulated(rays, earlier);
    let bound = (most as real) * ray_weight(rays, visits.len());
    assert(total(visits) == t + n);
    assert(now - before <= bound && before - now <= bound) by (nonlinear_arith)
        requires
            f >= 2,
            r >= 1,
            k >= 0,
            0 <= n <= m,
            0 <= t <= m * (f - 1),
            now == ((k * (t + n)) as real) / ((r * f) as real),
            before == ((k * t) as real) / ((r * (f - 1)) as real),
            bound == (m as real) * ((k as real) / ((r * f) as real)),
    ;
}

/// Writes the encoded cells to the display buffer, four bytes per pixel:
/// red, green, blue and an opaque alpha. Every byte of the buffer is
/// overwritten.
pub fn blit(cells: &[(u8, u8, u8)], data: &mut [u8])
    requires
        old(data)@.len() == 4 * cells@.len(),
    ensures
        final(data)@ == blitted(cells@),
{
    let n: usize = cells.len();
    let bytes: usize = data.len();
    let mut i: usize = 0;
    while i < n
        invariant
            n == cells@.len(),
            data@.len() == bytes == 4 * n,
            i <= n,
            forall|j: int| 0 <= j < 4 * i ==> data@[j] == blitted(cells@)[j],
        decreases n - i,
    {
        let cell: (u8, u8, u8) = cells[i];
        data[i * 4] = cell.0;
        data[i * 4 + 1] = cell.1;
        data[i * 4 + 2] = cell.2;
        data[i * 4 + 3] = OPAQUE;
        i = i + 1;
    }
    assert(data@ =~= blitted(cells@));
}

impl<'a> RaytraceState<'a> {
    /// Plans frame number `frame`, counted from 1: the discount of what has
    /// been accumulated, the weight of each ray visit, the number of rays
    /// and their step budget.
    pub fn raytrace(&self, frame: u32) -> (plan: FramePlan)
        requires
            self@.wf(),
            frame >= 1,
        ensures
            plan.keep == ((frame - 1) as u32, frame),
            plan.weight == (BRIGHTNESS, (self@.rays_per_frame * frame) as u64),
            plan.rays == self@.rays_per_frame,
            plan.steps == ray_budget(self@.size),
            ratio(plan.keep.0 as int, plan.keep.1 as int) == keep_factor(frame as nat),
            ratio(plan.weight.0 as int, plan.weight.1 as int) == ray_weight(
                self@.rays_per_frame as nat,
                frame as nat,
            ),
            plan.weight.1 > 0,
    {
        let rays: u32 = self.iters_per_frame();
        assert(0 < rays * frame <= 0xffff_ffff * 0xffff_ffff) by (nonlinear_arith)
            requires
                0 < rays <= 0xffff_ffff,
                0 < frame <= 0xffff_ffff,
        ;
        FramePlan {
            keep: (frame - 1, frame),
            weight: (BRIGHTNESS, rays as u64 * frame as u64),
            rays,
            steps: self.max_ray_length(),
        }
    }
}

} // verus!
