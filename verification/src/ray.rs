//! The walk of one ray over the grid, as a state machine: which pixel is
//! painted, where the ray meets a material boundary and scatters, and when
//! it ends.

use vstd::prelude::*;
use rand::rngs::StdRng;
use crate::grid::{bounds_of, byte_count, cell_count, cell_index, in_grid, lemma_cell_in_buffer,
    pixel_index, ray_budget, validate_bounds};
use crate::random::next_roll;
use crate::scene::{dense, is_dense, RaytraceState, Scene};

verus! {

/// Visual tuning of the boundary events.
#[derive(Clone, Copy, Debug, PartialEq, Eq, Structural)]
pub struct Tuning {
    /// Visits after a scattering event during which the boundary test is
    /// suppressed.
    pub cooldown: u32,
    /// A ray that enters the lower-valued material scatters diffusely when
    /// its 32-bit roll is above this number.
    pub diffuse_above: u32,
}

/// How a ray leaves a boundary.
#[derive(Clone, Copy, Debug, PartialEq, Eq, Structural)]
pub enum ScatterKind {
    /// A random direction on the side that the ray travels into.
    Diffuse,
    /// Refraction, or mirror reflection where no refracted ray exists.
    Refract,
}

/// What a boundary test found at a pixel.
#[derive(Clone, Copy, Debug, PartialEq, Eq, Structural)]
pub enum BoundaryEvent {
    /// The pixel lies on the same side as the previous sample, or it is the
    /// first sample of the ray.
    Clear,
    /// A boundary was crossed; `(nx, ny)` points along the surface normal.
    Scatter { nx: i32, ny: i32, kind: ScatterKind },
    /// A boundary was crossed where the blurred image is flat, so that no
    /// normal exists.
    Flat,
}

/// Why a ray ended.
#[derive(Clone, Copy, Debug, PartialEq, Eq, Structural)]
pub enum End {
    /// The ray left the image.
    OutOfBounds,
    /// The ray used up its step budget.
    BudgetSpent,
    /// The ray crossed a boundary that has no normal.
    FlatBoundary,
    /// The caller gave the ray up because its direction was not finite.
    Abandoned,
}

/// What the caller does at the point it has just presented.
#[derive(Clone, Copy, Debug, PartialEq, Eq, Structural)]
pub enum StepAction {
    /// Nothing: the ray has ended.
    Halt,
    /// Add the ray's weighted colour to the accumulation cell, then advance.
    Paint { cell: usize },
    /// Turn the ray as `kind` says about the normal `(nx, ny)`, then add the
    /// ray's weighted colour to the accumulation cell and advance.
    Scatter { cell: usize, nx: i32, ny: i32, kind: ScatterKind },
    /// Write the diagnostic value to the accumulation cell; the ray has
    /// ended.
    Diagnose { cell: usize },
}

/// State of one ray between two visits.
#[derive(Clone, Copy, Debug, PartialEq, Eq)]
pub struct RayWalk {
    /// Visits that the ray may still make.
    pub steps_left: u64,
    /// Visits during which no boundary test is made.
    pub cooldown: u32,
    /// Level of the last pixel that was tested; `None` before the first.
    pub previous: Option<u16>,
    /// Set once the ray has ended.
    pub ended: Option<End>,
}

impl StepAction {
    /// The accumulation cell that the action writes, if it writes one.
    pub open spec fn cell(self) -> Option<usize> {
        match self {
            StepAction::Halt => None,
            StepAction::Paint { cell } => Some(cell),
            StepAction::Scatter { cell, .. } => Some(cell),
            StepAction::Diagnose { cell } => Some(cell),
        }
    }

    /// Whether the action answers a boundary crossing: a scattering or a
    /// diagnostic.
    pub open spec fn is_event(self) -> bool {
        self is Scatter || self is Diagnose
    }

    /// The accumulation cell that the action writes, if it writes one.
    pub fn target(&self) -> (cell: Option<usize>)
        ensures
            cell == self.cell(),
    {
        match self {
            StepAction::Halt => None,
            StepAction::Paint { cell } => Some(*cell),
            StepAction::Scatter { cell, .. } => Some(*cell),
            StepAction::Diagnose { cell } => Some(*cell),
        }
    }
}

/// A visit in progress: either its outcome is settled, or a boundary test is
/// due at a pixel.
enum Due {
    Settled(StepAction),
    Test(u32, u32),
}

/// Whether a sample of the given level lies across a boundary from the
/// previous sample. The first sample of a ray crosses nothing.
pub open spec fn crosses(previous: Option<u16>, level: int) -> bool {
    previous matches Some(p) && is_dense(p as int) != is_dense(level)
}

/// How a ray that has crossed into a pixel of the given level scatters.
pub open spec fn scatter_kind(tuning: Tuning, level: int, roll: u32) -> ScatterKind {
    if !is_dense(level) && roll > tuning.diffuse_above {
        ScatterKind::Diffuse
    } else {
        ScatterKind::Refract
    }
}

/// Outcome of the boundary test at an in-grid pixel.
pub open spec fn boundary_event(
    scene: Scene,
    previous: Option<u16>,
    col: int,
    row: int,
    roll: u32,
) -> BoundaryEvent {
    let level = scene.edge_level(col, row);
    if crosses(previous, level) {
        match scene.normal(col, row) {
            Some(n) => BoundaryEvent::Scatter {
                nx: n.0,
                ny: n.1,
                kind: scatter_kind(scene.tuning, level, roll),
            },
            None => BoundaryEvent::Flat,
        }
    } else {
        BoundaryEvent::Clear
    }
}

/// The walk after a boundary test at a pixel of the given level, and the
/// action that the test calls for. One visit is spent.
pub open spec fn settle(
    tuning: Tuning,
    walk: RayWalk,
    cell: usize,
    level: u16,
    event: BoundaryEvent,
) -> (RayWalk, StepAction)
    recommends
        walk.steps_left > 0,
{
    let steps_left = (walk.steps_left - 1) as u64;
    match event {
        BoundaryEvent::Clear => (
            RayWalk { steps_left, cooldown: 0, previous: Some(level), ended: None },
            StepAction::Paint { cell },
        ),
        BoundaryEvent::Scatter { nx, ny, kind } => (
            RayWalk { steps_left, cooldown: tuning.cooldown, previous: Some(level), ended: None },
            StepAction::Scatter { cell, nx, ny, kind },
        ),
        BoundaryEvent::Flat => (
            RayWalk {
                steps_left,
                cooldown: 0,
                previous: Some(level),
                ended: Some(End::FlatBoundary),
            },
            StepAction::Diagnose { cell },
        ),
    }
}

/// The part of a visit that needs no sample: a ray that has ended stays
/// ended, a point off the grid or a spent budget ends it, and during the
/// cooldown the pixel is painted untested. `None` where a boundary test is
/// due.
pub open spec fn untested_step(size: (u32, u32), walk: RayWalk, point: (i32, i32)) -> Option<
    (RayWalk, StepAction),
> {
    if walk.ended.is_some() {
        Some((walk, StepAction::Halt))
    } else if bounds_of(point, size).is_none() {
        Some((RayWalk { ended: Some(End::OutOfBounds), ..walk }, StepAction::Halt))
    } else if walk.steps_left == 0 {
        Some((RayWalk { ended: Some(End::BudgetSpent), ..walk }, StepAction::Halt))
    } else if walk.cooldown != 0 {
        Some(
            (
                RayWalk {
                    steps_left: (walk.steps_left - 1) as u64,
                    cooldown: (walk.cooldown - 1) as u32,
                    ..walk
                },
                StepAction::Paint {
                    cell: cell_index(point.0 as int, point.1 as int, size) as usize,
                },
            ),
        )
    } else {
        None
    }
}

/// One visit of a ray: the walk after the floored position `point` has been
/// presented, and what the caller does there. `roll` is the random number
/// that decides between diffuse scatter and refraction at a crossing.
pub open spec fn walk_step(scene: Scene, walk: RayWalk, point: (i32, i32), roll: u32) -> (
    RayWalk,
    StepAction,
) {
    match untested_step(scene.size, walk, point) {
        Some(done) => done,
        None => settle(
            scene.tuning,
            walk,
            cell_index(point.0 as int, point.1 as int, scene.size) as usize,
            scene.edge_level(point.0 as int, point.1 as int) as u16,
            boundary_event(scene, walk.previous, point.0 as int, point.1 as int, roll),
        ),
    }
}

/// Number of pixel writes, colour or diagnostic, that a walk makes when the
/// given points are presented to it in order, each with its roll.
pub open spec fn writes(scene: Scene, walk: RayWalk, visits: Seq<((i32, i32), u32)>) -> nat
    decreases visits.len(),
{
    if visits.len() == 0 {
        0
    } else {
        let (next, action) = walk_step(scene, walk, visits[0].0, visits[0].1);
        let here: nat = if action.cell().is_some() {
            1
        } else {
            0
        };
        here + writes(scene, next, visits.skip(1))
    }
}

impl Tuning {
    /// Three visits of cooldown, and diffuse scatter for one roll in four.
    pub open spec fn standard_spec() -> Tuning {
        Tuning { cooldown: 3, diffuse_above: 0xbfff_ffff }
    }

    pub fn standard() -> (t: Tuning)
        ensures
            t == Tuning::standard_spec(),
    {
        Tuning { cooldown: 3, diffuse_above: 0xbfff_ffff }
    }
}

impl RayWalk {
    /// A ray about to be emitted on a grid of the given size.
    pub open spec fn start_spec(size: (u32, u32)) -> RayWalk {
        RayWalk { steps_left: ray_budget(size) as u64, cooldown: 0, previous: None, ended: None }
    }

    pub fn start(size: (u32, u32)) -> (walk: RayWalk)
        ensures
            walk == RayWalk::start_spec(size),
    {
        RayWalk {
            steps_left: crate::grid::max_ray_length(size),
            cooldown: 0,
            previous: None,
            ended: None,
        }
    }

    /// Ends a ray whose direction can no longer be followed. A ray that has
    /// already ended keeps its reason.
    pub fn abandon(&mut self)
        ensures
            *final(self) == (RayWalk {
                ended: if old(self).ended.is_some() {
                    old(self).ended
                } else {
                    Some(End::Abandoned)
                },
                ..*old(self)
            }),
    {
        if self.ended.is_none() {
            self.ended = Some(End::Abandoned);
        }
    }

    /// Whether the ray has ended.
    pub fn is_done(&self) -> (done: bool)
        ensures
            done == self.ended.is_some(),
    {
        self.ended.is_some()
    }
}

/// Picks the scattering of a ray that has crossed into a pixel of the given
/// level: diffuse only into the lower-valued material and only for a roll
/// above the tuned limit, refraction otherwise.
pub fn choose_scatter(tuning: Tuning, level: u16, roll: u32) -> (kind: ScatterKind)
    ensures
        kind == scatter_kind(tuning, level as int, roll),
{
    if !dense(level) && roll > tuning.diffuse_above {
        ScatterKind::Diffuse
    } else {
        ScatterKind::Refract
    }
}

/// Whether a sample of the given level lies across a boundary from the
/// previous sample.
pub fn is_crossing(previous: Option<u16>, level: u16) -> (crossing: bool)
    ensures
        crossing == crosses(previous, level as int),
{
    match previous {
        Some(p) => dense(p) != dense(level),
        None => false,
    }
}

/// Updates the walk after a boundary test and names the action.
fn conclude(
    tuning: Tuning,
    walk: &mut RayWalk,
    cell: usize,
    level: u16,
    event: BoundaryEvent,
) -> (action: StepAction)
    requires
        old(walk).steps_left > 0,
    ensures
        (*final(walk), action) == settle(tuning, *old(walk), cell, level, event),
{
    walk.steps_left = walk.steps_left - 1;
    walk.previous = Some(level);
    match event {
        BoundaryEvent::Clear => {
            walk.cooldown = 0;
            walk.ended = None;
            StepAction::Paint { cell }
        },
        BoundaryEvent::Scatter { nx, ny, kind } => {
            walk.cooldown = tuning.cooldown;
            walk.ended = None;
            StepAction::Scatter { cell, nx, ny, kind }
        },
        BoundaryEvent::Flat => {
            walk.cooldown = 0;
            walk.ended = Some(End::FlatBoundary);
            StepAction::Diagnose { cell }
        },
    }
}

/// Does the part of a visit that needs no sample.
fn approach(size: (u32, u32), walk: &mut RayWalk, point: (i32, i32)) -> (due: Due)
    requires
        byte_count(size) <= usize::MAX,
    ensures
        match due {
            Due::Settled(action) => untested_step(size, *old(walk), point) == Some(
                (*final(walk), action),
            ),
            Due::Test(col, row) => untested_step(size, *old(walk), point).is_none() && *final(walk)
                == *old(walk) && in_grid(col as int, row as int, size) && col == point.0 && row
                == point.1 && old(walk).steps_left > 0,
        },
{
    if walk.ended.is_some() {
        return Due::Settled(StepAction::Halt);
    }
    match validate_bounds(point, size) {
        None => {
            walk.ended = Some(End::OutOfBounds);
            Due::Settled(StepAction::Halt)
        },
        Some(coords) => {
            if walk.steps_left == 0 {
                walk.ended = Some(End::BudgetSpent);
                Due::Settled(StepAction::Halt)
            } else if walk.cooldown != 0 {
                walk.steps_left = walk.steps_left - 1;
                walk.cooldown = walk.cooldown - 1;
                Due::Settled(StepAction::Paint { cell: pixel_index(coords, size) })
            } else {
                Due::Test(coords.0, coords.1)
            }
        },
    }
}

impl<'a> RaytraceState<'a> {
    /// A ray about to be emitted into this scene.
    pub fn start_ray(&self) -> (walk: RayWalk)
        ensures
            walk == RayWalk::start_spec(self@.size),
    {
        RayWalk::start(self.size())
    }

    /// Tests an in-grid pixel for a boundary crossing, given the level of the
    /// previous sample and the roll that picks the scattering.
    pub fn boundary_event(&self, previous: Option<u16>, coords: (u32, u32), roll: u32) -> (event:
        BoundaryEvent)
        requires
            self@.wf(),
            in_grid(coords.0 as int, coords.1 as int, self@.size),
        ensures
            event == boundary_event(self@, previous, coords.0 as int, coords.1 as int, roll),
    {
        let level: u16 = self.orig_value_at(coords);
        if is_crossing(previous, level) {
            match self.normal_at(coords) {
                Some(n) => BoundaryEvent::Scatter {
                    nx: n.0,
                    ny: n.1,
                    kind: choose_scatter(self.tuning(), level, roll),
                },
                None => BoundaryEvent::Flat,
            }
        } else {
            BoundaryEvent::Clear
        }
    }

    /// Tests an in-grid pixel for a boundary crossing and records its level
    /// as the previous sample. The roll is drawn from `rng`, and only where
    /// a boundary with a normal was crossed.
    pub fn refract(&self, old_level: &mut Option<u16>, coords: (u32, u32), rng: &mut StdRng) -> (event:
        BoundaryEvent)
        requires
            self@.wf(),
            in_grid(coords.0 as int, coords.1 as int, self@.size),
        ensures
            exists|roll: u32|
                event == boundary_event(
                    self@,
                    *old(old_level),
                    coords.0 as int,
                    coords.1 as int,
                    roll,
                ),
            *final(old_level) == Some(self@.edge_level(coords.0 as int, coords.1 as int) as u16),
    {
        let previous: Option<u16> = *old_level;
        let level: u16 = self.orig_value_at(coords);
        *old_level = Some(level);
        let roll: u32 = if is_crossing(previous, level) && self.normal_at(coords).is_some() {
            next_roll(rng)
        } else {
            0
        };
        self.boundary_event(previous, coords, roll)
    }

    /// One visit of a ray with a given roll: presents the floored position
    /// `point`, updates the walk and says what to do at that point.
    pub fn visit(&self, walk: &mut RayWalk, point: (i32, i32), roll: u32) -> (action: StepAction)
        requires
            self@.wf(),
        ensures
            (*final(walk), action) == walk_step(self@, *old(walk), point, roll),
    {
        match approach(self.size(), walk, point) {
            Due::Settled(action) => action,
            Due::Test(col, row) => {
                let cell: usize = pixel_index((col, row), self.size());
                let level: u16 = self.orig_value_at((col, row));
                let event: BoundaryEvent = self.boundary_event(walk.previous, (col, row), roll);
                conclude(self.tuning(), walk, cell, level, event)
            },
        }
    }

    /// One visit of a ray, with the roll drawn from `rng` where the visit
    /// needs one.
    pub fn visit_random(&self, walk: &mut RayWalk, point: (i32, i32), rng: &mut StdRng) -> (action:
        StepAction)
        requires
            self@.wf(),
        ensures
            exists|roll: u32| (*final(walk), action) == walk_step(self@, *old(walk), point, roll),
    {
        match approach(self.size(), walk, point) {
            Due::Settled(action) => {
                assert((*walk, action) == walk_step(self@, *old(walk), point, 0u32));
                action
            },
            Due::Test(col, row) => {
                let mut previous: Option<u16> = walk.previous;
                let event: BoundaryEvent = self.refract(&mut previous, (col, row), rng);
                let cell: usize = pixel_index((col, row), self.size());
                let level: u16 = self.orig_value_at((col, row));
                let ghost roll: u32 = choose|roll: u32|
                    event == boundary_event(
                        self@,
                        old(walk).previous,
                        col as int,
                        row as int,
                        roll,
                    );
                let action: StepAction = conclude(self.tuning(), walk, cell, level, event);
                assert((*walk, action) == walk_step(self@, *old(walk), point, roll));
                action
            },
        }
    }
}

/// A ray that has ended writes nothing more, whatever is presented to it.
pub proof fn lemma_ended_ray_is_silent(scene: Scene, walk: RayWalk, visits: Seq<((i32, i32), u32)>)
    requires
        walk.ended.is_some(),
    ensures
        writes(scene, walk, visits) == 0,
    decreases visits.len(),
{
    if visits.len() > 0 {
        lemma_ended_ray_is_silent(scene, walk, visits.skip(1));
    }
}

/// A ray whose origin lies off the grid contributes nothing.
pub proof fn lemma_outside_origin_is_silent(scene: Scene, visits: Seq<((i32, i32), u32)>)
    requires
        visits.len() > 0,
        bounds_of(visits[0].0, scene.size).is_none(),
    ensures
        writes(scene, RayWalk::start_spec(scene.size), visits) == 0,
{
    let first = walk_step(scene, RayWalk::start_spec(scene.size), visits[0].0, visits[0].1);
    lemma_ended_ray_is_silent(scene, first.0, visits.skip(1));
}

/// Every write spends one visit of the budget: a walk writes at most as many
/// pixels as it has visits left, whatever points and rolls it meets.
pub proof fn lemma_writes_within_budget(
    scene: Scene,
    walk: RayWalk,
    visits: Seq<((i32, i32), u32)>,
)
    ensures
        writes(scene, walk, visits) <= walk.steps_left,
    decreases visits.len(),
{
    if visits.len() > 0 {
        let next = walk_step(scene, walk, visits[0].0, visits[0].1).0;
        lemma_writes_within_budget(scene, next, visits.skip(1));
    }
}

/// Termination: a ray emitted on a grid writes at most twice the longer side
/// of the grid in pixels, whatever its path.
pub proof fn lemma_ray_terminates(scene: Scene, visits: Seq<((i32, i32), u32)>)
    ensures
        writes(scene, RayWalk::start_spec(scene.size), visits) <= ray_budget(scene.size),
{
    lemma_writes_within_budget(scene, RayWalk::start_spec(scene.size), visits);
}

/// Every cell that a visit writes is the cell of the point presented, which
/// lies on the grid, so that the write falls inside an accumulation buffer
/// of one cell per pixel.
pub proof fn lemma_written_cell_in_buffer(
    scene: Scene,
    walk: RayWalk,
    point: (i32, i32),
    roll: u32,
)
    requires
        scene.wf(),
        walk_step(scene, walk, point, roll).1.cell().is_some(),
    ensures
        in_grid(point.0 as int, point.1 as int, scene.size),
        walk_step(scene, walk, point, roll).1.cell().unwrap() == cell_index(
            point.0 as int,
            point.1 as int,
            scene.size,
        ),
        walk_step(scene, walk, point, roll).1.cell().unwrap() < cell_count(scene.size),
{
    lemma_cell_in_buffer(point.0 as int, point.1 as int, scene.size);
}

/// A scattering or diagnostic event fires only at a tested in-grid pixel
/// that lies across the boundary from the previous sample, and leaves that
/// pixel's level behind as the previous sample.
pub proof fn lemma_event_needs_crossing(scene: Scene, walk: RayWalk, point: (i32, i32), roll: u32)
    requires
        walk_step(scene, walk, point, roll).1.is_event(),
    ensures
        walk.ended.is_none(),
        walk.cooldown == 0,
        in_grid(point.0 as int, point.1 as int, scene.size),
        crosses(walk.previous, scene.edge_level(point.0 as int, point.1 as int)),
        walk_step(scene, walk, point, roll).0.previous == Some(
            scene.edge_level(point.0 as int, point.1 as int) as u16,
        ),
{
}

/// One event per crossing: once an event has fired at a pixel, no visit to a
/// pixel on the same side of the boundary fires another.
pub proof fn lemma_one_event_per_crossing(
    scene: Scene,
    walk: RayWalk,
    first: ((i32, i32), u32),
    second: ((i32, i32), u32),
)
    requires
        scene.wf(),
        walk_step(scene, walk, first.0, first.1).1.is_event(),
        in_grid(second.0.0 as int, second.0.1 as int, scene.size),
        is_dense(scene.edge_level(second.0.0 as int, second.0.1 as int)) == is_dense(
            scene.edge_level(first.0.0 as int, first.0.1 as int),
        ),
    ensures
        ({
            let after = walk_step(scene, walk, first.0, first.1).0;
            let action = walk_step(scene, after, second.0, second.1).1;
            !action.is_event()
        }),
{
    lemma_event_needs_crossing(scene, walk, first.0, first.1);
    crate::scene::lemma_level_range(scene, first.0.0 as int, first.0.1 as int);
}

} // verus!
