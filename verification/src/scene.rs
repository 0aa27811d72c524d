//! The render state and its material sampler: two RGBA8 images of one size,
//! an edge mask and a blurred copy of it, read pixel by pixel.

use vstd::prelude::*;
use crate::grid::{after, before, bounds_of, byte_count, cell_count, cell_index, in_grid,
    lemma_cell_in_buffer, neighbours, pixel_index, ray_budget};
use crate::ray::Tuning;

verus! {

/// Rays cast per frame by a freshly built render state.
pub const RAYS_PER_FRAME: u32 = 1000;

/// The level of a pixel whose three colour channels are all at full scale.
/// A material value is a level divided by this number.
pub const FULL_LEVEL: u16 = 765;

/// Why a render state could not be built.
#[derive(Clone, Copy, Debug, PartialEq, Eq, Structural)]
pub enum SceneError {
    /// The width or the height is zero.
    EmptyImage,
    /// The edge buffer does not hold `width * height * 4` bytes.
    EdgeLength,
    /// The blur buffer does not hold `width * height * 4` bytes.
    BlurLength,
}

impl SceneError {
    /// The text of `message`.
    pub open spec fn message_spec(self) -> Seq<char> {
        match self {
            SceneError::EmptyImage => "image width and height must both be positive"@,
            SceneError::EdgeLength => "edge buffer length is not width * height * 4"@,
            SceneError::BlurLength => "blur buffer length is not width * height * 4"@,
        }
    }

    /// Says in words what was wrong with the arguments.
    pub fn message(&self) -> (text: &'static str)
        ensures
            text@ == self.message_spec(),
    {
        match self {
            SceneError::EmptyImage => "image width and height must both be positive",
            SceneError::EdgeLength => "edge buffer length is not width * height * 4",
            SceneError::BlurLength => "blur buffer length is not width * height * 4",
        }
    }
}

/// Mathematical model of a render state.
pub struct Scene {
    pub size: (u32, u32),
    pub edge: Seq<u8>,
    pub blur: Seq<u8>,
    pub rays_per_frame: u32,
    pub tuning: Tuning,
}

/// The red, green and blue bytes of cell number `cell` in an RGBA8 buffer.
pub open spec fn rgb_of(buf: Seq<u8>, cell: int) -> (u8, u8, u8) {
    (buf[cell * 4], buf[cell * 4 + 1], buf[cell * 4 + 2])
}

/// Sum of the three colour channels: the material value in units of
/// `1 / FULL_LEVEL`.
pub open spec fn level_of(rgb: (u8, u8, u8)) -> int {
    rgb.0 + rgb.1 + rgb.2
}

/// Whether a level lies on the inside of a material boundary, that is
/// whether the material value is at least one half. No level is exactly one
/// half of `FULL_LEVEL`, so `>` and `>=` agree here.
pub open spec fn is_dense(level: int) -> bool {
    2 * level > FULL_LEVEL
}

/// The first reason, if any, for which construction fails.
pub open spec fn scene_fault(size: (u32, u32), edge_len: nat, blur_len: nat) -> Option<SceneError> {
    if size.0 == 0 || size.1 == 0 {
        Some(SceneError::EmptyImage)
    } else if edge_len != byte_count(size) {
        Some(SceneError::EdgeLength)
    } else if blur_len != byte_count(size) {
        Some(SceneError::BlurLength)
    } else {
        None
    }
}

impl Scene {
    /// Both images cover the whole, non-empty grid, and their bytes can be
    /// addressed.
    pub open spec fn wf(self) -> bool {
        &&& self.size.0 > 0
        &&& self.size.1 > 0
        &&& self.rays_per_frame > 0
        &&& byte_count(self.size) <= usize::MAX
        &&& self.edge.len() == byte_count(self.size)
        &&& self.blur.len() == byte_count(self.size)
    }

    pub open spec fn edge_rgb(self, col: int, row: int) -> (u8, u8, u8) {
        rgb_of(self.edge, cell_index(col, row, self.size))
    }

    pub open spec fn blur_rgb(self, col: int, row: int) -> (u8, u8, u8) {
        rgb_of(self.blur, cell_index(col, row, self.size))
    }

    /// Level of the edge image at a pixel.
    pub open spec fn edge_level(self, col: int, row: int) -> int {
        level_of(self.edge_rgb(col, row))
    }

    /// Level of the blurred image at a pixel.
    pub open spec fn blur_level(self, col: int, row: int) -> int {
        level_of(self.blur_rgb(col, row))
    }

    /// Sobel gradient of the blurred image at a pixel, in levels, with the
    /// neighbourhood clamped to the image.
    pub open spec fn gradient(self, col: int, row: int) -> (int, int) {
        let l = before(col);
        let r = after(col, self.size.0 as int);
        let u = before(row);
        let d = after(row, self.size.1 as int);
        let x = (self.blur_level(r, u) + 2 * self.blur_level(r, row) + self.blur_level(r, d)) - (
        self.blur_level(l, u) + 2 * self.blur_level(l, row) + self.blur_level(l, d));
        let y = (self.blur_level(l, d) + 2 * self.blur_level(col, d) + self.blur_level(r, d)) - (
        self.blur_level(l, u) + 2 * self.blur_level(col, u) + self.blur_level(r, u));
        (x, y)
    }

    /// Direction of the surface normal at a pixel: the gradient, unless the
    /// neighbourhood is flat.
    pub open spec fn normal(self, col: int, row: int) -> Option<(i32, i32)> {
        let g = self.gradient(col, row);
        if g.0 == 0 && g.1 == 0 {
            None
        } else {
            Some((g.0 as i32, g.1 as i32))
        }
    }
}

/// Owns nothing but the size and the tuning; borrows the two material images
/// for as long as it lives and never writes to them.
#[derive(Debug)]
pub struct RaytraceState<'a> {
    size: (u32, u32),
    orig_buf: &'a [u8],
    blur_buf: &'a [u8],
    iters_per_frame: u32,
    tuning: Tuning,
}

impl<'a> View for RaytraceState<'a> {
    type V = Scene;

    closed spec fn view(&self) -> Scene {
        Scene {
            size: self.size,
            edge: self.orig_buf@,
            blur: self.blur_buf@,
            rays_per_frame: self.iters_per_frame,
            tuning: self.tuning,
        }
    }
}

/// Reads the colour bytes of one in-grid pixel of an image buffer.
fn rgb_at(buf: &[u8], coords: (u32, u32), size: (u32, u32)) -> (rgb: (u8, u8, u8))
    requires
        in_grid(coords.0 as int, coords.1 as int, size),
        buf@.len() == byte_count(size) <= usize::MAX,
    ensures
        rgb == rgb_of(buf@, cell_index(coords.0 as int, coords.1 as int, size)),
{
    let idx: usize = pixel_index(coords, size);
    (buf[idx * 4], buf[idx * 4 + 1], buf[idx * 4 + 2])
}

/// Sum of the three channels.
fn level(rgb: (u8, u8, u8)) -> (l: u16)
    ensures
        l == level_of(rgb),
        l <= FULL_LEVEL,
{
    rgb.0 as u16 + rgb.1 as u16 + rgb.2 as u16
}

/// Whether a level lies on the inside of a material boundary.
pub fn dense(level: u16) -> (inside: bool)
    ensures
        inside == is_dense(level as int),
{
    2 * (level as u32) > FULL_LEVEL as u32
}

impl<'a> RaytraceState<'a> {
    /// Builds a render state over the two images, with the standard tuning
    /// and `RAYS_PER_FRAME` rays per frame. Fails on an empty image and on a
    /// buffer whose length is not `width * height * 4`.
    pub fn new(size: (u32, u32), orig_buf: &'a [u8], blur_buf: &'a [u8]) -> (r: Result<
        RaytraceState<'a>,
        SceneError,
    >)
        ensures
            match r {
                Ok(s) => scene_fault(size, orig_buf@.len(), blur_buf@.len()).is_none() && s@.wf()
                    && s@ == (Scene {
                    size,
                    edge: orig_buf@,
                    blur: blur_buf@,
                    rays_per_frame: RAYS_PER_FRAME,
                    tuning: Tuning::standard_spec(),
                }),
                Err(e) => scene_fault(size, orig_buf@.len(), blur_buf@.len()) == Some(e),
            },
    {
        if size.0 == 0 || size.1 == 0 {
            return Err(SceneError::EmptyImage);
        }
        assert(size.0 * size.1 * 4 <= 0x4_0000_0000_0000_0000) by (nonlinear_arith)
            requires
                size.0 <= 0xffff_ffff,
                size.1 <= 0xffff_ffff,
        ;
        let bytes: u128 = size.0 as u128 * size.1 as u128 * 4;
        if orig_buf.len() as u128 != bytes {
            return Err(SceneError::EdgeLength);
        }
        if blur_buf.len() as u128 != bytes {
            return Err(SceneError::BlurLength);
        }
        Ok(
            RaytraceState {
                size,
                orig_buf,
                blur_buf,
                iters_per_frame: RAYS_PER_FRAME,
                tuning: Tuning::standard(),
            },
        )
    }

    /// The same state with other tuning parameters.
    pub fn with_tuning(self, tuning: Tuning) -> (s: RaytraceState<'a>)
        ensures
            s@ == (Scene { tuning, ..self@ }),
    {
        RaytraceState { tuning, ..self }
    }

    pub fn size(&self) -> (size: (u32, u32))
        ensures
            size == self@.size,
    {
        self.size
    }

    pub fn iters_per_frame(&self) -> (rays: u32)
        ensures
            rays == self@.rays_per_frame,
    {
        self.iters_per_frame
    }

    pub fn tuning(&self) -> (tuning: Tuning)
        ensures
            tuning == self@.tuning,
    {
        self.tuning
    }

    /// Number of cells of the grid, which is the length of an accumulation
    /// buffer for it.
    pub fn cell_len(&self) -> (cells: usize)
        requires
            self@.wf(),
        ensures
            cells == cell_count(self@.size),
    {
        self.orig_buf.len() / 4
    }

    /// Number of bytes of each material image and of the display buffer.
    pub fn byte_len(&self) -> (bytes: usize)
        requires
            self@.wf(),
        ensures
            bytes == byte_count(self@.size),
    {
        self.orig_buf.len()
    }

    /// Step budget of one ray: twice the longer side of the image.
    pub fn max_ray_length(&self) -> (steps: u64)
        ensures
            steps == ray_budget(self@.size),
    {
        crate::grid::max_ray_length(self.size)
    }

    /// Colour bytes of the edge image at a pixel.
    pub fn orig_at(&self, coords: (u32, u32)) -> (rgb: (u8, u8, u8))
        requires
            self@.wf(),
            in_grid(coords.0 as int, coords.1 as int, self@.size),
        ensures
            rgb == self@.edge_rgb(coords.0 as int, coords.1 as int),
    {
        rgb_at(self.orig_buf, coords, self.size)
    }

    /// Colour bytes of the blurred image at a pixel.
    pub fn blur_at(&self, coords: (u32, u32)) -> (rgb: (u8, u8, u8))
        requires
            self@.wf(),
            in_grid(coords.0 as int, coords.1 as int, self@.size),
        ensures
            rgb == self@.blur_rgb(coords.0 as int, coords.1 as int),
    {
        rgb_at(self.blur_buf, coords, self.size)
    }

    /// Material value at a pixel, as a level between 0 and `FULL_LEVEL`.
    pub fn orig_value_at(&self, coords: (u32, u32)) -> (l: u16)
        requires
            self@.wf(),
            in_grid(coords.0 as int, coords.1 as int, self@.size),
        ensures
            l == self@.edge_level(coords.0 as int, coords.1 as int),
            l <= FULL_LEVEL,
    {
        level(self.orig_at(coords))
    }

    /// Value of the blurred image at a pixel, as a level between 0 and
    /// `FULL_LEVEL`.
    pub fn blur_value_at(&self, coords: (u32, u32)) -> (l: u16)
        requires
            self@.wf(),
            in_grid(coords.0 as int, coords.1 as int, self@.size),
        ensures
            l == self@.blur_level(coords.0 as int, coords.1 as int),
            l <= FULL_LEVEL,
    {
        level(self.blur_at(coords))
    }

    /// Estimates the surface normal at a pixel from the blurred image with a
    /// 3x3 Sobel kernel whose taps are clamped to the image. Returns the
    /// gradient, which points along the normal and is not normalised, or
    /// `None` where both of its components are zero.
    pub fn normal_at(&self, coords: (u32, u32)) -> (n: Option<(i32, i32)>)
        requires
            self@.wf(),
            in_grid(coords.0 as int, coords.1 as int, self@.size),
        ensures
            n == self@.normal(coords.0 as int, coords.1 as int),
            n matches Some(g) ==> -4 * FULL_LEVEL <= g.0 <= 4 * FULL_LEVEL && -4 * FULL_LEVEL
                <= g.1 <= 4 * FULL_LEVEL && (g.0 != 0 || g.1 != 0),
    {
        let (left, right, up, down) = neighbours(coords, self.size);
        let c00: i32 = self.blur_value_at((left, up)) as i32;
        let c01: i32 = self.blur_value_at((left, coords.1)) as i32;
        let c02: i32 = self.blur_value_at((left, down)) as i32;
        let c10: i32 = self.blur_value_at((coords.0, up)) as i32;
        let c12: i32 = self.blur_value_at((coords.0, down)) as i32;
        let c20: i32 = self.blur_value_at((right, up)) as i32;
        let c21: i32 = self.blur_value_at((right, coords.1)) as i32;
        let c22: i32 = self.blur_value_at((right, down)) as i32;
        let x: i32 = (c20 + 2 * c21 + c22) - (c00 + 2 * c01 + c02);
        let y: i32 = (c02 + 2 * c12 + c22) - (c00 + 2 * c10 + c20);
        if x == 0 && y == 0 {
            None
        } else {
            Some((x, y))
        }
    }
}

/// The level of an in-grid pixel lies between 0 and `FULL_LEVEL`.
pub proof fn lemma_level_range(scene: Scene, col: int, row: int)
    requires
        scene.wf(),
        in_grid(col, row, scene.size),
    ensures
        0 <= scene.edge_level(col, row) <= FULL_LEVEL,
        0 <= scene.blur_level(col, row) <= FULL_LEVEL,
{
    lemma_cell_in_buffer(col, row, scene.size);
}

/// Bounds safety: the pixel that `validate_bounds` accepts has all four of
/// its bytes inside both material images.
pub proof fn lemma_validated_pixel_in_buffers(scene: Scene, point: (i32, i32))
    requires
        scene.wf(),
        bounds_of(point, scene.size).is_some(),
    ensures
        ({
            let p = bounds_of(point, scene.size).unwrap();
            let first = cell_index(p.0 as int, p.1 as int, scene.size) * 4;
            &&& in_grid(p.0 as int, p.1 as int, scene.size)
            &&& 0 <= first
            &&& first + 3 < scene.edge.len()
            &&& first + 3 < scene.blur.len()
        }),
{
    let p = bounds_of(point, scene.size).unwrap();
    lemma_cell_in_buffer(p.0 as int, p.1 as int, scene.size);
}

/// Every tap of the Sobel kernel at an in-grid pixel is itself an in-grid
/// pixel, on the image border too, and so are the bytes that it reads.
pub proof fn lemma_sobel_taps_in_grid(scene: Scene, col: int, row: int)
    requires
        scene.wf(),
        in_grid(col, row, scene.size),
    ensures
        forall|c: int, r: int|
            (c == before(col) || c == col || c == after(col, scene.size.0 as int)) && (r == before(
                row,
            ) || r == row || r == after(row, scene.size.1 as int)) ==> in_grid(c, r, scene.size)
                && 0 <= #[trigger] cell_index(c, r, scene.size) * 4 && cell_index(
                c,
                r,
                scene.size,
            ) * 4 + 3 < scene.blur.len(),
{
    assert forall|c: int, r: int|
        (c == before(col) || c == col || c == after(col, scene.size.0 as int)) && (r == before(row)
            || r == row || r == after(row, scene.size.1 as int)) implies in_grid(c, r, scene.size)
        && 0 <= #[trigger] cell_index(c, r, scene.size) * 4 && cell_index(c, r, scene.size) * 4 + 3
        < scene.blur.len() by {
        lemma_cell_in_buffer(c, r, scene.size);
    }
}

} // verus!
