//! Integer core of a two-dimensional light-transport renderer.
//!
//! A scene is a pair of RGBA8 images of one size: an edge mask that says
//! where the material is, and a blurred copy of it from which surface
//! normals are estimated. Rays walk over the pixel grid, leave their colour
//! in every pixel they visit, and scatter where they cross a material
//! boundary. Frame after frame the accumulated image is reweighted so that
//! it always holds the mean of all rays cast so far.
//!
//! Everything here works on integers and is proved: bounds checks and cell
//! indices (`grid`), the material sampler and the Sobel normal (`scene`),
//! the decisions of a ray's walk (`ray`), and the weights and the byte
//! layout of a frame (`frame`). The continuous side of a ray, its position,
//! direction and colour, belongs to the caller, who presents the floored
//! position of the ray to `RaytraceState::visit_random`, does what the
//! returned action says, and advances the ray.

pub mod frame;
pub mod grid;
pub mod random;
pub mod ray;
pub mod scene;
