//! A software triangle rasteriser, verified with Verus.
//!
//! Meshes run through a programmable vertex and fragment stage, their
//! fragments are gathered per pixel with order-independent transparency,
//! resolved into a frame of packed RGB pixels and smoothed by an edge-aware
//! pass.
//!
//! # Numbers
//!
//! Every coordinate, colour channel, weight and depth is a Q15.16
//! fixed-point number (`fixed::Fixed`): the integer `raw` stands for
//! `raw / 65536`. Sums of products are formed exactly in 128 bits, rounded
//! towards negative infinity once, and saturated to 32 bits, and each
//! contract says so. Colours are straight RGBA with channels from 0 to 1;
//! depths are clip-space `z`, smaller is nearer.
//!
//! # Stages
//!
//! * `mesh`: vertices, faces and meshes; `obj` builds them from the lines of
//!   a mesh description.
//! * `storage`, `texture2d`: the uniforms of a draw call.
//! * `shader`: the two programmable stages, and a shader that textures.
//! * `rasterizer`: culling, the viewport transform, coverage, interpolation
//!   in perspective, and the depth test; `alpha_buffer` holds the fragments
//!   of each pixel and resolves them.
//! * `post_processor`: the smoothing pass.
//! * `renderer`: a frame from start to end.
//!
//! # What is proved
//!
//! Every function is proved to meet its contract and to run without
//! overflow or access out of bounds, but for three: the rows of a frame and
//! the bands of a screen are shared out among worker threads by rayon, and
//! the two functions that hand them out (`draw_bands` in `rasterizer` and
//! `smooth_rows` in `post_processor`) and the one that asks rayon for the
//! number of workers are taken on trust. What runs on each row and on each
//! band is proved, and the frame does not depend on the number of workers.

pub mod alpha_buffer;
pub mod bounding_box;
pub mod fixed;
pub mod grid;
pub mod mesh;
pub mod obj;
pub mod pixel;
pub mod post_processor;
pub mod rasterizer;
pub mod renderer;
pub mod shader;
pub mod storage;
pub mod texture2d;
pub mod vector;
