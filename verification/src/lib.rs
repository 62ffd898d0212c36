//! The decisions behind a small renderer that draws one textured quad.
//!
//! The renderer itself talks to a window system and a graphics device. What it
//! decides on the way is kept here, free of both, and proved:
//!
//! - `alignment`: how a byte count is rounded up to a multiple of an alignment;
//! - `texture`: how an image is decoded and its rows are packed for upload;
//! - `resource`: which changes of resource state a barrier may make;
//! - `commands`: which commands a pass records, and in what states they find
//!   the resources;
//! - `frame_loop`: how the loop moves through recording, submitting, presenting
//!   and waiting on the fence, and how it ends;
//! - `adapter`: which adapter is picked and in what order feature levels are
//!   tried;
//! - `descriptor`: where a descriptor lies in its heap;
//! - `geometry`: the corners of the quad and the triangles that fill it;
//! - `pipeline`: what the pipeline state and the root signature are made of.

pub mod adapter;
pub mod alignment;
pub mod commands;
pub mod descriptor;
pub mod frame_loop;
pub mod geometry;
pub mod pipeline;
pub mod resource;
pub mod texture;
