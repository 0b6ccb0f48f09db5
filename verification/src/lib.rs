//! An animation and rendering runtime: scenes of 2D paths, ellipses and 3D
//! meshes are placed in a world, animated over time by eased keyframe
//! interpolation, and turned into per-frame draw plans for a GPU back end and
//! a video encoder.
//!
//! Every scalar quantity is a fixed-point integer (see [`fixed`]), so that
//! interpolation, transform composition and geometry bookkeeping are exact
//! and verified.

#![allow(unused_imports)]

use vstd::prelude::*;

pub mod animation;
pub mod camera;
pub mod color;
pub mod controller;
pub mod ellipse;
pub mod fixed;
pub mod graph;
pub mod instance;
pub mod keyframe;
pub mod math;
pub mod mesh;
pub mod output;
pub mod path;
pub mod shader;
pub mod shapes;
pub mod text;
pub mod texture;
pub mod transform;
pub mod video;
pub mod world;
