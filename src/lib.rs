//! A unified drawing surface over the native 2D graphics stack.
//!
//! This crate holds the part of the library that can be stated and proved:
//! geometric value types, the native codes of the library's enumerations,
//! the classification of native failures, the assembly of hit-test results
//! and the begin/draw/end/present protocol that every backend follows.
use vstd::prelude::*;

pub mod brush;
pub mod com;
pub mod context;
pub mod draw_command;
pub mod error;
pub mod geometry;
pub mod image;
pub mod path;
pub mod text;

pub use brush::GradientMode;
pub use com::CoInit;
pub use context::{DrawAction, DrawCycle, DrawPhase, DrawStep};
pub use draw_command::CapStyle;
pub use error::{GraphicsError, Result};
pub use geometry::{Point, Rect, Size, Vector};
pub use image::Interpolation;
pub use path::PathEnd;
pub use text::{FontLineGapUsage, HitTestResult, ParagraphAlignment, TextAlignment};
