//! Integer vectors and rectangles for grid-based geometry.
//!
//! Every operation is field-wise integer arithmetic. Overflow, unsigned
//! underflow and division by zero are never performed: each operator's
//! precondition rules them out, and its postcondition states the exact
//! mathematical result.
pub mod laws;
pub mod rect;
pub mod vector;

pub use rect::{Rect, URect};
pub use vector::{UVec2, Vec2, Vec3};
