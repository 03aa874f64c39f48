//! Planar geometry values (points, segments, rectangles) together with the
//! decision logic that sits around the `tg` geometry engine: bounds-checked
//! access to indexed items and the rules by which a point is read back from
//! its serialized forms.
//!
//! The coordinate type is a parameter `C` of every value type; the engine
//! itself works with `f64` coordinates.

pub mod access;
pub mod index;
pub mod point;
pub mod point_form;
pub mod rect;
pub mod segment;

pub use access::{checked_at, checked_level_at};
pub use index::IndexType;
pub use point::Point;
pub use point_form::{PointElements, PointField, PointFields, PointFormError};
pub use rect::Rect;
pub use segment::Segment;
