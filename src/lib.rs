//! Point-cloud viewer logic: which LAS point records are drawn, the axis-aligned
//! bounding box of the drawn points, and the run/stop decisions of the render loop.
//!
//! Coordinates are the integers stored in a LAS point record; the file header's
//! scale and offset turn them into world units, which is the caller's business.

mod bbox;
mod point;
mod scene;
mod viewer;

pub use bbox::{bounds_of, Bbox, BoxModel};
pub use point::{colored_points, ColoredPoint, PointRecord, Rgb16};
pub use scene::{LoadError, Scene, SceneModel};
pub use viewer::{Action, Key, RunState, Viewer, ViewerEvent};
