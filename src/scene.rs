use vstd::prelude::*;
use crate::bbox::{bounds_of, box_of, Bbox, BoxModel};
use crate::point::{colored_of, lemma_nothing_drawn_iff_no_color, colored_points, ColoredPoint, PointRecord};

verus! {

/// Why a file's records give nothing to draw.
#[derive(Clone, Copy, Debug, PartialEq, Eq, Structural)]
pub enum LoadError {
    /// No record carries a color, so no point would be drawn.
    NoData,
}

/// What a scene is: the drawn points and their bounding box.
pub struct SceneModel {
    pub points: Seq<ColoredPoint>,
    pub bounds: BoxModel,
}

/// The static scene that the viewer draws: at least one point, and the box
/// around all of them.
pub struct Scene {
    points: Vec<ColoredPoint>,
    bounds: Bbox,
}

impl View for Scene {
    type V = SceneModel;

    closed spec fn view(&self) -> SceneModel {
        SceneModel { points: self.points@, bounds: self.bounds@ }
    }
}

impl Scene {
    /// The scene holds a point, and its box is the box of its points.
    pub open spec fn wf(&self) -> bool {
        &&& self@.points.len() > 0
        &&& self@.bounds == box_of(self@.points)
        &&& self@.bounds.wf()
    }

    /// The scene of a file's records: the records that carry a color, and their
    /// box. Fails with `NoData` exactly when no record carries a color,
    /// so that there is nothing to draw.
    pub fn from_records(records: &Vec<PointRecord>) -> (r: Result<Scene, LoadError>)
        ensures
            (forall|i: int| 0 <= i < records@.len() ==> (#[trigger] records@[i]).color is None) <==> r is Err,
            r matches Err(e) ==> e == LoadError::NoData,
            r matches Ok(s) ==> s.wf() && s@.points == colored_of(records@),
    {
        let points = colored_points(records);
        proof {
            lemma_nothing_drawn_iff_no_color(records@);
        }
        match bounds_of(&points) {
            Some(bounds) => Ok(Scene { points, bounds }),
            None => Err(LoadError::NoData),
        }
    }

    /// The drawn points, in the order of their records.
    pub fn points(&self) -> (r: &Vec<ColoredPoint>)
        ensures
            r@ == self@.points,
    {
        &self.points
    }

    /// The bounding box of the drawn points.
    pub fn bounds(&self) -> (r: Bbox)
        ensures
            r@ == self@.bounds,
    {
        self.bounds
    }
}

} // verus!
