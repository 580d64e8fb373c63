use vstd::prelude::*;
use crate::foreign::ObjectId;

verus! {

/// A horizontal edge or center of a view.
#[derive(Clone, Copy, Debug, PartialEq, Eq, Structural)]
pub enum XEdge {
    Leading,
    Trailing,
    CenterX,
}

/// A vertical edge or center of a view.
#[derive(Clone, Copy, Debug, PartialEq, Eq, Structural)]
pub enum YEdge {
    Top,
    Bottom,
    CenterY,
}

/// A size of a view.
#[derive(Clone, Copy, Debug, PartialEq, Eq, Structural)]
pub enum Dimension {
    Width,
    Height,
}

/// The foreign constraint anchor of a horizontal edge of `view`.
#[derive(Clone, Copy, Debug, PartialEq, Eq, Structural)]
pub struct LayoutAnchorX {
    pub view: ObjectId,
    pub edge: XEdge,
}

/// The foreign constraint anchor of a vertical edge of `view`.
#[derive(Clone, Copy, Debug, PartialEq, Eq, Structural)]
pub struct LayoutAnchorY {
    pub view: ObjectId,
    pub edge: YEdge,
}

/// The foreign constraint anchor of a size of `view`.
#[derive(Clone, Copy, Debug, PartialEq, Eq, Structural)]
pub struct LayoutAnchorDimension {
    pub view: ObjectId,
    pub dimension: Dimension,
}

impl LayoutAnchorX {
    pub fn new(view: ObjectId, edge: XEdge) -> (r: LayoutAnchorX)
        ensures
            r == (LayoutAnchorX { view, edge }),
    {
        LayoutAnchorX { view, edge }
    }
}

impl LayoutAnchorY {
    pub fn new(view: ObjectId, edge: YEdge) -> (r: LayoutAnchorY)
        ensures
            r == (LayoutAnchorY { view, edge }),
    {
        LayoutAnchorY { view, edge }
    }
}

impl LayoutAnchorDimension {
    pub fn new(view: ObjectId, dimension: Dimension) -> (r: LayoutAnchorDimension)
        ensures
            r == (LayoutAnchorDimension { view, dimension }),
    {
        LayoutAnchorDimension { view, dimension }
    }
}

} // verus!
