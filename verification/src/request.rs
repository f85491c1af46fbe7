//! The values exchanged with the generation engine.

use vstd::prelude::*;

verus! {

/// A cardinal direction; the row-biased algorithm traverses along it.
#[derive(Clone, Copy, Debug, PartialEq, Eq, Structural)]
pub enum Direction {
    North,
    East,
    South,
    West,
}

/// A corner of the grid; the quadrant-biased algorithm starts from it.
#[derive(Clone, Copy, Debug, PartialEq, Eq, Structural)]
pub enum StartCorner {
    NorthWest,
    NorthEast,
    SouthWest,
    SouthEast,
}

/// The algorithm the engine runs, each variant with exactly the parameters it
/// consumes.
#[derive(Clone, Copy, Debug, PartialEq, Eq, Structural)]
pub enum AlgorithmSpec {
    RandomWalk,
    RowBias { traversal_direction: Direction },
    QuadrantBias { start_corner: StartCorner },
}

/// The presentation the engine is asked for.
#[derive(Clone, Copy, Debug, PartialEq, Eq, Structural)]
pub enum OutputFormat {
    Text,
    Binary,
}

/// Size of the maze, in cells.
#[derive(Clone, Copy, Debug, PartialEq, Eq, Structural)]
pub struct Dimensions {
    pub height: usize,
    pub width: usize,
}

impl Dimensions {
    /// A maze has at least one row and one column.
    pub open spec fn wf(&self) -> bool {
        self.height >= 1 && self.width >= 1
    }
}

/// Everything the engine needs for one run.
#[derive(Clone, Copy, Debug, PartialEq, Eq, Structural)]
pub struct GenerationRequest {
    pub dimensions: Dimensions,
    pub output_format: OutputFormat,
    pub algorithm: AlgorithmSpec,
}

impl GenerationRequest {
    pub open spec fn wf(&self) -> bool {
        self.dimensions.wf()
    }
}

/// What the engine produced: a finished text grid, or the packed wall bytes in
/// the engine's own order.
#[derive(Debug)]
pub enum EngineResult {
    Text(String),
    Binary(Vec<u8>),
}

impl EngineResult {
    /// The format this result is the answer to.
    pub open spec fn format(&self) -> OutputFormat {
        match self {
            EngineResult::Text(_) => OutputFormat::Text,
            EngineResult::Binary(_) => OutputFormat::Binary,
        }
    }
}

} // verus!
