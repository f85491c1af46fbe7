//! From the user's choices to a complete generation request.

use vstd::prelude::*;
use vstd::string::*;
use crate::choice::{AlgorithmArg, Corner, Dir, OutputTypeArg};
use crate::request::{
    AlgorithmSpec,
    Dimensions,
    Direction,
    GenerationRequest,
    OutputFormat,
    StartCorner,
};
use crate::token::{cell_count, parse_cell_count};

verus! {

/// Height and width of a maze for which none was chosen, in cells.
pub const DEFAULT_CELLS: usize = 10;

/// The choices of one run, each already read from its word.
#[derive(Clone, Copy, Debug, PartialEq, Eq, Structural)]
pub struct MazeParams {
    pub alg: AlgorithmArg,
    pub height: usize,
    pub width: usize,
    pub output_type: OutputTypeArg,
    pub corner: Option<Corner>,
    pub direction: Option<Dir>,
}

impl MazeParams {
    /// Both sides of the maze are at least one cell long.
    pub open spec fn wf(&self) -> bool {
        self.height >= 1 && self.width >= 1
    }

    /// The corner handed to the quadrant-biased algorithm: the chosen one, or
    /// the north-west corner where none was chosen.
    pub open spec fn start_corner(&self) -> StartCorner {
        match self.corner {
            Some(corner) => corner.converted(),
            None => StartCorner::NorthWest,
        }
    }

    /// The direction handed to the row-biased algorithm: the chosen one, or
    /// north where none was chosen.
    pub open spec fn traversal_direction(&self) -> Direction {
        match self.direction {
            Some(direction) => direction.converted(),
            None => Direction::North,
        }
    }

    /// The algorithm with the parameter that it consumes. A corner or a
    /// direction chosen for an algorithm that has no use for it is left out.
    pub open spec fn algorithm(&self) -> AlgorithmSpec {
        match self.alg {
            AlgorithmArg::AB => AlgorithmSpec::RandomWalk,
            AlgorithmArg::SW => AlgorithmSpec::RowBias {
                traversal_direction: self.traversal_direction(),
            },
            AlgorithmArg::BT => AlgorithmSpec::QuadrantBias { start_corner: self.start_corner() },
        }
    }

    pub open spec fn dimensions(&self) -> Dimensions {
        Dimensions { height: self.height, width: self.width }
    }

    /// The request that these choices make.
    pub open spec fn request(&self) -> GenerationRequest {
        GenerationRequest {
            dimensions: self.dimensions(),
            output_format: self.output_type.converted(),
            algorithm: self.algorithm(),
        }
    }

    pub fn derive_output_type(&self) -> (r: OutputFormat)
        ensures
            r == self.output_type.converted(),
    {
        self.output_type.convert()
    }

    pub fn derive_algorithm(&self) -> (r: AlgorithmSpec)
        ensures
            r == self.algorithm(),
    {
        match self.alg {
            AlgorithmArg::AB => AlgorithmSpec::RandomWalk,
            AlgorithmArg::SW => AlgorithmSpec::RowBias {
                traversal_direction: self.derive_traversal_direction(),
            },
            AlgorithmArg::BT => AlgorithmSpec::QuadrantBias {
                start_corner: self.derive_start_corner(),
            },
        }
    }

    pub fn derive_dimensions(&self) -> (r: Dimensions)
        ensures
            r == self.dimensions(),
            self.wf() ==> r.wf(),
    {
        Dimensions { height: self.height, width: self.width }
    }

    pub fn derive_start_corner(&self) -> (r: StartCorner)
        ensures
            r == self.start_corner(),
    {
        match self.corner {
            Some(corner) => corner.convert(),
            None => StartCorner::NorthWest,
        }
    }

    pub fn derive_traversal_direction(&self) -> (r: Direction)
        ensures
            r == self.traversal_direction(),
    {
        match self.direction {
            Some(direction) => direction.convert(),
            None => Direction::North,
        }
    }

    /// Builds the request for the engine.
    pub fn resolve(&self) -> (r: GenerationRequest)
        ensures
            r == self.request(),
            self.wf() ==> r.wf(),
    {
        GenerationRequest {
            dimensions: self.derive_dimensions(),
            output_format: self.derive_output_type(),
            algorithm: self.derive_algorithm(),
        }
    }
}

/// The words that the user gave, one per choice; `None` where a choice was
/// left out.
#[derive(Debug)]
pub struct RawSelections {
    pub alg: Option<String>,
    pub height: Option<String>,
    pub width: Option<String>,
    pub output_type: Option<String>,
    pub corner: Option<String>,
    pub direction: Option<String>,
}

/// Why a set of words makes no request.
#[derive(Clone, Copy, Debug, PartialEq, Eq, Structural)]
pub enum UsageError {
    /// No algorithm was named; there is no default.
    MissingAlgorithm,
    /// The algorithm word names no algorithm.
    UnknownAlgorithm,
    /// The height is no cell count of at least one.
    BadHeight,
    /// The width is no cell count of at least one.
    BadWidth,
    /// The output type word names no output type.
    UnknownOutputType,
    /// The corner word names no corner.
    UnknownCorner,
    /// The direction word names no direction.
    UnknownDirection,
}

/// The algorithm chosen by a word; it has to be there.
pub open spec fn algorithm_choice(word: Option<String>) -> Result<AlgorithmArg, UsageError> {
    match word {
        None => Err(UsageError::MissingAlgorithm),
        Some(w) => match AlgorithmArg::of_word(w@) {
            Some(alg) => Ok(alg),
            None => Err(UsageError::UnknownAlgorithm),
        },
    }
}

/// The side length chosen by a word, ten cells where there is none.
pub open spec fn cells_choice(word: Option<String>) -> Option<usize> {
    match word {
        None => Some(DEFAULT_CELLS),
        Some(w) => cell_count(w@),
    }
}

/// The output type chosen by a word, the text grid where there is none.
pub open spec fn output_type_choice(word: Option<String>) -> Option<OutputTypeArg> {
    match word {
        None => Some(OutputTypeArg::ASCII),
        Some(w) => OutputTypeArg::of_word(w@),
    }
}

/// The corner chosen by a word; `Some(None)` where there is none.
pub open spec fn corner_choice(word: Option<String>) -> Option<Option<Corner>> {
    match word {
        None => Some(None),
        Some(w) => match Corner::of_word(w@) {
            Some(corner) => Some(Some(corner)),
            None => None,
        },
    }
}

/// The direction chosen by a word; `Some(None)` where there is none.
pub open spec fn direction_choice(word: Option<String>) -> Option<Option<Dir>> {
    match word {
        None => Some(None),
        Some(w) => match Dir::of_word(w@) {
            Some(direction) => Some(Some(direction)),
            None => None,
        },
    }
}

impl RawSelections {
    /// The choices that the words make, or the first fault among them, taken
    /// in the order algorithm, height, width, output type, corner, direction.
    /// Every word is held to its own rule, also one that the chosen algorithm
    /// has no use for.
    pub open spec fn choices(&self) -> Result<MazeParams, UsageError> {
        if let Err(e) = algorithm_choice(self.alg) {
            Err(e)
        } else if cells_choice(self.height) is None {
            Err(UsageError::BadHeight)
        } else if cells_choice(self.width) is None {
            Err(UsageError::BadWidth)
        } else if output_type_choice(self.output_type) is None {
            Err(UsageError::UnknownOutputType)
        } else if corner_choice(self.corner) is None {
            Err(UsageError::UnknownCorner)
        } else if direction_choice(self.direction) is None {
            Err(UsageError::UnknownDirection)
        } else {
            Ok(
                MazeParams {
                    alg: algorithm_choice(self.alg)->Ok_0,
                    height: cells_choice(self.height)->Some_0,
                    width: cells_choice(self.width)->Some_0,
                    output_type: output_type_choice(self.output_type)->Some_0,
                    corner: corner_choice(self.corner)->Some_0,
                    direction: direction_choice(self.direction)->Some_0,
                },
            )
        }
    }

    /// The request that the words make, or the first fault among them.
    pub open spec fn request(&self) -> Result<GenerationRequest, UsageError> {
        match self.choices() {
            Ok(params) => Ok(params.request()),
            Err(e) => Err(e),
        }
    }

    /// Reads every word. A side of zero cells is refused here, so that no
    /// request for an empty maze reaches the engine.
    pub fn parse(&self) -> (r: Result<MazeParams, UsageError>)
        ensures
            r == self.choices(),
            r matches Ok(params) ==> params.wf(),
    {
        let alg = match &self.alg {
            None => { return Err(UsageError::MissingAlgorithm); },
            Some(w) => match AlgorithmArg::parse(w.as_str()) {
                Some(alg) => alg,
                None => { return Err(UsageError::UnknownAlgorithm); },
            },
        };
        let height = match &self.height {
            None => DEFAULT_CELLS,
            Some(w) => match parse_cell_count(w.as_str()) {
                Some(n) => n,
                None => { return Err(UsageError::BadHeight); },
            },
        };
        let width = match &self.width {
            None => DEFAULT_CELLS,
            Some(w) => match parse_cell_count(w.as_str()) {
                Some(n) => n,
                None => { return Err(UsageError::BadWidth); },
            },
        };
        let output_type = match &self.output_type {
            None => OutputTypeArg::ASCII,
            Some(w) => match OutputTypeArg::parse(w.as_str()) {
                Some(t) => t,
                None => { return Err(UsageError::UnknownOutputType); },
            },
        };
        let corner = match &self.corner {
            None => None,
            Some(w) => match Corner::parse(w.as_str()) {
                Some(c) => Some(c),
                None => { return Err(UsageError::UnknownCorner); },
            },
        };
        let direction = match &self.direction {
            None => None,
            Some(w) => match Dir::parse(w.as_str()) {
                Some(d) => Some(d),
                None => { return Err(UsageError::UnknownDirection); },
            },
        };
        Ok(MazeParams { alg, height, width, output_type, corner, direction })
    }

    /// Reads every word and builds the request for the engine.
    pub fn resolve(&self) -> (r: Result<GenerationRequest, UsageError>)
        ensures
            r == self.request(),
            r matches Ok(request) ==> request.wf(),
    {
        match self.parse() {
            Ok(params) => Ok(params.resolve()),
            Err(e) => Err(e),
        }
    }
}

} // verus!
