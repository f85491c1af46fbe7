//! The names a user may choose from, and what each stands for in a request.

use vstd::prelude::*;
use vstd::string::*;
use crate::request::{Direction, OutputFormat, StartCorner};
use crate::token::{eq_ignore_case, matches_name};

verus! {

/// The generation algorithms, by the names the command line knows them by.
#[derive(Clone, Copy, Debug, PartialEq, Eq, Structural)]
pub enum AlgorithmArg {
    AB,
    SW,
    BT,
}

/// The output types, by their command-line names.
#[derive(Clone, Copy, Debug, PartialEq, Eq, Structural)]
pub enum OutputTypeArg {
    BIN,
    ASCII,
}

/// The corners, by their command-line names.
#[derive(Clone, Copy, Debug, PartialEq, Eq, Structural)]
pub enum Corner {
    NW,
    NE,
    SW,
    SE,
}

/// The directions, by their command-line names.
#[derive(Clone, Copy, Debug, PartialEq, Eq, Structural)]
pub enum Dir {
    N,
    E,
    S,
    W,
}

impl AlgorithmArg {
    /// The algorithm that a word names, if any.
    pub open spec fn of_word(word: Seq<char>) -> Option<AlgorithmArg> {
        if eq_ignore_case(word, seq!['A', 'B']) {
            Some(AlgorithmArg::AB)
        } else if eq_ignore_case(word, seq!['S', 'W']) {
            Some(AlgorithmArg::SW)
        } else if eq_ignore_case(word, seq!['B', 'T']) {
            Some(AlgorithmArg::BT)
        } else {
            None
        }
    }

    /// Reads an algorithm name.
    pub fn parse(word: &str) -> (r: Option<AlgorithmArg>)
        ensures
            r == Self::of_word(word@),
    {
        proof {
            reveal_strlit("AB");
            reveal_strlit("SW");
            reveal_strlit("BT");
            assert("AB"@ =~= seq!['A', 'B']);
            assert("SW"@ =~= seq!['S', 'W']);
            assert("BT"@ =~= seq!['B', 'T']);
        }
        if matches_name(word, "AB") {
            Some(AlgorithmArg::AB)
        } else if matches_name(word, "SW") {
            Some(AlgorithmArg::SW)
        } else if matches_name(word, "BT") {
            Some(AlgorithmArg::BT)
        } else {
            None
        }
    }
}

impl OutputTypeArg {
    /// The output type that a word names, if any.
    pub open spec fn of_word(word: Seq<char>) -> Option<OutputTypeArg> {
        if eq_ignore_case(word, seq!['B', 'I', 'N']) {
            Some(OutputTypeArg::BIN)
        } else if eq_ignore_case(word, seq!['A', 'S', 'C', 'I', 'I']) {
            Some(OutputTypeArg::ASCII)
        } else {
            None
        }
    }

    /// Reads an output type name.
    pub fn parse(word: &str) -> (r: Option<OutputTypeArg>)
        ensures
            r == Self::of_word(word@),
    {
        proof {
            reveal_strlit("BIN");
            reveal_strlit("ASCII");
            assert("BIN"@ =~= seq!['B', 'I', 'N']);
            assert("ASCII"@ =~= seq!['A', 'S', 'C', 'I', 'I']);
        }
        if matches_name(word, "BIN") {
            Some(OutputTypeArg::BIN)
        } else if matches_name(word, "ASCII") {
            Some(OutputTypeArg::ASCII)
        } else {
            None
        }
    }

    /// The format that the engine is asked for.
    pub open spec fn converted(&self) -> OutputFormat {
        match self {
            OutputTypeArg::BIN => OutputFormat::Binary,
            OutputTypeArg::ASCII => OutputFormat::Text,
        }
    }

    pub fn convert(&self) -> (r: OutputFormat)
        ensures
            r == self.converted(),
    {
        match self {
            OutputTypeArg::BIN => OutputFormat::Binary,
            OutputTypeArg::ASCII => OutputFormat::Text,
        }
    }
}

impl Corner {
    /// The corner that a word names, if any.
    pub open spec fn of_word(word: Seq<char>) -> Option<Corner> {
        if eq_ignore_case(word, seq!['N', 'W']) {
            Some(Corner::NW)
        } else if eq_ignore_case(word, seq!['N', 'E']) {
            Some(Corner::NE)
        } else if eq_ignore_case(word, seq!['S', 'W']) {
            Some(Corner::SW)
        } else if eq_ignore_case(word, seq!['S', 'E']) {
            Some(Corner::SE)
        } else {
            None
        }
    }

    /// Reads a corner name.
    pub fn parse(word: &str) -> (r: Option<Corner>)
        ensures
            r == Self::of_word(word@),
    {
        proof {
            reveal_strlit("NW");
            reveal_strlit("NE");
            reveal_strlit("SW");
            reveal_strlit("SE");
            assert("NW"@ =~= seq!['N', 'W']);
            assert("NE"@ =~= seq!['N', 'E']);
            assert("SW"@ =~= seq!['S', 'W']);
            assert("SE"@ =~= seq!['S', 'E']);
        }
        if matches_name(word, "NW") {
            Some(Corner::NW)
        } else if matches_name(word, "NE") {
            Some(Corner::NE)
        } else if matches_name(word, "SW") {
            Some(Corner::SW)
        } else if matches_name(word, "SE") {
            Some(Corner::SE)
        } else {
            None
        }
    }

    /// The corner of the grid that the name stands for.
    pub open spec fn converted(&self) -> StartCorner {
        match self {
            Corner::NW => StartCorner::NorthWest,
            Corner::NE => StartCorner::NorthEast,
            Corner::SW => StartCorner::SouthWest,
            Corner::SE => StartCorner::SouthEast,
        }
    }

    pub fn convert(&self) -> (r: StartCorner)
        ensures
            r == self.converted(),
    {
        match self {
            Corner::NW => StartCorner::NorthWest,
            Corner::NE => StartCorner::NorthEast,
            Corner::SW => StartCorner::SouthWest,
            Corner::SE => StartCorner::SouthEast,
        }
    }
}

impl Dir {
    /// The direction that a word names, if any.
    pub open spec fn of_word(word: Seq<char>) -> Option<Dir> {
        if eq_ignore_case(word, seq!['N']) {
            Some(Dir::N)
        } else if eq_ignore_case(word, seq!['E']) {
            Some(Dir::E)
        } else if eq_ignore_case(word, seq!['S']) {
            Some(Dir::S)
        } else if eq_ignore_case(word, seq!['W']) {
            Some(Dir::W)
        } else {
            None
        }
    }

    /// Reads a direction name.
    pub fn parse(word: &str) -> (r: Option<Dir>)
        ensures
            r == Self::of_word(word@),
    {
        proof {
            reveal_strlit("N");
            reveal_strlit("E");
            reveal_strlit("S");
            reveal_strlit("W");
            assert("N"@ =~= seq!['N']);
            assert("E"@ =~= seq!['E']);
            assert("S"@ =~= seq!['S']);
            assert("W"@ =~= seq!['W']);
        }
        if matches_name(word, "N") {
            Some(Dir::N)
        } else if matches_name(word, "E") {
            Some(Dir::E)
        } else if matches_name(word, "S") {
            Some(Dir::S)
        } else if matches_name(word, "W") {
            Some(Dir::W)
        } else {
            None
        }
    }

    /// The cardinal direction that the name stands for.
    pub open spec fn converted(&self) -> Direction {
        match self {
            Dir::N => Direction::North,
            Dir::E => Direction::East,
            Dir::S => Direction::South,
            Dir::W => Direction::West,
        }
    }

    pub fn convert(&self) -> (r: Direction)
        ensures
            r == self.converted(),
    {
        match self {
            Dir::N => Direction::North,
            Dir::E => Direction::East,
            Dir::S => Direction::South,
            Dir::W => Direction::West,
        }
    }
}

} // verus!
