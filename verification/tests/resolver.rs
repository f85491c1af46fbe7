use mazegen::choice::{AlgorithmArg, Corner, Dir, OutputTypeArg};
use mazegen::params::{MazeParams, RawSelections, UsageError};
use mazegen::request::{
    AlgorithmSpec, Dimensions, Direction, GenerationRequest, OutputFormat, StartCorner,
};
use mazegen::token::{matches_name, parse_cell_count};

fn word(s: &str) -> Option<String> {
    Some(String::from(s))
}

fn only_algorithm(alg: &str) -> RawSelections {
    RawSelections {
        alg: word(alg),
        height: None,
        width: None,
        output_type: None,
        corner: None,
        direction: None,
    }
}

fn params(alg: AlgorithmArg) -> MazeParams {
    MazeParams {
        alg,
        height: 10,
        width: 10,
        output_type: OutputTypeArg::ASCII,
        corner: None,
        direction: None,
    }
}

#[test]
fn dimensions_default_to_ten_by_ten() {
    let request = only_algorithm("AB").resolve().unwrap();
    assert_eq!(request.dimensions, Dimensions { height: 10, width: 10 });
}

#[test]
fn dimensions_are_those_supplied() {
    let mut raw = only_algorithm("AB");
    raw.height = word("7");
    raw.width = word("3");
    let request = raw.resolve().unwrap();
    assert_eq!(request.dimensions, Dimensions { height: 7, width: 3 });
}

#[test]
fn one_dimension_supplied_other_defaults() {
    let mut raw = only_algorithm("bt");
    raw.width = word("1");
    assert_eq!(raw.resolve().unwrap().dimensions, Dimensions { height: 10, width: 1 });
    let mut raw = only_algorithm("bt");
    raw.height = word("250");
    assert_eq!(raw.resolve().unwrap().dimensions, Dimensions { height: 250, width: 10 });
}

#[test]
fn typed_dimensions_carry_over() {
    let mut p = params(AlgorithmArg::AB);
    p.height = 1;
    p.width = usize::MAX;
    assert_eq!(p.derive_dimensions(), Dimensions { height: 1, width: usize::MAX });
    assert_eq!(p.resolve().dimensions, Dimensions { height: 1, width: usize::MAX });
}

#[test]
fn full_request_from_words() {
    let raw = RawSelections {
        alg: word("sw"),
        height: word("4"),
        width: word("+6"),
        output_type: word("bin"),
        corner: word("se"),
        direction: word("w"),
    };
    assert_eq!(
        raw.resolve(),
        Ok(GenerationRequest {
            dimensions: Dimensions { height: 4, width: 6 },
            output_format: OutputFormat::Binary,
            algorithm: AlgorithmSpec::RowBias { traversal_direction: Direction::West },
        })
    );
}

#[test]
fn parse_gives_typed_choices() {
    let raw = RawSelections {
        alg: word("Bt"),
        height: None,
        width: word("12"),
        output_type: word("ASCII"),
        corner: word("Ne"),
        direction: None,
    };
    assert_eq!(
        raw.parse(),
        Ok(MazeParams {
            alg: AlgorithmArg::BT,
            height: 10,
            width: 12,
            output_type: OutputTypeArg::ASCII,
            corner: Some(Corner::NE),
            direction: None,
        })
    );
}

#[test]
fn row_bias_defaults_to_north() {
    let request = only_algorithm("SW").resolve().unwrap();
    assert_eq!(
        request.algorithm,
        AlgorithmSpec::RowBias { traversal_direction: Direction::North }
    );
    assert_eq!(params(AlgorithmArg::SW).derive_traversal_direction(), Direction::North);
}

#[test]
fn row_bias_takes_the_direction() {
    let mut raw = only_algorithm("SW");
    raw.direction = word("S");
    assert_eq!(
        raw.resolve().unwrap().algorithm,
        AlgorithmSpec::RowBias { traversal_direction: Direction::South }
    );
    let mut p = params(AlgorithmArg::SW);
    p.direction = Some(Dir::E);
    assert_eq!(
        p.derive_algorithm(),
        AlgorithmSpec::RowBias { traversal_direction: Direction::East }
    );
}

#[test]
fn direction_is_ignored_by_other_algorithms() {
    let mut raw = only_algorithm("AB");
    raw.direction = word("S");
    assert_eq!(raw.resolve(), only_algorithm("AB").resolve());
    assert_eq!(raw.resolve().unwrap().algorithm, AlgorithmSpec::RandomWalk);
    let mut raw = only_algorithm("BT");
    raw.direction = word("E");
    assert_eq!(raw.resolve(), only_algorithm("BT").resolve());
}

#[test]
fn quadrant_bias_defaults_to_north_west() {
    let request = only_algorithm("BT").resolve().unwrap();
    assert_eq!(
        request.algorithm,
        AlgorithmSpec::QuadrantBias { start_corner: StartCorner::NorthWest }
    );
    assert_eq!(params(AlgorithmArg::BT).derive_start_corner(), StartCorner::NorthWest);
}

#[test]
fn quadrant_bias_takes_the_corner() {
    let mut raw = only_algorithm("bt");
    raw.corner = word("se");
    assert_eq!(
        raw.resolve().unwrap().algorithm,
        AlgorithmSpec::QuadrantBias { start_corner: StartCorner::SouthEast }
    );
}

#[test]
fn corner_is_ignored_by_other_algorithms() {
    let mut raw = only_algorithm("AB");
    raw.corner = word("SE");
    assert_eq!(raw.resolve(), only_algorithm("AB").resolve());
    let mut raw = only_algorithm("SW");
    raw.corner = word("NE");
    assert_eq!(raw.resolve(), only_algorithm("SW").resolve());
}

#[test]
fn output_type_defaults_to_text() {
    assert_eq!(only_algorithm("AB").resolve().unwrap().output_format, OutputFormat::Text);
    let mut raw = only_algorithm("AB");
    raw.output_type = word("Bin");
    assert_eq!(raw.resolve().unwrap().output_format, OutputFormat::Binary);
    raw.output_type = word("ascii");
    assert_eq!(raw.resolve().unwrap().output_format, OutputFormat::Text);
}

#[test]
fn unknown_algorithm_is_a_usage_error() {
    assert_eq!(only_algorithm("XYZ").resolve(), Err(UsageError::UnknownAlgorithm));
    assert_eq!(only_algorithm("").resolve(), Err(UsageError::UnknownAlgorithm));
    assert_eq!(only_algorithm("A").resolve(), Err(UsageError::UnknownAlgorithm));
    assert_eq!(only_algorithm("ABC").resolve(), Err(UsageError::UnknownAlgorithm));
    assert_eq!(only_algorithm(" AB").resolve(), Err(UsageError::UnknownAlgorithm));
}

#[test]
fn missing_algorithm_is_a_usage_error() {
    let mut raw = only_algorithm("AB");
    raw.alg = None;
    assert_eq!(raw.resolve(), Err(UsageError::MissingAlgorithm));
}

#[test]
fn bad_dimensions_are_usage_errors() {
    for bad in ["0", "", "-1", "abc", "1.5", "+", "1 ", "99999999999999999999999999", "１０"] {
        let mut raw = only_algorithm("AB");
        raw.height = word(bad);
        assert_eq!(raw.resolve(), Err(UsageError::BadHeight));
        let mut raw = only_algorithm("AB");
        raw.width = word(bad);
        assert_eq!(raw.resolve(), Err(UsageError::BadWidth));
    }
}

#[test]
fn unknown_words_are_usage_errors() {
    let mut raw = only_algorithm("AB");
    raw.output_type = word("hex");
    assert_eq!(raw.resolve(), Err(UsageError::UnknownOutputType));
    let mut raw = only_algorithm("AB");
    raw.corner = word("N");
    assert_eq!(raw.resolve(), Err(UsageError::UnknownCorner));
    let mut raw = only_algorithm("AB");
    raw.direction = word("NW");
    assert_eq!(raw.resolve(), Err(UsageError::UnknownDirection));
}

#[test]
fn first_fault_is_reported() {
    let raw = RawSelections {
        alg: word("??"),
        height: word("0"),
        width: word("0"),
        output_type: word("?"),
        corner: word("?"),
        direction: word("?"),
    };
    assert_eq!(raw.resolve(), Err(UsageError::UnknownAlgorithm));
    let raw = RawSelections { alg: word("ab"), ..raw };
    assert_eq!(raw.resolve(), Err(UsageError::BadHeight));
    let raw = RawSelections { height: word("1"), ..raw };
    assert_eq!(raw.resolve(), Err(UsageError::BadWidth));
    let raw = RawSelections { width: word("1"), ..raw };
    assert_eq!(raw.resolve(), Err(UsageError::UnknownOutputType));
    let raw = RawSelections { output_type: word("bin"), ..raw };
    assert_eq!(raw.resolve(), Err(UsageError::UnknownCorner));
    let raw = RawSelections { corner: word("nw"), ..raw };
    assert_eq!(raw.resolve(), Err(UsageError::UnknownDirection));
}

#[test]
fn names_are_read_in_any_case() {
    assert_eq!(AlgorithmArg::parse("AB"), Some(AlgorithmArg::AB));
    assert_eq!(AlgorithmArg::parse("ab"), Some(AlgorithmArg::AB));
    assert_eq!(AlgorithmArg::parse("sW"), Some(AlgorithmArg::SW));
    assert_eq!(AlgorithmArg::parse("Bt"), Some(AlgorithmArg::BT));
    assert_eq!(AlgorithmArg::parse("BA"), None);
    assert_eq!(OutputTypeArg::parse("bin"), Some(OutputTypeArg::BIN));
    assert_eq!(OutputTypeArg::parse("AsCiI"), Some(OutputTypeArg::ASCII));
    assert_eq!(OutputTypeArg::parse("text"), None);
    assert_eq!(Corner::parse("nw"), Some(Corner::NW));
    assert_eq!(Corner::parse("Ne"), Some(Corner::NE));
    assert_eq!(Corner::parse("sw"), Some(Corner::SW));
    assert_eq!(Corner::parse("SE"), Some(Corner::SE));
    assert_eq!(Corner::parse("EN"), None);
    assert_eq!(Dir::parse("n"), Some(Dir::N));
    assert_eq!(Dir::parse("E"), Some(Dir::E));
    assert_eq!(Dir::parse("s"), Some(Dir::S));
    assert_eq!(Dir::parse("W"), Some(Dir::W));
    assert_eq!(Dir::parse("north"), None);
}

#[test]
fn names_convert_to_engine_values() {
    assert_eq!(Corner::NW.convert(), StartCorner::NorthWest);
    assert_eq!(Corner::NE.convert(), StartCorner::NorthEast);
    assert_eq!(Corner::SW.convert(), StartCorner::SouthWest);
    assert_eq!(Corner::SE.convert(), StartCorner::SouthEast);
    assert_eq!(Dir::N.convert(), Direction::North);
    assert_eq!(Dir::E.convert(), Direction::East);
    assert_eq!(Dir::S.convert(), Direction::South);
    assert_eq!(Dir::W.convert(), Direction::West);
    assert_eq!(OutputTypeArg::BIN.convert(), OutputFormat::Binary);
    assert_eq!(OutputTypeArg::ASCII.convert(), OutputFormat::Text);
    let mut p = params(AlgorithmArg::AB);
    p.output_type = OutputTypeArg::BIN;
    assert_eq!(p.derive_output_type(), OutputFormat::Binary);
    assert_eq!(p.derive_algorithm(), AlgorithmSpec::RandomWalk);
}

#[test]
fn matches_name_folds_ascii_letters_only() {
    assert!(matches_name("ascii", "ASCII"));
    assert!(matches_name("", ""));
    assert!(!matches_name("asci", "ASCII"));
    assert!(!matches_name("ascii ", "ASCII"));
    assert!(!matches_name("a[", "A{"));
    assert!(!matches_name("@b", "`b"));
    assert!(!matches_name("ÀB", "AB"));
    assert!(!matches_name("é", "É"));
    assert!(matches_name("éa", "éA"));
    assert!(matches_name("Zé", "zé"));
    assert!(!matches_name("éa", "éb"));
    assert!(!matches_name("ab", "éb"));
}

#[test]
fn cell_counts_are_decimal() {
    assert_eq!(parse_cell_count("10"), Some(10));
    assert_eq!(parse_cell_count("1"), Some(1));
    assert_eq!(parse_cell_count("007"), Some(7));
    assert_eq!(parse_cell_count("+42"), Some(42));
    assert_eq!(parse_cell_count("123456789"), Some(123456789));
    assert_eq!(parse_cell_count("0"), None);
    assert_eq!(parse_cell_count("000"), None);
    assert_eq!(parse_cell_count("+0"), None);
    assert_eq!(parse_cell_count("++1"), None);
    assert_eq!(parse_cell_count("1+"), None);
    assert_eq!(parse_cell_count("0x10"), None);
    assert_eq!(parse_cell_count("/"), None);
    assert_eq!(parse_cell_count(":"), None);
}

#[test]
fn cell_counts_stop_at_the_machine_word() {
    let max = format!("{}", usize::MAX);
    assert_eq!(parse_cell_count(&max), Some(usize::MAX));
    let padded = format!("000{}", usize::MAX);
    assert_eq!(parse_cell_count(&padded), Some(usize::MAX));
    let over = format!("{}", usize::MAX as u128 + 1);
    assert_eq!(parse_cell_count(&over), None);
    let tenfold = format!("{}0", usize::MAX);
    assert_eq!(parse_cell_count(&tenfold), None);
    let then_letter = format!("{}0x", usize::MAX);
    assert_eq!(parse_cell_count(&then_letter), None);
}

#[test]
fn decimal_writing_is_read_back() {
    for n in 1..=2000usize {
        assert_eq!(parse_cell_count(&format!("{}", n)), Some(n));
    }
    for shift in 0..usize::BITS {
        let n = 1usize << shift;
        assert_eq!(parse_cell_count(&format!("{}", n)), Some(n));
    }
}

#[test]
fn every_valid_pair_of_dimensions_is_kept() {
    for h in [1usize, 2, 9, 10, 11, 99, 100, 65535, usize::MAX] {
        for w in [1usize, 3, 10, 1000, usize::MAX - 1] {
            let mut raw = only_algorithm("sw");
            raw.height = word(&format!("{}", h));
            raw.width = word(&format!("{}", w));
            let expected = GenerationRequest {
                dimensions: Dimensions { height: h, width: w },
                ..only_algorithm("sw").resolve().unwrap()
            };
            assert_eq!(raw.resolve(), Ok(expected));
        }
    }
}
