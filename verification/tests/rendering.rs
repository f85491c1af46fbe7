use mazegen::params::{RawSelections, UsageError};
use mazegen::render::{push_byte_literal, render, render_binary, render_text, ShapeMismatch};
use mazegen::request::{
    AlgorithmSpec, Dimensions, EngineResult, GenerationRequest, OutputFormat,
};
use mazegen::run::{begin, finish, EngineError, Failure, Step};

fn request(output_format: OutputFormat) -> GenerationRequest {
    GenerationRequest {
        dimensions: Dimensions { height: 2, width: 2 },
        output_format,
        algorithm: AlgorithmSpec::RandomWalk,
    }
}

#[test]
fn text_is_passed_through_with_a_newline() {
    assert_eq!(render_text("X\n"), "X\n\n");
    assert_eq!(render_text(""), "\n");
    assert_eq!(render_text("+--+\n|  |\n+--+"), "+--+\n|  |\n+--+\n");
    assert_eq!(render_text("a\\n\t\"é"), "a\\n\t\"é\n");
    let result = EngineResult::Text(String::from("X\n"));
    assert_eq!(render(OutputFormat::Text, &result), Ok(String::from("X\n\n")));
}

#[test]
fn bytes_are_binary_literals() {
    assert_eq!(render_binary(&[0, 255, 10]), "0b00000000 0b11111111 0b00001010");
    let result = EngineResult::Binary(vec![0, 255, 10]);
    assert_eq!(
        render(OutputFormat::Binary, &result),
        Ok(String::from("0b00000000 0b11111111 0b00001010"))
    );
}

#[test]
fn binary_edge_cases() {
    assert_eq!(render_binary(&[]), "");
    assert_eq!(render_binary(&[10]), "0b00001010");
    assert_eq!(render_binary(&[1, 2]), "0b00000001 0b00000010");
    assert_eq!(render_binary(&[128, 64, 32, 16, 8, 4]), 
        "0b10000000 0b01000000 0b00100000 0b00010000 0b00001000 0b00000100");
    assert_eq!(render_binary(&[0xA5, 0x5A]), "0b10100101 0b01011010");
}

#[test]
fn every_byte_has_its_own_literal() {
    for b in 0..=255u8 {
        let mut out = String::from(">");
        push_byte_literal(&mut out, b);
        assert_eq!(out, format!(">0b{:08b}", b));
    }
}

#[test]
fn binary_length_and_separators() {
    let bytes: Vec<u8> = (0..=255u8).collect();
    let out = render_binary(&bytes);
    assert_eq!(out.len(), 11 * 256 - 1);
    for (k, part) in out.split(' ').enumerate() {
        assert_eq!(part, format!("0b{:08b}", bytes[k]));
    }
    assert_eq!(out.split(' ').count(), 256);
}

#[test]
fn wrong_shape_is_refused() {
    let text = EngineResult::Text(String::from("X"));
    assert_eq!(
        render(OutputFormat::Binary, &text),
        Err(ShapeMismatch { requested: OutputFormat::Binary })
    );
    let bytes = EngineResult::Binary(vec![1]);
    assert_eq!(
        render(OutputFormat::Text, &bytes),
        Err(ShapeMismatch { requested: OutputFormat::Text })
    );
}

#[test]
fn run_begins_with_a_request() {
    let raw = RawSelections {
        alg: Some(String::from("ab")),
        height: Some(String::from("2")),
        width: Some(String::from("2")),
        output_type: None,
        corner: None,
        direction: None,
    };
    match begin(&raw) {
        Step::Generate(r) => assert_eq!(r, request(OutputFormat::Text)),
        other => panic!("unexpected step {:?}", other),
    }
}

#[test]
fn unknown_algorithm_never_reaches_the_engine() {
    let raw = RawSelections {
        alg: Some(String::from("XYZ")),
        height: None,
        width: None,
        output_type: None,
        corner: None,
        direction: None,
    };
    assert!(matches!(begin(&raw), Step::Fail(Failure::Usage(UsageError::UnknownAlgorithm))));
    let raw = RawSelections { alg: None, ..raw };
    assert!(matches!(begin(&raw), Step::Fail(Failure::Usage(UsageError::MissingAlgorithm))));
}

#[test]
fn engine_failure_prints_nothing() {
    for format in [OutputFormat::Text, OutputFormat::Binary] {
        let outcome = Err(EngineError { message: String::from("too large") });
        match finish(&request(format), outcome) {
            Step::Fail(Failure::Engine(e)) => assert_eq!(e.message, "too large"),
            other => panic!("unexpected step {:?}", other),
        }
    }
}

#[test]
fn run_ends_with_the_rendered_answer() {
    let step = finish(
        &request(OutputFormat::Text),
        Ok(EngineResult::Text(String::from("X\n"))),
    );
    match step {
        Step::Print(text) => assert_eq!(text, "X\n\n"),
        other => panic!("unexpected step {:?}", other),
    }
    let step = finish(&request(OutputFormat::Binary), Ok(EngineResult::Binary(vec![0, 255, 10])));
    match step {
        Step::Print(text) => assert_eq!(text, "0b00000000 0b11111111 0b00001010"),
        other => panic!("unexpected step {:?}", other),
    }
}

#[test]
fn run_fails_on_the_wrong_shape() {
    let step = finish(&request(OutputFormat::Binary), Ok(EngineResult::Text(String::from("X"))));
    assert!(matches!(
        step,
        Step::Fail(Failure::Shape(ShapeMismatch { requested: OutputFormat::Binary }))
    ));
    let step = finish(&request(OutputFormat::Text), Ok(EngineResult::Binary(vec![])));
    assert!(matches!(
        step,
        Step::Fail(Failure::Shape(ShapeMismatch { requested: OutputFormat::Text }))
    ));
}
