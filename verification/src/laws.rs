//! What holds of every request and of every rendering.

use vstd::prelude::*;
use crate::choice::{AlgorithmArg, Corner, Dir, OutputTypeArg};
use crate::params::{MazeParams, RawSelections, UsageError};
use crate::render::{binary_text, bit_char, byte_literal, text_output};
use crate::request::{
    AlgorithmSpec,
    Dimensions,
    Direction,
    EngineResult,
    GenerationRequest,
    OutputFormat,
    StartCorner,
};
use crate::run::{printed, EngineError};
use crate::token::{
    all_digits,
    ascii_upper,
    cell_count,
    decimal_digits,
    decimal_value,
    digit_value,
    eq_ignore_case,
    is_digit,
    unsigned_part,
};

verus! {

/// Two words that differ in the case of ASCII letters only are the same name
/// or both none: a word equals a name, case aside, exactly when the other does.
pub proof fn lemma_same_word_same_name(a: Seq<char>, b: Seq<char>, name: Seq<char>)
    requires
        eq_ignore_case(a, b),
    ensures
        eq_ignore_case(a, name) == eq_ignore_case(b, name),
{
    if a.len() == name.len() {
        if eq_ignore_case(a, name) {
            assert forall|i: int| 0 <= i < b.len() implies ascii_upper(#[trigger] b[i])
                == ascii_upper(name[i]) by {
                assert(ascii_upper(a[i]) == ascii_upper(b[i]));
            }
        }
        if eq_ignore_case(b, name) {
            assert forall|i: int| 0 <= i < a.len() implies ascii_upper(#[trigger] a[i])
                == ascii_upper(name[i]) by {
                assert(ascii_upper(b[i]) == ascii_upper(name[i]));
            }
        }
    }
}

/// The case of a word's letters makes no difference to what it names.
pub proof fn law_names_ignore_case(a: Seq<char>, b: Seq<char>)
    requires
        eq_ignore_case(a, b),
    ensures
        AlgorithmArg::of_word(a) == AlgorithmArg::of_word(b),
        OutputTypeArg::of_word(a) == OutputTypeArg::of_word(b),
        Corner::of_word(a) == Corner::of_word(b),
        Dir::of_word(a) == Dir::of_word(b),
{
    lemma_same_word_same_name(a, b, seq!['A', 'B']);
    lemma_same_word_same_name(a, b, seq!['S', 'W']);
    lemma_same_word_same_name(a, b, seq!['B', 'T']);
    lemma_same_word_same_name(a, b, seq!['B', 'I', 'N']);
    lemma_same_word_same_name(a, b, seq!['A', 'S', 'C', 'I', 'I']);
    lemma_same_word_same_name(a, b, seq!['N', 'W']);
    lemma_same_word_same_name(a, b, seq!['N', 'E']);
    lemma_same_word_same_name(a, b, seq!['S', 'E']);
    lemma_same_word_same_name(a, b, seq!['N']);
    lemma_same_word_same_name(a, b, seq!['E']);
    lemma_same_word_same_name(a, b, seq!['S']);
    lemma_same_word_same_name(a, b, seq!['W']);
}

/// A request has exactly the height and width that were chosen, whenever both
/// are at least one cell.
pub proof fn law_dimensions_as_chosen(params: MazeParams)
    requires
        params.wf(),
    ensures
        params.request().dimensions == (Dimensions { height: params.height, width: params.width }),
        params.request().wf(),
{
}

/// Where the words make a request, its height is the number that the height
/// word writes, or ten where there is no such word; likewise its width.
pub proof fn law_dimensions_from_words(raw: RawSelections)
    requires
        raw.request() is Ok,
    ensures
        raw.height is None ==> raw.request()->Ok_0.dimensions.height == 10,
        raw.width is None ==> raw.request()->Ok_0.dimensions.width == 10,
        raw.height matches Some(word) ==> cell_count(word@) == Some(
            raw.request()->Ok_0.dimensions.height,
        ),
        raw.width matches Some(word) ==> cell_count(word@) == Some(
            raw.request()->Ok_0.dimensions.width,
        ),
        raw.request()->Ok_0.dimensions.height >= 1,
        raw.request()->Ok_0.dimensions.width >= 1,
{
}

/// The usual decimal writing of a number is read back as that number.
pub proof fn law_decimal_round_trip(n: nat)
    ensures
        decimal_digits(n).len() >= 1,
        all_digits(decimal_digits(n)),
        decimal_value(decimal_digits(n)) == n,
        unsigned_part(decimal_digits(n)) == decimal_digits(n),
        1 <= n <= usize::MAX ==> cell_count(decimal_digits(n)) == Some(n as usize),
    decreases n,
{
    let s = decimal_digits(n);
    if n < 10 {
        assert(s.drop_last() =~= Seq::<char>::empty());
        assert(decimal_value(s.drop_last()) == 0);
        assert(digit_value(s.last()) == n);
        assert(is_digit(s[0]));
    } else {
        let front = decimal_digits(n / 10);
        law_decimal_round_trip(n / 10);
        assert(s.drop_last() =~= front);
        assert(digit_value(s.last()) == n % 10);
        assert(s[0] == front[0]);
        assert(is_digit(front[0]));
        assert forall|i: int| 0 <= i < s.len() implies is_digit(#[trigger] s[i]) by {
            if i < front.len() {
                assert(s[i] == front[i]);
            }
        }
    }
}

/// For every height and width of at least one cell, written in decimal, the
/// request has exactly that height and width, and is in all else the request
/// that the other words make without them.
pub proof fn law_dimensions_from_numbers(raw: RawSelections, h: usize, w: usize)
    requires
        h >= 1,
        w >= 1,
        raw.height matches Some(word) && word@ == decimal_digits(h as nat),
        raw.width matches Some(word) && word@ == decimal_digits(w as nat),
    ensures
        match (RawSelections { height: None, width: None, ..raw }).request() {
            Ok(other) => raw.request() == Ok::<GenerationRequest, UsageError>(
                GenerationRequest { dimensions: Dimensions { height: h, width: w }, ..other },
            ),
            Err(e) => raw.request() == Err::<GenerationRequest, UsageError>(e),
        },
{
    law_decimal_round_trip(h as nat);
    law_decimal_round_trip(w as nat);
}

/// The row-biased algorithm gets the chosen direction, and north where none
/// was chosen.
pub proof fn law_row_bias_direction(params: MazeParams)
    requires
        params.alg == AlgorithmArg::SW,
    ensures
        params.direction is None ==> params.request().algorithm == (AlgorithmSpec::RowBias {
            traversal_direction: Direction::North,
        }),
        params.direction matches Some(d) ==> params.request().algorithm == (
        AlgorithmSpec::RowBias { traversal_direction: d.converted() }),
        params.direction == Some(Dir::S) ==> params.request().algorithm == (
        AlgorithmSpec::RowBias { traversal_direction: Direction::South }),
{
}

/// For any other algorithm than the row-biased one, the direction makes no
/// difference to the request.
pub proof fn law_direction_ignored(params: MazeParams, direction: Option<Dir>)
    requires
        params.alg != AlgorithmArg::SW,
    ensures
        (MazeParams { direction, ..params }).request() == params.request(),
{
}

/// The quadrant-biased algorithm gets the chosen corner, and the north-west
/// corner where none was chosen.
pub proof fn law_quadrant_bias_corner(params: MazeParams)
    requires
        params.alg == AlgorithmArg::BT,
    ensures
        params.corner is None ==> params.request().algorithm == (AlgorithmSpec::QuadrantBias {
            start_corner: StartCorner::NorthWest,
        }),
        params.corner matches Some(c) ==> params.request().algorithm == (
        AlgorithmSpec::QuadrantBias { start_corner: c.converted() }),
{
}

/// For any other algorithm than the quadrant-biased one, the corner makes no
/// difference to the request.
pub proof fn law_corner_ignored(params: MazeParams, corner: Option<Corner>)
    requires
        params.alg != AlgorithmArg::BT,
    ensures
        (MazeParams { corner, ..params }).request() == params.request(),
{
}

/// Words without an algorithm, or with a word that names none, make no
/// request, whatever the other words are.
pub proof fn law_algorithm_required(raw: RawSelections)
    ensures
        raw.alg is None ==> raw.request() == Err::<GenerationRequest, UsageError>(UsageError::MissingAlgorithm),
        raw.alg matches Some(word) && AlgorithmArg::of_word(word@) is None ==> raw.request()
            == Err::<GenerationRequest, UsageError>(UsageError::UnknownAlgorithm),
{
}

/// A failure of the engine prints nothing, whatever format was asked for.
pub proof fn law_engine_failure_prints_nothing(
    format: OutputFormat,
    outcome: Result<EngineResult, EngineError>,
)
    requires
        outcome is Err,
    ensures
        printed(format, outcome) is None,
{
}

/// A text grid is printed as it came, character for character, and only a
/// line feed is added.
pub proof fn law_text_is_passed_through(text: Seq<char>)
    ensures
        text_output(text).len() == text.len() + 1,
        text_output(text).subrange(0, text.len() as int) == text,
        text_output(text).last() == '\n',
{
    assert(text_output(text).subrange(0, text.len() as int) =~= text);
}

/// The rendering of `n` bytes has eleven characters for each byte but the
/// last, which has ten: the literals with one space between neighbours.
pub proof fn law_binary_text_len(bytes: Seq<u8>)
    ensures
        binary_text(bytes).len() == if bytes.len() == 0 {
            0
        } else {
            11 * bytes.len() - 1
        },
    decreases bytes.len(),
{
    if bytes.len() > 1 {
        law_binary_text_len(bytes.drop_last());
    }
}

/// In the rendering, the literal of the byte at place `k` stands at character
/// `11 * k`, and a space stands before it unless it is the first: the order
/// of the bytes is kept and no byte is lost.
pub proof fn law_binary_text_literal_at(bytes: Seq<u8>, k: int)
    requires
        0 <= k < bytes.len(),
    ensures
        11 * k + 10 <= binary_text(bytes).len(),
        binary_text(bytes).subrange(11 * k, 11 * k + 10) == byte_literal(bytes[k]),
        k > 0 ==> binary_text(bytes)[11 * k - 1] == ' ',
    decreases bytes.len(),
{
    law_binary_text_len(bytes);
    if bytes.len() == 1 {
        assert(binary_text(bytes).subrange(0, 10) =~= byte_literal(bytes[0]));
    } else {
        let front = bytes.drop_last();
        law_binary_text_len(front);
        if k < bytes.len() - 1 {
            law_binary_text_literal_at(front, k);
            assert(binary_text(bytes).subrange(11 * k, 11 * k + 10) =~= binary_text(
                front,
            ).subrange(11 * k, 11 * k + 10));
        } else {
            assert(binary_text(bytes).subrange(11 * k, 11 * k + 10) =~= byte_literal(
                bytes.last(),
            ));
        }
    }
}

/// A byte is the sum of its binary digits, each times its weight.
pub proof fn lemma_byte_is_sum_of_bits(x: u8)
    ensures
        x as int == ((x as int / 128) % 2) * 128 + ((x as int / 64) % 2) * 64 + ((x as int / 32)
            % 2) * 32 + ((x as int / 16) % 2) * 16 + ((x as int / 8) % 2) * 8 + ((x as int / 4)
            % 2) * 4 + ((x as int / 2) % 2) * 2 + (x as int / 1) % 2,
{
    let v = x as int;
    assert(v / 128 == (v / 128) % 2);
    assert(v / 64 == 2 * (v / 128) + (v / 64) % 2);
    assert(v / 32 == 2 * (v / 64) + (v / 32) % 2);
    assert(v / 16 == 2 * (v / 32) + (v / 16) % 2);
    assert(v / 8 == 2 * (v / 16) + (v / 8) % 2);
    assert(v / 4 == 2 * (v / 8) + (v / 4) % 2);
    assert(v / 2 == 2 * (v / 4) + (v / 2) % 2);
    assert(v / 1 == 2 * (v / 2) + (v / 1) % 2);
}

/// Two bytes with the same literal are the same byte: the rendering loses
/// nothing.
pub proof fn law_byte_literal_distinct(a: u8, b: u8)
    requires
        byte_literal(a) == byte_literal(b),
    ensures
        a == b,
{
    let la = byte_literal(a);
    let lb = byte_literal(b);
    assert(la[2] == lb[2] && la[3] == lb[3] && la[4] == lb[4] && la[5] == lb[5]);
    assert(la[6] == lb[6] && la[7] == lb[7] && la[8] == lb[8] && la[9] == lb[9]);
    assert((a as int / 128) % 2 == (b as int / 128) % 2) by {
        assert(bit_char(a, 128) == bit_char(b, 128));
    }
    assert((a as int / 64) % 2 == (b as int / 64) % 2) by {
        assert(bit_char(a, 64) == bit_char(b, 64));
    }
    assert((a as int / 32) % 2 == (b as int / 32) % 2) by {
        assert(bit_char(a, 32) == bit_char(b, 32));
    }
    assert((a as int / 16) % 2 == (b as int / 16) % 2) by {
        assert(bit_char(a, 16) == bit_char(b, 16));
    }
    assert((a as int / 8) % 2 == (b as int / 8) % 2) by {
        assert(bit_char(a, 8) == bit_char(b, 8));
    }
    assert((a as int / 4) % 2 == (b as int / 4) % 2) by {
        assert(bit_char(a, 4) == bit_char(b, 4));
    }
    assert((a as int / 2) % 2 == (b as int / 2) % 2) by {
        assert(bit_char(a, 2) == bit_char(b, 2));
    }
    assert((a as int / 1) % 2 == (b as int / 1) % 2) by {
        assert(bit_char(a, 1) == bit_char(b, 1));
    }
    lemma_byte_is_sum_of_bits(a);
    lemma_byte_is_sum_of_bits(b);
}

/// In the rendering a space stands at every eleventh place and nowhere else:
/// between neighbours, never at the start or the end.
pub proof fn law_binary_text_spaces(bytes: Seq<u8>, j: int)
    requires
        0 <= j < binary_text(bytes).len(),
    ensures
        binary_text(bytes)[j] == ' ' <==> j % 11 == 10,
{
    law_binary_text_len(bytes);
    let k = j / 11;
    if j % 11 == 10 {
        law_binary_text_literal_at(bytes, k + 1);
    } else {
        law_binary_text_literal_at(bytes, k);
        let literal = binary_text(bytes).subrange(11 * k, 11 * k + 10);
        assert(literal[j - 11 * k] == binary_text(bytes)[j]);
    }
}

/// Two byte sequences with the same rendering are the same sequence.
pub proof fn law_binary_text_distinct(a: Seq<u8>, b: Seq<u8>)
    requires
        binary_text(a) == binary_text(b),
    ensures
        a == b,
{
    law_binary_text_len(a);
    law_binary_text_len(b);
    assert(a.len() == b.len());
    assert forall|k: int| 0 <= k < a.len() implies a[k] == b[k] by {
        law_binary_text_literal_at(a, k);
        law_binary_text_literal_at(b, k);
        law_byte_literal_distinct(a[k], b[k]);
    }
    assert(a =~= b);
}

} // verus!
