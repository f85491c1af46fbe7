//! Formatting of an engine result for printing.

use vstd::prelude::*;
use vstd::string::*;
use crate::request::{EngineResult, OutputFormat};

verus! {

/// The binary digit of `b` that has the given weight (a power of two).
pub open spec fn bit_char(b: u8, weight: int) -> char {
    if (b as int / weight) % 2 == 1 {
        '1'
    } else {
        '0'
    }
}

/// The literal of one byte: `0b` and its eight binary digits, the most
/// significant first.
pub open spec fn byte_literal(b: u8) -> Seq<char> {
    seq![
        '0',
        'b',
        bit_char(b, 128),
        bit_char(b, 64),
        bit_char(b, 32),
        bit_char(b, 16),
        bit_char(b, 8),
        bit_char(b, 4),
        bit_char(b, 2),
        bit_char(b, 1),
    ]
}

/// The literals of the bytes in their order, one space between neighbours and
/// none at either end.
pub open spec fn binary_text(bytes: Seq<u8>) -> Seq<char>
    decreases bytes.len(),
{
    if bytes.len() == 0 {
        Seq::empty()
    } else if bytes.len() == 1 {
        byte_literal(bytes[0])
    } else {
        binary_text(bytes.drop_last()) + seq![' '] + byte_literal(bytes.last())
    }
}

/// The text grid as it is printed: unchanged, with one line feed after it.
pub open spec fn text_output(text: Seq<char>) -> Seq<char> {
    text + seq!['\n']
}

/// The request asked for one format and the engine answered in the other.
#[derive(Clone, Copy, Debug, PartialEq, Eq, Structural)]
pub struct ShapeMismatch {
    pub requested: OutputFormat,
}

/// What is printed for a result, where its shape is the requested one.
pub open spec fn rendered(format: OutputFormat, result: EngineResult) -> Result<
    Seq<char>,
    ShapeMismatch,
> {
    match (format, result) {
        (OutputFormat::Text, EngineResult::Text(text)) => Ok(text_output(text@)),
        (OutputFormat::Binary, EngineResult::Binary(bytes)) => Ok(binary_text(bytes@)),
        _ => Err(ShapeMismatch { requested: format }),
    }
}

fn push_bit(out: &mut String, b: u8, weight: u8)
    requires
        weight >= 1,
    ensures
        final(out)@ == old(out)@.push(bit_char(b, weight as int)),
{
    proof {
        reveal_strlit("1");
        reveal_strlit("0");
    }
    if (b / weight) % 2 == 1 {
        out.append("1");
        assert(out@ =~= old(out)@.push('1'));
    } else {
        out.append("0");
        assert(out@ =~= old(out)@.push('0'));
    }
}

/// Appends the literal of `b` to `out`.
pub fn push_byte_literal(out: &mut String, b: u8)
    ensures
        final(out)@ == old(out)@ + byte_literal(b),
{
    proof {
        reveal_strlit("0b");
    }
    out.append("0b");
    push_bit(out, b, 128);
    push_bit(out, b, 64);
    push_bit(out, b, 32);
    push_bit(out, b, 16);
    push_bit(out, b, 8);
    push_bit(out, b, 4);
    push_bit(out, b, 2);
    push_bit(out, b, 1);
    assert(out@ =~= old(out)@ + byte_literal(b));
}

/// Renders the engine's bytes as binary literals separated by single spaces.
pub fn render_binary(bytes: &[u8]) -> (out: String)
    ensures
        out@ == binary_text(bytes@),
{
    let mut out = String::new();
    let mut i: usize = 0;
    while i < bytes.len()
        invariant
            i <= bytes.len(),
            out@ == binary_text(bytes@.take(i as int)),
        decreases bytes.len() - i,
    {
        let ghost before = out@;
        if i > 0 {
            proof {
                reveal_strlit(" ");
            }
            out.append(" ");
        }
        push_byte_literal(&mut out, bytes[i]);
        proof {
            let next = bytes@.take(i + 1);
            assert(next.drop_last() =~= bytes@.take(i as int));
            assert(next.last() == bytes@[i as int]);
            if i > 0 {
                assert(out@ =~= before + seq![' '] + byte_literal(bytes@[i as int]));
            } else {
                assert(before =~= Seq::<char>::empty());
                assert(out@ =~= byte_literal(bytes@[i as int]));
            }
        }
        i += 1;
    }
    assert(bytes@.take(i as int) =~= bytes@);
    out
}

/// Renders the engine's text: the text itself, then a line feed.
pub fn render_text(text: &str) -> (out: String)
    ensures
        out@ == text_output(text@),
{
    proof {
        reveal_strlit("\n");
    }
    let mut out = String::from_str(text);
    out.append("\n");
    assert(out@ =~= text@ + seq!['\n']);
    out
}

/// Renders a result in the requested format. A result of the other shape is
/// refused: no format is guessed for it.
pub fn render(format: OutputFormat, result: &EngineResult) -> (out: Result<String, ShapeMismatch>)
    ensures
        match out {
            Ok(s) => rendered(format, *result) == Ok::<Seq<char>, ShapeMismatch>(s@),
            Err(e) => rendered(format, *result) == Err::<Seq<char>, ShapeMismatch>(e),
        },
{
    match result {
        EngineResult::Text(text) => match format {
            OutputFormat::Text => Ok(render_text(text.as_str())),
            OutputFormat::Binary => Err(ShapeMismatch { requested: format }),
        },
        EngineResult::Binary(bytes) => match format {
            OutputFormat::Binary => Ok(render_binary(bytes.as_slice())),
            OutputFormat::Text => Err(ShapeMismatch { requested: format }),
        },
    }
}

} // verus!
