//! Building blocks for generated text: decimal numbers and joined lines.

use vstd::prelude::*;
use vstd::string::*;

verus! {

/// The character that stands for a digit below ten.
pub open spec fn digit_char(digit: nat) -> char {
    if digit == 0 {
        '0'
    } else if digit == 1 {
        '1'
    } else if digit == 2 {
        '2'
    } else if digit == 3 {
        '3'
    } else if digit == 4 {
        '4'
    } else if digit == 5 {
        '5'
    } else if digit == 6 {
        '6'
    } else if digit == 7 {
        '7'
    } else if digit == 8 {
        '8'
    } else {
        '9'
    }
}

/// A number in base ten, most significant digit first, without padding.
pub open spec fn decimal_text(n: nat) -> Seq<char>
    decreases n,
{
    if n < 10 {
        seq![digit_char(n)]
    } else {
        decimal_text(n / 10).push(digit_char(n % 10))
    }
}

/// The lines of `lines`, one after the other, as one text.
pub open spec fn join_lines(lines: Seq<Seq<char>>) -> Seq<char> {
    lines.flatten()
}

/// Flattening one more part appends it to what the parts before it give.
pub proof fn lemma_flatten_next<A>(parts: Seq<Seq<A>>, count: int)
    requires
        0 <= count < parts.len(),
    ensures
        parts.take(count + 1).flatten() == parts.take(count).flatten() + parts[count],
{
    assert(parts.take(count + 1) =~= parts.take(count).push(parts[count]));
    parts.take(count).lemma_flatten_push(parts[count]);
}

/// A flattened sequence is its first `count` parts, then part `count`, then
/// the rest.
pub proof fn lemma_flatten_split<A>(parts: Seq<Seq<A>>, count: int)
    requires
        0 <= count < parts.len(),
    ensures
        parts.flatten() == parts.take(count).flatten() + parts[count] + parts.skip(
            count + 1,
        ).flatten(),
{
    let head = parts.take(count + 1);
    let tail = parts.skip(count + 1);
    assert(parts =~= head + tail);
    vstd::seq_lib::lemma_flatten_concat(head, tail);
    lemma_flatten_next(parts, count);
}

/// Where line `index` begins in the joined text: behind the lines before
/// it.
pub open spec fn line_start(lines: Seq<Seq<char>>, index: int) -> int {
    join_lines(lines.take(index)).len() as int
}

/// Whether `part` stands in `text` at `position`.
pub open spec fn occurs_at(text: Seq<char>, part: Seq<char>, position: int) -> bool {
    &&& 0 <= position
    &&& position + part.len() <= text.len()
    &&& text.subrange(position, position + part.len()) == part
}

/// Every line stands in the joined text, at its start.
pub proof fn lemma_line_occurs(lines: Seq<Seq<char>>, index: int)
    requires
        0 <= index < lines.len(),
    ensures
        occurs_at(join_lines(lines), lines[index], line_start(lines, index)),
{
    lemma_flatten_split(lines, index);
    let before = lines.take(index).flatten();
    let after = lines.skip(index + 1).flatten();
    assert((before + lines[index] + after).subrange(
        before.len() as int,
        (before.len() + lines[index].len()) as int,
    ) =~= lines[index]);
}

/// A line ends before any later line begins.
pub proof fn lemma_lines_in_order(lines: Seq<Seq<char>>, earlier: int, later: int)
    requires
        0 <= earlier < later < lines.len(),
    ensures
        line_start(lines, earlier) + lines[earlier].len() <= line_start(lines, later),
    decreases later - earlier,
{
    lemma_flatten_next(lines, later - 1);
    if earlier < later - 1 {
        lemma_lines_in_order(lines, earlier, later - 1);
    }
}

/// What stands in a text stands in every text around it, further on by
/// the length of what comes before.
pub proof fn lemma_occurs_within(
    before: Seq<char>,
    text: Seq<char>,
    after: Seq<char>,
    part: Seq<char>,
    position: int,
)
    requires
        occurs_at(text, part, position),
    ensures
        occurs_at(before + text + after, part, before.len() + position),
{
    assert((before + text + after).subrange(
        before.len() + position,
        before.len() + position + part.len(),
    ) =~= text.subrange(position, position + part.len()));
}

/// What stands in a part of a text stands in the text.
pub proof fn lemma_part_of_part(
    text: Seq<char>,
    part: Seq<char>,
    start: int,
    piece: Seq<char>,
    position: int,
)
    requires
        0 <= start,
        start + part.len() <= text.len(),
        text.subrange(start, start + part.len()) == part,
        occurs_at(part, piece, position),
    ensures
        occurs_at(text, piece, start + position),
{
    assert(text.subrange(start + position, start + position + piece.len()) =~= part.subrange(
        position,
        position + piece.len(),
    ));
}

fn digit_str(digit: u32) -> (text: &'static str)
    requires
        digit < 10,
    ensures
        text@ == seq![digit_char(digit as nat)],
{
    proof {
        reveal_strlit("0");
        reveal_strlit("1");
        reveal_strlit("2");
        reveal_strlit("3");
        reveal_strlit("4");
        reveal_strlit("5");
        reveal_strlit("6");
        reveal_strlit("7");
        reveal_strlit("8");
        reveal_strlit("9");
    }
    let text = if digit == 0 {
        "0"
    } else if digit == 1 {
        "1"
    } else if digit == 2 {
        "2"
    } else if digit == 3 {
        "3"
    } else if digit == 4 {
        "4"
    } else if digit == 5 {
        "5"
    } else if digit == 6 {
        "6"
    } else if digit == 7 {
        "7"
    } else if digit == 8 {
        "8"
    } else {
        "9"
    };
    assert(text@ =~= seq![digit_char(digit as nat)]);
    text
}

/// Appends `n` in base ten.
pub fn push_decimal(text: &mut String, n: u32)
    ensures
        final(text)@ == old(text)@ + decimal_text(n as nat),
    decreases n,
{
    if n >= 10 {
        push_decimal(text, n / 10);
    }
    text.append(digit_str(n % 10));
    proof {
        if n >= 10 {
            assert(text@ =~= old(text)@ + decimal_text((n / 10) as nat).push(
                digit_char((n % 10) as nat),
            ));
        } else {
            assert(text@ =~= old(text)@ + seq![digit_char(n as nat)]);
        }
    }
}

} // verus!
