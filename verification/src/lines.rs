//! What stands in a line of text: labels, each with a number behind it.

use vstd::prelude::*;

use crate::text::decimal;

verus! {

/// Whether a line says, somewhere, a number in decimal behind a label.
pub open spec fn says(line: Seq<char>, label: Seq<char>, n: nat) -> bool {
    exists|i: int| #[trigger] stands_at(line, label + decimal(n), i)
}

/// Whether a text stands at a place of a line.
pub open spec fn stands_at(line: Seq<char>, part: Seq<char>, i: int) -> bool {
    0 <= i <= i + part.len() <= line.len() && line.subrange(i, i + part.len()) == part
}

/// A line of labels, each with a number behind it.
spec fn line_of(parts: Seq<(Seq<char>, nat)>) -> Seq<char>
    decreases parts.len(),
{
    if parts.len() == 0 {
        Seq::empty()
    } else {
        line_of(parts.drop_last()) + parts.last().0 + decimal(parts.last().1)
    }
}

proof fn lemma_line_says(parts: Seq<(Seq<char>, nat)>, tail: Seq<char>)
    ensures
        forall|i: int|
            0 <= i < parts.len() ==> says(
                line_of(parts) + tail,
                (#[trigger] parts[i]).0,
                parts[i].1,
            ),
    decreases parts.len(),
{
    if parts.len() > 0 {
        let before = parts.drop_last();
        let part = parts.last().0 + decimal(parts.last().1);
        let line = line_of(parts) + tail;
        lemma_line_says(before, part + tail);
        assert(line =~= line_of(before) + (part + tail));
        assert forall|i: int| 0 <= i < parts.len() implies says(
            line,
            (#[trigger] parts[i]).0,
            parts[i].1,
        ) by {
            if i < parts.len() - 1 {
                assert(before[i] == parts[i]);
            } else {
                let at = line_of(before).len() as int;
                assert(line.subrange(at, at + part.len()) =~= part);
                assert(stands_at(line, part, at));
            }
        }
    }
}

/// A line of five labels with their numbers, and what follows them, says all five.
pub proof fn lemma_five(
    a: (Seq<char>, nat),
    b: (Seq<char>, nat),
    c: (Seq<char>, nat),
    d: (Seq<char>, nat),
    e: (Seq<char>, nat),
    tail: Seq<char>,
)
    ensures
        ({
            let line = a.0 + decimal(a.1) + b.0 + decimal(b.1) + c.0 + decimal(c.1) + d.0
                + decimal(d.1) + e.0 + decimal(e.1) + tail;
            &&& says(line, a.0, a.1)
            &&& says(line, b.0, b.1)
            &&& says(line, c.0, c.1)
            &&& says(line, d.0, d.1)
            &&& says(line, e.0, e.1)
        }),
{
    let parts = seq![a, b, c, d, e];
    lemma_line_says(parts, tail);
    lemma_three_parts(a, b, c);
    let three = seq![a, b, c];
    assert(parts.drop_last().drop_last() =~= three);
    assert(parts.drop_last().last() == d);
    assert(parts.last() == e);
    assert(line_of(parts.drop_last()) == line_of(three) + d.0 + decimal(d.1));
    let line = a.0 + decimal(a.1) + b.0 + decimal(b.1) + c.0 + decimal(c.1) + d.0 + decimal(d.1)
        + e.0 + decimal(e.1) + tail;
    assert(line_of(parts) + tail =~= line);
    assert(parts[0] == a && parts[1] == b && parts[2] == c && parts[3] == d && parts[4] == e);
}

proof fn lemma_three_parts(a: (Seq<char>, nat), b: (Seq<char>, nat), c: (Seq<char>, nat))
    ensures
        line_of(seq![a, b, c]) == a.0 + decimal(a.1) + b.0 + decimal(b.1) + c.0 + decimal(c.1),
{
    let parts = seq![a, b, c];
    assert(parts.drop_last() =~= seq![a, b]);
    assert(seq![a, b].drop_last() =~= seq![a]);
    assert(seq![a].drop_last() =~= Seq::empty());
    reveal_with_fuel(line_of, 2);
    assert(line_of(seq![a]) =~= a.0 + decimal(a.1));
    assert(line_of(seq![a, b]) =~= a.0 + decimal(a.1) + b.0 + decimal(b.1));
    assert(line_of(parts) =~= a.0 + decimal(a.1) + b.0 + decimal(b.1) + c.0 + decimal(c.1));
}

/// A line of three labels with their numbers, and what follows them, says all three.
pub proof fn lemma_three(
    a: (Seq<char>, nat),
    b: (Seq<char>, nat),
    c: (Seq<char>, nat),
    tail: Seq<char>,
)
    ensures
        ({
            let line = a.0 + decimal(a.1) + b.0 + decimal(b.1) + c.0 + decimal(c.1) + tail;
            &&& says(line, a.0, a.1)
            &&& says(line, b.0, b.1)
            &&& says(line, c.0, c.1)
        }),
{
    let parts = seq![a, b, c];
    lemma_line_says(parts, tail);
    lemma_three_parts(a, b, c);
    assert(parts[0] == a && parts[1] == b && parts[2] == c);
}

/// A line that starts with a name, with three labels and their numbers behind it, says the
/// name and all three.
pub proof fn lemma_named(
    named: Seq<char>,
    a: (Seq<char>, nat),
    b: (Seq<char>, nat),
    c: (Seq<char>, nat),
)
    ensures
        ({
            let line = named + a.0 + decimal(a.1) + b.0 + decimal(b.1) + c.0 + decimal(c.1);
            &&& stands_at(line, named, 0)
            &&& says(line, a.0, a.1)
            &&& says(line, b.0, b.1)
            &&& says(line, c.0, c.1)
        }),
{
    let line = named + a.0 + decimal(a.1) + b.0 + decimal(b.1) + c.0 + decimal(c.1);
    lemma_named_with_tail(named, a, b, c, Seq::empty());
    assert(line + Seq::<char>::empty() =~= line);
}

/// So does one that goes on behind them.
pub proof fn lemma_named_with_tail(
    named: Seq<char>,
    a: (Seq<char>, nat),
    b: (Seq<char>, nat),
    c: (Seq<char>, nat),
    tail: Seq<char>,
)
    ensures
        ({
            let line = named + a.0 + decimal(a.1) + b.0 + decimal(b.1) + c.0 + decimal(c.1) + tail;
            &&& stands_at(line, named, 0)
            &&& says(line, a.0, a.1)
            &&& says(line, b.0, b.1)
            &&& says(line, c.0, c.1)
        }),
{
    let first = a.0 + decimal(a.1);
    let second = b.0 + decimal(b.1);
    let third = c.0 + decimal(c.1);
    let line = named + a.0 + decimal(a.1) + b.0 + decimal(b.1) + c.0 + decimal(c.1) + tail;
    assert(line =~= named + first + second + third + tail);
    assert(line.subrange(0, named.len() as int) =~= named);
    let i = named.len() as int;
    assert(line.subrange(i, i + first.len()) =~= first);
    assert(stands_at(line, first, i));
    let j = i + first.len();
    assert(line.subrange(j, j + second.len()) =~= second);
    assert(stands_at(line, second, j));
    let k = j + second.len();
    assert(line.subrange(k, k + third.len()) =~= third);
    assert(stands_at(line, third, k));
}

/// A line of two labels with their numbers says both.
pub proof fn lemma_two(a: (Seq<char>, nat), b: (Seq<char>, nat))
    ensures
        ({
            let line = a.0 + decimal(a.1) + b.0 + decimal(b.1);
            &&& says(line, a.0, a.1)
            &&& says(line, b.0, b.1)
        }),
{
    let first = a.0 + decimal(a.1);
    let second = b.0 + decimal(b.1);
    let line = a.0 + decimal(a.1) + b.0 + decimal(b.1);
    assert(line =~= first + second);
    assert(line.subrange(0, first.len() as int) =~= first);
    assert(stands_at(line, first, 0));
    let i = first.len() as int;
    assert(line.subrange(i, i + second.len()) =~= second);
    assert(stands_at(line, second, i));
}

} // verus!
