//! Small pieces of text that messages are put together from.

use vstd::prelude::*;

verus! {

/// The one character that writes a digit. Meant for `0` to `9`.
pub open spec fn digit_text(digit: nat) -> Seq<char> {
    if digit == 0 {
        "0"@
    } else if digit == 1 {
        "1"@
    } else if digit == 2 {
        "2"@
    } else if digit == 3 {
        "3"@
    } else if digit == 4 {
        "4"@
    } else if digit == 5 {
        "5"@
    } else if digit == 6 {
        "6"@
    } else if digit == 7 {
        "7"@
    } else if digit == 8 {
        "8"@
    } else {
        "9"@
    }
}

/// A number in decimal, without sign and without leading zeros.
pub open spec fn decimal(n: nat) -> Seq<char>
    decreases n,
{
    if n < 10 {
        digit_text(n)
    } else {
        decimal(n / 10) + digit_text(n % 10)
    }
}

/// A digit is written by one character: the one that stands as many places
/// after `0` as the digit counts.
pub proof fn lemma_digit_text(digit: nat)
    requires
        digit < 10,
    ensures
        digit_text(digit).len() == 1,
        digit_text(digit)[0] as int == '0' as int + digit,
{
    reveal_strlit("0");
    reveal_strlit("1");
    reveal_strlit("2");
    reveal_strlit("3");
    reveal_strlit("4");
    reveal_strlit("5");
    reveal_strlit("6");
    reveal_strlit("7");
    reveal_strlit("8");
    reveal_strlit("9");
}

/// The one character that writes a digit.
fn digit_str(digit: usize) -> (text: &'static str)
    requires
        digit < 10,
    ensures
        text@ == digit_text(digit as nat),
{
    if digit == 0 {
        "0"
    } else if digit == 1 {
        "1"
    } else if digit == 2 {
        "2"
    } else if digit == 3 {
        "3"
    } else if digit == 4 {
        "4"
    } else if digit == 5 {
        "5"
    } else if digit == 6 {
        "6"
    } else if digit == 7 {
        "7"
    } else if digit == 8 {
        "8"
    } else {
        "9"
    }
}

/// Writes `n` in decimal at the end of `out`.
pub fn push_decimal(out: &mut String, n: usize)
    ensures
        final(out)@ == old(out)@ + decimal(n as nat),
    decreases n,
{
    if n >= 10 {
        push_decimal(out, n / 10);
    }
    out.append(digit_str(n % 10));
}

/// Whether `part` stands in `whole`, character for character, at `start`.
pub open spec fn occurs_at(whole: Seq<char>, part: Seq<char>, start: int) -> bool {
    &&& 0 <= start
    &&& start + part.len() <= whole.len()
    &&& whole.subrange(start, start + part.len()) == part
}

/// Whether `part` stands somewhere in `whole`, character for character.
pub open spec fn mentions(whole: Seq<char>, part: Seq<char>) -> bool {
    exists|start: int| occurs_at(whole, part, start)
}

/// What stands in a text still stands in it when more text is put around it.
pub proof fn lemma_mentions_inside(before: Seq<char>, middle: Seq<char>, after: Seq<char>, part: Seq<
    char,
>)
    requires
        mentions(middle, part),
    ensures
        mentions(before + middle + after, part),
{
    let start = choose|start: int| occurs_at(middle, part, start);
    let whole = before + middle + after;
    assert(whole.subrange(before.len() + start, before.len() + start + part.len())
        =~= middle.subrange(start, start + part.len()));
    assert(occurs_at(whole, part, before.len() + start));
}

/// A text stands in itself.
pub proof fn lemma_mentions_itself(text: Seq<char>)
    ensures
        mentions(text, text),
{
    assert(text.subrange(0, text.len() as int) =~= text);
    assert(occurs_at(text, text, 0));
}

/// What stands in a part of a text stands in the text.
pub proof fn lemma_mentions_transitive(whole: Seq<char>, part: Seq<char>, piece: Seq<char>)
    requires
        mentions(whole, part),
        mentions(part, piece),
    ensures
        mentions(whole, piece),
{
    let at = choose|start: int| occurs_at(whole, part, start);
    let within = choose|start: int| occurs_at(part, piece, start);
    assert(whole.subrange(at + within, at + within + piece.len()) =~= whole.subrange(
        at,
        at + part.len(),
    ).subrange(within, within + piece.len()));
    assert(occurs_at(whole, piece, at + within));
}

/// A text between two others stands in the three put together.
pub proof fn lemma_mentions_middle(before: Seq<char>, middle: Seq<char>, after: Seq<char>)
    ensures
        mentions(before + middle + after, middle),
{
    lemma_mentions_itself(middle);
    lemma_mentions_inside(before, middle, after, middle);
}

/// The parts one after the other, with the separator between each two.
pub open spec fn joined(parts: Seq<Seq<char>>, separator: Seq<char>) -> Seq<char>
    decreases parts.len(),
{
    if parts.len() == 0 {
        Seq::empty()
    } else if parts.len() == 1 {
        parts[0]
    } else {
        joined(parts.drop_last(), separator) + separator + parts.last()
    }
}

/// Every part stands in the joined text.
pub proof fn lemma_joined_mentions_part(parts: Seq<Seq<char>>, separator: Seq<char>, index: int)
    requires
        0 <= index < parts.len(),
    ensures
        mentions(joined(parts, separator), parts[index]),
    decreases parts.len(),
{
    if parts.len() == 1 {
        lemma_mentions_itself(parts[0]);
    } else {
        let front = joined(parts.drop_last(), separator);
        if index == parts.len() - 1 {
            lemma_mentions_middle(front + separator, parts.last(), Seq::empty());
        } else {
            lemma_joined_mentions_part(parts.drop_last(), separator, index);
            lemma_mentions_inside(
                Seq::empty(),
                front,
                separator + parts.last(),
                parts.drop_last()[index],
            );
            assert(Seq::<char>::empty() + front + (separator + parts.last()) =~= joined(
                parts,
                separator,
            ));
        }
    }
}

/// The values of a list of texts.
pub open spec fn lines_view(lines: Seq<String>) -> Seq<Seq<char>> {
    Seq::new(lines.len(), |i: int| lines[i]@)
}

/// Puts the texts together, with the separator between each two.
pub fn join(lines: &Vec<String>, separator: &str) -> (text: String)
    ensures
        text@ == joined(lines_view(lines@), separator@),
{
    let ghost parts = lines_view(lines@);
    let mut text = String::new();
    let mut i: usize = 0;
    while i < lines.len()
        invariant
            i <= lines.len(),
            parts == lines_view(lines@),
            text@ == joined(parts.take(i as int), separator@),
        decreases lines.len() - i,
    {
        if i > 0 {
            text.append(separator);
        }
        text.append(lines[i].as_str());
        assert(parts.take(i + 1).drop_last() =~= parts.take(i as int));
        i += 1;
    }
    assert(parts.take(i as int) =~= parts);
    text
}

} // verus!
