//! String literals: how a value is written between quotes, and how what was
//! written is read back.

use vstd::prelude::*;

verus! {

/// `String::push` appends the given character to the end of the string.
pub assume_specification[ String::push ](text: &mut String, ch: char)
    ensures
        final(text)@ == old(text)@.push(ch),
;

/// The characters that stand for `ch` between the quotes of a string literal.
pub open spec fn escaped_char(ch: char) -> Seq<char> {
    if ch == '"' {
        seq!['\\', '"']
    } else if ch == '\\' {
        seq!['\\', '\\']
    } else if ch == '\n' {
        seq!['\\', 'n']
    } else if ch == '\r' {
        seq!['\\', 'r']
    } else if ch == '\t' {
        seq!['\\', 't']
    } else if ch == '\0' {
        seq!['\\', '0']
    } else {
        seq![ch]
    }
}

/// The characters that stand for `value` between the quotes of a string literal.
pub open spec fn escaped(value: Seq<char>) -> Seq<char>
    decreases value.len(),
{
    if value.len() == 0 {
        Seq::empty()
    } else {
        escaped(value.drop_last()) + escaped_char(value.last())
    }
}

/// The string literal that denotes `value`.
pub open spec fn literal_text(value: Seq<char>) -> Seq<char> {
    seq!['"'] + escaped(value) + seq!['"']
}

/// The character that `letter` stands for behind a backslash, if any.
pub open spec fn escape_value(letter: char) -> Option<char> {
    if letter == '"' {
        Some('"')
    } else if letter == '\\' {
        Some('\\')
    } else if letter == 'n' {
        Some('\n')
    } else if letter == 'r' {
        Some('\r')
    } else if letter == 't' {
        Some('\t')
    } else if letter == '0' {
        Some('\0')
    } else {
        None
    }
}

/// The value that the characters between the quotes of a string literal
/// denote. A backslash and its letter denote one character; a quote or a
/// carriage return cannot stand alone; every other character denotes itself.
pub open spec fn unescaped(body: Seq<char>) -> Option<Seq<char>>
    decreases body.len(),
{
    if body.len() == 0 {
        Some(Seq::empty())
    } else if body[0] == '\\' {
        if body.len() >= 2 && escape_value(body[1]) is Some {
            match unescaped(body.skip(2)) {
                Some(rest) => Some(seq![escape_value(body[1])->0] + rest),
                None => None,
            }
        } else {
            None
        }
    } else if body[0] == '"' || body[0] == '\r' {
        None
    } else {
        match unescaped(body.skip(1)) {
            Some(rest) => Some(seq![body[0]] + rest),
            None => None,
        }
    }
}

/// The value that a string literal denotes, or `None` where the text is no
/// string literal of the form above.
pub open spec fn literal_value(text: Seq<char>) -> Option<Seq<char>> {
    if text.len() >= 2 && text[0] == '"' && text.last() == '"' {
        unescaped(text.subrange(1, text.len() - 1))
    } else {
        None
    }
}

proof fn lemma_unescaped_char(ch: char, rest: Seq<char>)
    requires
        unescaped(rest) is Some,
    ensures
        unescaped(escaped_char(ch) + rest) == Some(seq![ch] + unescaped(rest)->0),
{
    let body = escaped_char(ch) + rest;
    if escaped_char(ch).len() == 2 {
        assert(body[0] == '\\');
        assert(escape_value(body[1]) == Some(ch));
        assert(body.skip(2) =~= rest);
    } else {
        assert(body[0] == ch);
        assert(body.skip(1) =~= rest);
    }
}

proof fn lemma_unescaped_prefix(value: Seq<char>, rest: Seq<char>)
    requires
        unescaped(rest) is Some,
    ensures
        unescaped(escaped(value) + rest) == Some(value + unescaped(rest)->0),
    decreases value.len(),
{
    if value.len() == 0 {
        assert(escaped(value) + rest =~= rest);
        assert(value + unescaped(rest)->0 =~= unescaped(rest)->0);
    } else {
        let ch = value.last();
        let tail = escaped_char(ch) + rest;
        lemma_unescaped_char(ch, rest);
        lemma_unescaped_prefix(value.drop_last(), tail);
        assert(escaped(value) + rest =~= escaped(value.drop_last()) + tail);
        assert(value.drop_last() + (seq![ch] + unescaped(rest)->0) =~= value + unescaped(
            rest,
        )->0);
    }
}

/// What is written is read back unchanged: the literal of a value denotes
/// that value, so two values with the same literal are the same value.
pub proof fn lemma_literal_denotes_value(value: Seq<char>)
    ensures
        literal_value(literal_text(value)) == Some(value),
{
    let text = literal_text(value);
    let nothing = Seq::<char>::empty();
    lemma_unescaped_prefix(value, nothing);
    assert(text.subrange(1, text.len() - 1) =~= escaped(value) + nothing);
    assert(value + nothing =~= value);
}

fn push_escaped(out: &mut String, ch: char)
    ensures
        final(out)@ == old(out)@ + escaped_char(ch),
{
    if ch == '"' {
        out.push('\\');
        out.push('"');
    } else if ch == '\\' {
        out.push('\\');
        out.push('\\');
    } else if ch == '\n' {
        out.push('\\');
        out.push('n');
    } else if ch == '\r' {
        out.push('\\');
        out.push('r');
    } else if ch == '\t' {
        out.push('\\');
        out.push('t');
    } else if ch == '\0' {
        out.push('\\');
        out.push('0');
    } else {
        out.push(ch);
    }
}

/// Appends to `out` the string literal that denotes `value`.
pub fn push_literal(out: &mut String, value: &str)
    ensures
        final(out)@ == old(out)@ + literal_text(value@),
{
    out.push('"');
    let ghost start = out@;
    for ch in it: value.chars()
        invariant
            it.seq() == value@,
            out@ == start + escaped(value@.take(it.index())),
    {
        proof {
            assert(value@.take(it.index() + 1).drop_last() == value@.take(it.index()));
        }
        push_escaped(out, ch);
    }
    proof {
        assert(value@.take(value@.len() as int) == value@);
    }
    out.push('"');
}

} // verus!
