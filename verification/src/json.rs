//! JSON text: string literals as they go on the wire.

use vstd::prelude::*;
use vstd::std_specs::iter::IteratorSpec;

verus! {

/// The lower-case hexadecimal digit for `n`, which is below sixteen.
pub open spec fn hex_digit(n: int) -> char {
    if n < 10 {
        ('0' as int + n) as char
    } else {
        ('a' as int + n - 10) as char
    }
}

/// What stands for one character inside a JSON string literal.
///
/// The quote and the backslash get a backslash in front; the five control
/// characters with a short form use it; every other character below U+0020
/// is written as `\u00` and two hexadecimal digits; all others stand for
/// themselves.
pub open spec fn escape_char(c: char) -> Seq<char> {
    if c == '"' {
        seq!['\\', '"']
    } else if c == '\\' {
        seq!['\\', '\\']
    } else if c == '\n' {
        seq!['\\', 'n']
    } else if c == '\r' {
        seq!['\\', 'r']
    } else if c == '\t' {
        seq!['\\', 't']
    } else if c as int == 8 {
        seq!['\\', 'b']
    } else if c as int == 12 {
        seq!['\\', 'f']
    } else if (c as int) < 32 {
        seq!['\\', 'u', '0', '0', hex_digit(c as int / 16), hex_digit(c as int % 16)]
    } else {
        seq![c]
    }
}

/// The characters of `s`, each replaced by what stands for it.
pub open spec fn escape(s: Seq<char>) -> Seq<char>
    decreases s.len(),
{
    if s.len() == 0 {
        Seq::empty()
    } else {
        escape_char(s.first()) + escape(s.drop_first())
    }
}

/// Escaping goes character by character: one more character at the end
/// adds what stands for it at the end.
pub proof fn escape_push(s: Seq<char>, c: char)
    ensures
        escape(s.push(c)) == escape(s) + escape_char(c),
    decreases s.len(),
{
    if s.len() == 0 {
        let single = s.push(c);
        assert(single.drop_first() =~= Seq::empty());
        assert(escape(single.drop_first()) =~= Seq::empty());
        assert(escape(single) == escape_char(c) + escape(single.drop_first()));
        assert(escape(single) =~= escape(s) + escape_char(c));
    } else {
        let longer = s.push(c);
        escape_push(s.drop_first(), c);
        assert(longer.drop_first() =~= s.drop_first().push(c));
        assert(longer.first() == s.first());
        assert(escape(longer) == escape_char(s.first()) + escape(longer.drop_first()));
        assert(escape(s) == escape_char(s.first()) + escape(s.drop_first()));
        assert(escape(longer) =~= escape(s) + escape_char(c));
    }
}

/// `s` as a JSON string literal: escaped, between two quotes.
pub open spec fn quoted(s: Seq<char>) -> Seq<char> {
    seq!['"'] + escape(s) + seq!['"']
}

/// `String::push` of the standard library: the string afterwards is the
/// string before with `c` added at its end.
pub assume_specification[ String::push ](s: &mut String, c: char)
    ensures
        final(s)@ == old(s)@.push(c),
;

fn push_hex_digit(out: &mut String, n: u32)
    requires
        n < 16,
    ensures
        final(out)@ == old(out)@.push(hex_digit(n as int)),
{
    let digit: char = match n {
        0 => '0',
        1 => '1',
        2 => '2',
        3 => '3',
        4 => '4',
        5 => '5',
        6 => '6',
        7 => '7',
        8 => '8',
        9 => '9',
        10 => 'a',
        11 => 'b',
        12 => 'c',
        13 => 'd',
        14 => 'e',
        _ => 'f',
    };
    out.push(digit);
}

/// Adds to `out` what stands for `c` inside a string literal.
pub fn push_escaped(out: &mut String, c: char)
    ensures
        final(out)@ == old(out)@ + escape_char(c),
{
    let code: u32 = c as u32;
    if c == '"' || c == '\\' {
        out.push('\\');
        out.push(c);
    } else if c == '\n' {
        out.push('\\');
        out.push('n');
    } else if c == '\r' {
        out.push('\\');
        out.push('r');
    } else if c == '\t' {
        out.push('\\');
        out.push('t');
    } else if code == 8 {
        out.push('\\');
        out.push('b');
    } else if code == 12 {
        out.push('\\');
        out.push('f');
    } else if code < 32 {
        out.push('\\');
        out.push('u');
        out.push('0');
        out.push('0');
        push_hex_digit(out, code / 16);
        push_hex_digit(out, code % 16);
    } else {
        out.push(c);
    }
    assert(out@ =~= old(out)@ + escape_char(c));
}

/// Adds `text` to `out` as a JSON string literal.
pub fn push_quoted(out: &mut String, text: &str)
    ensures
        final(out)@ == old(out)@ + quoted(text@),
{
    broadcast use vstd::string::next_postcondition, vstd::string::axiom_spec_iter;

    out.push('"');
    let mut rest = text.chars();
    let ghost mut seen: Seq<char> = Seq::empty();
    loop
        invariant
            seen + rest.remaining() == text@,
            out@ == old(out)@ + seq!['"'] + escape(seen),
        ensures
            seen == text@,
        decreases text@.len() - seen.len(),
    {
        let ghost before = rest.remaining();
        match rest.next() {
            Some(c) => {
                push_escaped(out, c);
                proof {
                    escape_push(seen, c);
                    assert(seen.push(c) + rest.remaining() =~= seen + before);
                    seen = seen.push(c);
                }
            },
            None => {
                assert(seen =~= seen + before);
                break;
            },
        }
    }
    out.push('"');
    assert(out@ =~= old(out)@ + quoted(text@));
}

/// `text` as a JSON string literal.
pub fn quote(text: &str) -> (out: String)
    ensures
        out@ == quoted(text@),
{
    let mut out = String::new();
    push_quoted(&mut out, text);
    assert(out@ =~= quoted(text@));
    out
}

/// The value of the hexadecimal digit `c`, in either case.
pub open spec fn hex_value(c: char) -> Option<int> {
    let code = c as int;
    if '0' as int <= code <= '9' as int {
        Some(code - '0' as int)
    } else if 'a' as int <= code <= 'f' as int {
        Some(code - 'a' as int + 10)
    } else if 'A' as int <= code <= 'F' as int {
        Some(code - 'A' as int + 10)
    } else {
        None
    }
}

/// The character that a backslash and `c` stand for, where the two form one
/// of the short escapes.
pub open spec fn short_escape(c: char) -> Option<char> {
    if c == '"' || c == '\\' || c == '/' {
        Some(c)
    } else if c == 'n' {
        Some('\n')
    } else if c == 'r' {
        Some('\r')
    } else if c == 't' {
        Some('\t')
    } else if c == 'b' {
        Some(8 as char)
    } else if c == 'f' {
        Some(12 as char)
    } else {
        None
    }
}

/// The number that four hexadecimal digits write.
pub open spec fn code_of(digits: Seq<char>) -> Option<int> {
    if digits.len() == 4 && hex_value(digits[0]) is Some && hex_value(digits[1]) is Some
        && hex_value(digits[2]) is Some && hex_value(digits[3]) is Some {
        Some(
            4096 * hex_value(digits[0])->0 + 256 * hex_value(digits[1])->0 + 16 * hex_value(
                digits[2],
            )->0 + hex_value(digits[3])->0,
        )
    } else {
        None
    }
}

/// `code` is the code of a character of the basic plane.
pub open spec fn is_plain_code(code: int) -> bool {
    0 <= code < 0xD800 || 0xE000 <= code <= 0xFFFF
}

/// A reading with `c` put in front of what was read.
pub open spec fn after_char(c: char, reading: Option<(Seq<char>, Seq<char>)>) -> Option<
    (Seq<char>, Seq<char>),
> {
    match reading {
        Some((content, rest)) => Some((seq![c] + content, rest)),
        None => None,
    }
}

/// Reads a string literal from behind its opening quote: the characters it
/// stands for, and the text that follows its closing quote.
///
/// Nothing is read from a text that ends before the closing quote, that
/// holds a character below U+0020 as it is, or a backslash that begins no
/// escape. An escape of four hexadecimal digits is read where it gives a
/// character by itself; pairs of surrogates are not.
pub open spec fn read_content(text: Seq<char>) -> Option<(Seq<char>, Seq<char>)>
    decreases text.len(),
{
    if text.len() == 0 {
        None
    } else if text[0] == '"' {
        Some((Seq::empty(), text.skip(1)))
    } else if text[0] == '\\' {
        if text.len() >= 2 && short_escape(text[1]) is Some {
            after_char(short_escape(text[1])->0, read_content(text.skip(2)))
        } else if text.len() >= 6 && text[1] == 'u' && code_of(text.subrange(2, 6)) is Some
            && is_plain_code(code_of(text.subrange(2, 6))->0) {
            after_char(code_of(text.subrange(2, 6))->0 as char, read_content(text.skip(6)))
        } else {
            None
        }
    } else if (text[0] as int) < 32 {
        None
    } else {
        after_char(text[0], read_content(text.skip(1)))
    }
}

/// Reads the string literal that `text` begins with: the characters it
/// stands for, and the text that follows it.
pub open spec fn read_string(text: Seq<char>) -> Option<(Seq<char>, Seq<char>)> {
    if text.len() > 0 && text[0] == '"' {
        read_content(text.skip(1))
    } else {
        None
    }
}

/// The digit written for a number below sixteen has that number as its
/// value.
pub proof fn hex_digit_value(n: int)
    requires
        0 <= n < 16,
    ensures
        hex_value(hex_digit(n)) == Some(n),
{
}

/// The code of a character is not negative.
proof fn code_is_natural(c: char)
    ensures
        0 <= c as int,
{
}

/// What stands for a text reads back as the text: behind the opening quote
/// of a literal written for `s`, whatever follows the literal, `s` is read
/// and what follows is left.
pub proof fn content_reads_back(s: Seq<char>, rest: Seq<char>)
    ensures
        read_content(escape(s) + seq!['"'] + rest) == Some((s, rest)),
    decreases s.len(),
{
    let text = escape(s) + seq!['"'] + rest;
    if s.len() == 0 {
        assert(text.skip(1) =~= rest);
    } else {
        let c = s.first();
        let tail = s.drop_first();
        let after = escape(tail) + seq!['"'] + rest;
        let code = c as int;
        content_reads_back(tail, rest);
        assert(text =~= escape_char(c) + after);
        assert(seq![c] + tail =~= s);
        if c == '"' || c == '\\' || c == '\n' || c == '\r' || c == '\t' || code == 8 || code
            == 12 {
            assert(text[0] == '\\');
            assert(text.skip(2) =~= after);
            assert(short_escape(text[1]) == Some(c));
        } else if code < 32 {
            code_is_natural(c);
            hex_digit_value(code / 16);
            hex_digit_value(code % 16);
            let digits = text.subrange(2, 6);
            assert(text[0] == '\\' && text[1] == 'u');
            assert(digits =~= seq!['0', '0', hex_digit(code / 16), hex_digit(code % 16)]);
            assert(hex_value('0') == Some(0int));
            assert(code_of(digits) == Some(code));
            assert(text.skip(6) =~= after);
            assert(code as char == c);
        } else {
            assert(text[0] == c);
            assert(text.skip(1) =~= after);
        }
    }
}

/// A string literal reads back as its text: from a text that begins with
/// the literal written for `s`, `s` is read and what follows the literal is
/// left.
pub proof fn string_reads_back(s: Seq<char>, rest: Seq<char>)
    ensures
        read_string(quoted(s) + rest) == Some((s, rest)),
{
    let text = quoted(s) + rest;
    content_reads_back(s, rest);
    assert(text[0] == '"');
    assert(text.skip(1) =~= escape(s) + seq!['"'] + rest);
}

/// One member of an object as text: its name and its value as string
/// literals, with a colon between them.
pub open spec fn member_text(member: (Seq<char>, Seq<char>)) -> Seq<char> {
    quoted(member.0) + seq![':'] + quoted(member.1)
}

/// The members of an object as text, with a comma between one and the next.
pub open spec fn members_text(members: Seq<(Seq<char>, Seq<char>)>) -> Seq<char>
    decreases members.len(),
{
    if members.len() == 0 {
        Seq::empty()
    } else if members.len() == 1 {
        member_text(members[0])
    } else {
        member_text(members[0]) + seq![','] + members_text(members.drop_first())
    }
}

/// An object whose values are all strings, as JSON text without white
/// space: the members in their order, between braces.
pub open spec fn object_text(members: Seq<(Seq<char>, Seq<char>)>) -> Seq<char> {
    seq!['{'] + members_text(members) + seq!['}']
}

/// Reads one member: its name and value, and the text that follows it.
pub open spec fn read_pair(text: Seq<char>) -> Option<((Seq<char>, Seq<char>), Seq<char>)> {
    match read_string(text) {
        Some((name, rest)) => if rest.len() > 0 && rest[0] == ':' {
            match read_string(rest.skip(1)) {
                Some((value, rest)) => Some(((name, value), rest)),
                None => None,
            }
        } else {
            None
        },
        None => None,
    }
}

/// Reads the members of an object from behind its opening brace, up to the
/// closing brace, with which the text must end.
pub open spec fn read_pairs(text: Seq<char>) -> Option<Seq<(Seq<char>, Seq<char>)>>
    decreases text.len(),
{
    match read_pair(text) {
        Some((member, rest)) => if rest.len() >= text.len() {
            // a member is never empty; this case is here for the recursion to be seen to end
            None
        } else if rest == seq!['}'] {
            Some(seq![member])
        } else if rest.len() > 0 && rest[0] == ',' {
            match read_pairs(rest.skip(1)) {
                Some(others) => Some(seq![member] + others),
                None => None,
            }
        } else {
            None
        },
        None => None,
    }
}

/// Reads an object whose values are all strings from a text that holds
/// nothing else, and no white space: the object's members in their order.
pub open spec fn read_object(text: Seq<char>) -> Option<Seq<(Seq<char>, Seq<char>)>> {
    if text.len() < 2 || text[0] != '{' {
        None
    } else if text == seq!['{', '}'] {
        Some(Seq::empty())
    } else {
        read_pairs(text.skip(1))
    }
}

/// A member reads back as its name and value.
pub proof fn pair_reads_back(member: (Seq<char>, Seq<char>), rest: Seq<char>)
    ensures
        read_pair(member_text(member) + rest) == Some((member, rest)),
        rest.len() < (member_text(member) + rest).len(),
{
    let text = member_text(member) + rest;
    let middle = seq![':'] + quoted(member.1) + rest;
    string_reads_back(member.0, middle);
    assert(text =~= quoted(member.0) + middle);
    string_reads_back(member.1, rest);
    assert(middle.skip(1) =~= quoted(member.1) + rest);
}

/// One more member at the end adds its text at the end, behind a comma
/// unless it is the first.
pub proof fn members_text_push(members: Seq<(Seq<char>, Seq<char>)>, member: (Seq<char>, Seq<char>))
    ensures
        members_text(members.push(member)) == if members.len() == 0 {
            member_text(member)
        } else {
            members_text(members) + seq![','] + member_text(member)
        },
    decreases members.len(),
{
    let longer = members.push(member);
    if members.len() > 0 {
        members_text_push(members.drop_first(), member);
        assert(longer.drop_first() =~= members.drop_first().push(member));
        assert(longer[0] == members[0]);
        assert(members_text(longer) == member_text(members[0]) + seq![','] + members_text(
            longer.drop_first(),
        ));
        assert(members_text(longer) =~= members_text(members) + seq![','] + member_text(member));
    }
}

/// The members of an object read back as they were written.
pub proof fn pairs_read_back(members: Seq<(Seq<char>, Seq<char>)>)
    requires
        members.len() > 0,
    ensures
        read_pairs(members_text(members) + seq!['}']) == Some(members),
        members_text(members).len() > 0,
        members_text(members)[0] == '"',
    decreases members.len(),
{
    let text = members_text(members) + seq!['}'];
    if members.len() == 1 {
        pair_reads_back(members[0], seq!['}']);
        assert(seq![members[0]] =~= members);
    } else {
        let others = members.drop_first();
        let rest = seq![','] + members_text(others) + seq!['}'];
        pairs_read_back(others);
        pair_reads_back(members[0], rest);
        assert(text =~= member_text(members[0]) + rest);
        assert(rest[0] == ',');
        assert(rest.skip(1) =~= members_text(others) + seq!['}']);
        assert(seq![members[0]] + others =~= members);
    }
}

/// An object reads back as it was written: reading the text of an object
/// gives its members, names and values unchanged and in their order. So
/// every character of a value is escaped exactly once on its way into the
/// text.
pub proof fn object_reads_back(members: Seq<(Seq<char>, Seq<char>)>)
    ensures
        read_object(object_text(members)) == Some(members),
{
    let text = object_text(members);
    if members.len() == 0 {
        assert(text =~= seq!['{', '}']);
        assert(members =~= Seq::empty());
    } else {
        pairs_read_back(members);
        assert(text[1] == '"');
        assert(text.skip(1) =~= members_text(members) + seq!['}']);
    }
}

/// The names and values of `members` as sequences of characters.
pub open spec fn members_of(members: Seq<(&str, &str)>) -> Seq<(Seq<char>, Seq<char>)> {
    Seq::new(members.len(), |i: int| (members[i].0@, members[i].1@))
}

/// Writes an object with the given names and string values as JSON text.
pub fn write_object(members: &Vec<(&str, &str)>) -> (out: String)
    ensures
        out@ == object_text(members_of(members@)),
{
    let ghost all = members_of(members@);
    let mut out = String::new();
    out.push('{');
    let mut i: usize = 0;
    while i < members.len()
        invariant
            i <= members.len(),
            all == members_of(members@),
            out@ == seq!['{'] + members_text(all.take(i as int)),
        decreases members.len() - i,
    {
        let ghost before = out@;
        if i > 0 {
            out.push(',');
        }
        push_quoted(&mut out, members[i].0);
        out.push(':');
        push_quoted(&mut out, members[i].1);
        proof {
            members_text_push(all.take(i as int), all[i as int]);
            assert(all.take(i + 1) =~= all.take(i as int).push(all[i as int]));
            assert(out@ =~= seq!['{'] + members_text(all.take(i + 1)));
        }
        i += 1;
    }
    assert(all.take(i as int) =~= all);
    out.push('}');
    assert(out@ =~= object_text(all));
    out
}

} // verus!
