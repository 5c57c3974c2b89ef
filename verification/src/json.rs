use vstd::prelude::*;
use crate::types::{GeminiContent, GeminiPart, GeminiRequest};

verus! {

/// The character for one hexadecimal digit, lower case.
pub open spec fn hex_digit(n: int) -> char {
    if n == 0 { '0' }
    else if n == 1 { '1' }
    else if n == 2 { '2' }
    else if n == 3 { '3' }
    else if n == 4 { '4' }
    else if n == 5 { '5' }
    else if n == 6 { '6' }
    else if n == 7 { '7' }
    else if n == 8 { '8' }
    else if n == 9 { '9' }
    else if n == 10 { 'a' }
    else if n == 11 { 'b' }
    else if n == 12 { 'c' }
    else if n == 13 { 'd' }
    else if n == 14 { 'e' }
    else if n == 15 { 'f' }
    else { '?' }
}

/// How one character appears inside a JSON string literal: the quote and the
/// backslash are escaped, the control characters that have short escapes use
/// them, the remaining control characters use a `\u00..` escape, and every
/// other character stands for itself.
pub open spec fn escape_char(c: char) -> Seq<char> {
    if c == '"' { seq!['\\', '"'] }
    else if c == '\\' { seq!['\\', '\\'] }
    else if c == '\u{8}' { seq!['\\', 'b'] }
    else if c == '\t' { seq!['\\', 't'] }
    else if c == '\n' { seq!['\\', 'n'] }
    else if c == '\u{c}' { seq!['\\', 'f'] }
    else if c == '\r' { seq!['\\', 'r'] }
    else if (c as int) < 0x20 {
        seq!['\\', 'u', '0', '0', hex_digit((c as int) / 16), hex_digit((c as int) % 16)]
    } else {
        seq![c]
    }
}

/// The body of a JSON string literal: every character escaped in turn.
pub open spec fn json_escaped(s: Seq<char>) -> Seq<char>
    decreases s.len(),
{
    if s.len() == 0 {
        Seq::empty()
    } else {
        json_escaped(s.drop_last()) + escape_char(s.last())
    }
}

/// A complete JSON string literal for `s`, quotes included.
pub open spec fn json_string(s: Seq<char>) -> Seq<char> {
    seq!['"'] + json_escaped(s) + seq!['"']
}

/// Elements joined with a comma between each pair, as a JSON array lists them.
pub open spec fn joined(elems: Seq<Seq<char>>) -> Seq<char>
    decreases elems.len(),
{
    if elems.len() == 0 {
        Seq::empty()
    } else if elems.len() == 1 {
        elems[0]
    } else {
        joined(elems.drop_last()) + seq![','] + elems.last()
    }
}

/// The JSON object for one prompt part.
pub open spec fn part_json(p: GeminiPart) -> Seq<char> {
    "{\"text\":"@ + json_string(p.text@) + "}"@
}

/// The JSON object for one content turn.
pub open spec fn content_json(c: GeminiContent) -> Seq<char> {
    "{\"parts\":["@ + joined(c.parts@.map_values(|p: GeminiPart| part_json(p))) + "]}"@
}

/// The JSON object for a whole upstream request, exactly as the provider's
/// wire contract asks for it.
pub open spec fn request_json(r: GeminiRequest) -> Seq<char> {
    "{\"contents\":["@ + joined(r.contents@.map_values(|c: GeminiContent| content_json(c))) + "]}"@
}

fn hex_digit_str(n: u32) -> (r: &'static str)
    requires
        n < 16,
    ensures
        r@ =~= seq![hex_digit(n as int)],
{
    proof {
        reveal_strlit("0");
        reveal_strlit("1");
        reveal_strlit("2");
        reveal_strlit("3");
        reveal_strlit("4");
        reveal_strlit("5");
        reveal_strlit("6");
        reveal_strlit("7");
        reveal_strlit("8");
        reveal_strlit("9");
        reveal_strlit("a");
        reveal_strlit("b");
        reveal_strlit("c");
        reveal_strlit("d");
        reveal_strlit("e");
        reveal_strlit("f");
    }
    if n == 0 { "0" }
    else if n == 1 { "1" }
    else if n == 2 { "2" }
    else if n == 3 { "3" }
    else if n == 4 { "4" }
    else if n == 5 { "5" }
    else if n == 6 { "6" }
    else if n == 7 { "7" }
    else if n == 8 { "8" }
    else if n == 9 { "9" }
    else if n == 10 { "a" }
    else if n == 11 { "b" }
    else if n == 12 { "c" }
    else if n == 13 { "d" }
    else if n == 14 { "e" }
    else { "f" }
}

fn escape_char_into(out: &mut String, c: char)
    ensures
        final(out)@ == old(out)@ + escape_char(c),
{
    proof {
        reveal_strlit("\\\"");
        reveal_strlit("\\\\");
        reveal_strlit("\\b");
        reveal_strlit("\\t");
        reveal_strlit("\\n");
        reveal_strlit("\\f");
        reveal_strlit("\\r");
        reveal_strlit("\\u00");
    }
    if c == '"' {
        out.append("\\\"");
        assert(out@ =~= old(out)@ + escape_char(c));
    } else if c == '\\' {
        out.append("\\\\");
        assert(out@ =~= old(out)@ + escape_char(c));
    } else if c == '\u{8}' {
        out.append("\\b");
        assert(out@ =~= old(out)@ + escape_char(c));
    } else if c == '\t' {
        out.append("\\t");
        assert(out@ =~= old(out)@ + escape_char(c));
    } else if c == '\n' {
        out.append("\\n");
        assert(out@ =~= old(out)@ + escape_char(c));
    } else if c == '\u{c}' {
        out.append("\\f");
        assert(out@ =~= old(out)@ + escape_char(c));
    } else if c == '\r' {
        out.append("\\r");
        assert(out@ =~= old(out)@ + escape_char(c));
    } else if (c as u32) < 0x20 {
        out.append("\\u00");
        out.append(hex_digit_str((c as u32) / 16));
        out.append(hex_digit_str((c as u32) % 16));
        assert(out@ =~= old(out)@ + escape_char(c));
    } else {
        append_one_char(out, c);
        assert(out@ =~= old(out)@ + escape_char(c));
    }
}

/// Relies on `String::push` of std: it appends exactly the one given
/// character to the end of the string.
#[verifier::external_body]
fn append_one_char(out: &mut String, c: char)
    ensures
        final(out)@ == old(out)@ + seq![c],
{
    out.push(c);
}

/// Appends the escaped body of a JSON string literal for `s`.
fn escape_into(out: &mut String, s: &str)
    ensures
        final(out)@ == old(out)@ + json_escaped(s@),
{
    let n = s.unicode_len();
    let mut i: usize = 0;
    while i < n
        invariant
            i <= n,
            n == s@.len(),
            out@ == old(out)@ + json_escaped(s@.subrange(0, i as int)),
        decreases n - i,
    {
        let c = s.get_char(i);
        proof {
            let pre = s@.subrange(0, i as int);
            let post = s@.subrange(0, i as int + 1);
            assert(post.drop_last() =~= pre);
            assert(post.last() == c);
            assert(json_escaped(post) == json_escaped(pre) + escape_char(c));
        }
        escape_char_into(out, c);
        i += 1;
    }
    proof {
        assert(s@.subrange(0, n as int) =~= s@);
    }
}

/// Appends the complete JSON string literal for `s`, quotes included.
pub fn json_string_into(out: &mut String, s: &str)
    ensures
        final(out)@ == old(out)@ + json_string(s@),
{
    proof {
        reveal_strlit("\"");
    }
    out.append("\"");
    escape_into(out, s);
    out.append("\"");
    assert(out@ =~= old(out)@ + json_string(s@));
}

fn part_into(out: &mut String, p: &GeminiPart)
    ensures
        final(out)@ == old(out)@ + part_json(*p),
{
    out.append("{\"text\":");
    json_string_into(out, p.text.as_str());
    out.append("}");
    assert(out@ =~= old(out)@ + part_json(*p));
}

fn content_into(out: &mut String, c: &GeminiContent)
    ensures
        final(out)@ == old(out)@ + content_json(*c),
{
    out.append("{\"parts\":[");
    let ghost mapped = c.parts@.map_values(|p: GeminiPart| part_json(p));
    let n = c.parts.len();
    let mut i: usize = 0;
    while i < n
        invariant
            i <= n,
            n == c.parts@.len(),
            mapped == c.parts@.map_values(|p: GeminiPart| part_json(p)),
            out@ == old(out)@ + "{\"parts\":["@ + joined(mapped.subrange(0, i as int)),
        decreases n - i,
    {
        if i > 0 {
            out.append(",");
            proof {
                reveal_strlit(",");
            }
        }
        part_into(out, &c.parts[i]);
        proof {
            let pre = mapped.subrange(0, i as int);
            let post = mapped.subrange(0, i as int + 1);
            assert(post.drop_last() =~= pre);
            assert(post.last() == part_json(c.parts@[i as int]));
            if i == 0 {
                assert(joined(post) == part_json(c.parts@[0]));
                assert(out@ =~= old(out)@ + "{\"parts\":["@ + joined(post));
            } else {
                assert(joined(post) == joined(pre) + seq![','] + post.last());
                assert(out@ =~= old(out)@ + "{\"parts\":["@ + joined(post));
            }
        }
        i += 1;
    }
    out.append("]}");
    proof {
        assert(mapped.subrange(0, n as int) =~= mapped);
        assert(out@ =~= old(out)@ + content_json(*c));
    }
}

/// Serialises an upstream request to the exact JSON the wire contract names:
/// `{"contents":[{"parts":[{"text":...}]}]}` with every string escaped.
pub fn encode_request(r: &GeminiRequest) -> (out: String)
    ensures
        out@ == request_json(*r),
{
    let mut out = String::new();
    out.append("{\"contents\":[");
    let ghost mapped = r.contents@.map_values(|c: GeminiContent| content_json(c));
    let n = r.contents.len();
    let mut i: usize = 0;
    while i < n
        invariant
            i <= n,
            n == r.contents@.len(),
            mapped == r.contents@.map_values(|c: GeminiContent| content_json(c)),
            out@ == "{\"contents\":["@ + joined(mapped.subrange(0, i as int)),
        decreases n - i,
    {
        if i > 0 {
            out.append(",");
            proof {
                reveal_strlit(",");
            }
        }
        content_into(&mut out, &r.contents[i]);
        proof {
            let pre = mapped.subrange(0, i as int);
            let post = mapped.subrange(0, i as int + 1);
            assert(post.drop_last() =~= pre);
            assert(post.last() == content_json(r.contents@[i as int]));
            if i == 0 {
                assert(joined(post) == content_json(r.contents@[0]));
            } else {
                assert(joined(post) == joined(pre) + seq![','] + post.last());
            }
            assert(out@ =~= "{\"contents\":["@ + joined(post));
        }
        i += 1;
    }
    out.append("]}");
    proof {
        assert(mapped.subrange(0, n as int) =~= mapped);
        assert(out@ =~= request_json(*r));
    }
    out
}

} // verus!
