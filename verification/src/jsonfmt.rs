//! JSON serialization of the conversion result record.
//!
//! The dispatcher answers with the result serialized as a JSON object, so the
//! exact text is part of the response contract: optional fields are omitted
//! when absent, and string values are escaped as JSON requires (quote,
//! backslash, and control characters).
use vstd::prelude::*;

use vstd::string::StringExecFns;

use crate::backend;
use crate::packaging::ConversionResult;

verus! {

/// The lowercase hexadecimal digit of a value below 16.
pub open spec fn hex_digit(n: int) -> char {
    if n == 0 {
        '0'
    } else if n == 1 {
        '1'
    } else if n == 2 {
        '2'
    } else if n == 3 {
        '3'
    } else if n == 4 {
        '4'
    } else if n == 5 {
        '5'
    } else if n == 6 {
        '6'
    } else if n == 7 {
        '7'
    } else if n == 8 {
        '8'
    } else if n == 9 {
        '9'
    } else if n == 10 {
        'a'
    } else if n == 11 {
        'b'
    } else if n == 12 {
        'c'
    } else if n == 13 {
        'd'
    } else if n == 14 {
        'e'
    } else {
        'f'
    }
}

/// How one character appears inside a JSON string literal: quote and
/// backslash get a backslash escape, the named control characters get their
/// short escapes, any other control character becomes `\u00xx`, and everything
/// else stands as itself.
pub open spec fn escaped_char(c: char) -> Seq<char> {
    if c == '"' {
        seq!['\\', '"']
    } else if c == '\\' {
        seq!['\\', '\\']
    } else if c == '\u{8}' {
        seq!['\\', 'b']
    } else if c == '\t' {
        seq!['\\', 't']
    } else if c == '\n' {
        seq!['\\', 'n']
    } else if c == '\u{c}' {
        seq!['\\', 'f']
    } else if c == '\r' {
        seq!['\\', 'r']
    } else if (c as u32) < 32 {
        seq!['\\', 'u', '0', '0', hex_digit(c as u32 as int / 16), hex_digit(c as u32 as int % 16)]
    } else {
        seq![c]
    }
}

/// A whole string escaped for JSON, character by character.
pub open spec fn escape_seq(s: Seq<char>) -> Seq<char>
    decreases s.len(),
{
    if s.len() == 0 {
        Seq::empty()
    } else {
        escape_seq(s.drop_last()) + escaped_char(s.last())
    }
}

fn hex_digit_char(n: u32) -> (r: char)
    requires
        n < 16,
    ensures
        r == hex_digit(n as int),
{
    if n == 0 {
        '0'
    } else if n == 1 {
        '1'
    } else if n == 2 {
        '2'
    } else if n == 3 {
        '3'
    } else if n == 4 {
        '4'
    } else if n == 5 {
        '5'
    } else if n == 6 {
        '6'
    } else if n == 7 {
        '7'
    } else if n == 8 {
        '8'
    } else if n == 9 {
        '9'
    } else if n == 10 {
        'a'
    } else if n == 11 {
        'b'
    } else if n == 12 {
        'c'
    } else if n == 13 {
        'd'
    } else if n == 14 {
        'e'
    } else {
        'f'
    }
}

/// Escapes a string for inclusion inside a JSON string literal.
pub fn json_escape(s: &str) -> (r: String)
    ensures
        r@ == escape_seq(s@),
{
    let chars = backend::str_chars(s);
    let mut out: Vec<char> = Vec::new();
    let mut i: usize = 0;
    while i < chars.len()
        invariant
            i <= chars@.len(),
            chars@ == s@,
            out@ == escape_seq(s@.take(i as int)),
        decreases chars@.len() - i,
    {
        let c = chars[i];
        if c == '"' {
            out.push('\\');
            out.push('"');
        } else if c == '\\' {
            out.push('\\');
            out.push('\\');
        } else if c == '\u{8}' {
            out.push('\\');
            out.push('b');
        } else if c == '\t' {
            out.push('\\');
            out.push('t');
        } else if c == '\n' {
            out.push('\\');
            out.push('n');
        } else if c == '\u{c}' {
            out.push('\\');
            out.push('f');
        } else if c == '\r' {
            out.push('\\');
            out.push('r');
        } else if (c as u32) < 32 {
            out.push('\\');
            out.push('u');
            out.push('0');
            out.push('0');
            out.push(hex_digit_char((c as u32) / 16));
            out.push(hex_digit_char((c as u32) % 16));
        } else {
            out.push(c);
        }
        proof {
            assert(s@.take(i + 1).drop_last() =~= s@.take(i as int));
            assert(s@.take(i + 1).last() == s@[i as int]);
            assert(out@ =~= escape_seq(s@.take(i as int)) + escaped_char(s@[i as int]));
        }
        i = i + 1;
    }
    proof {
        assert(s@.take(s@.len() as int) =~= s@);
    }
    backend::chars_to_string(&out)
}

/// The view of an optional string.
pub open spec fn opt_view(o: Option<String>) -> Option<Seq<char>> {
    match o {
        Some(s) => Some(s@),
        None => None,
    }
}

/// The JSON object text for a conversion result: absent optional fields are
/// omitted, present ones appear in declaration order, and every string value
/// is escaped.
pub open spec fn json_of(
    file_path: Option<Seq<char>>,
    base64_data: Option<Seq<char>>,
    mime_type: Seq<char>,
) -> Seq<char> {
    "{"@ + (match file_path {
        Some(p) => "\"file_path\":\""@ + escape_seq(p) + "\","@,
        None => Seq::<char>::empty(),
    }) + (match base64_data {
        Some(d) => "\"base64_data\":\""@ + escape_seq(d) + "\","@,
        None => Seq::<char>::empty(),
    }) + "\"mime_type\":\""@ + escape_seq(mime_type) + "\"}"@
}

/// Serializes a conversion result as its JSON object text.
pub fn result_to_json(res: &ConversionResult) -> (r: String)
    ensures
        r@ == json_of(opt_view(res.file_path), opt_view(res.base64_data), res.mime_type@),
{
    let mut out = String::new();
    out.append("{");
    match &res.file_path {
        Some(p) => {
            out.append("\"file_path\":\"");
            let escaped = json_escape(p.as_str());
            out.append(escaped.as_str());
            out.append("\",");
        },
        None => {},
    }
    match &res.base64_data {
        Some(d) => {
            out.append("\"base64_data\":\"");
            let escaped = json_escape(d.as_str());
            out.append(escaped.as_str());
            out.append("\",");
        },
        None => {},
    }
    out.append("\"mime_type\":\"");
    let escaped = json_escape(res.mime_type.as_str());
    out.append(escaped.as_str());
    out.append("\"}");
    proof {
        assert(out@ =~= json_of(
            opt_view(res.file_path),
            opt_view(res.base64_data),
            res.mime_type@,
        ));
    }
    out
}

} // verus!
