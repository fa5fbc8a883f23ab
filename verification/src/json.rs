//! JSON encoding of records: the exact character strings the service sends.

use vstd::prelude::*;
use crate::record::{ArchView, Architecture};
use crate::text::{chars_to_string, digit_char_of, hex_digit, int_chars, push_i32, push_str_chars};

verus! {

/// How one character appears inside a JSON string literal.
pub open spec fn escape_char(c: char) -> Seq<char> {
    if c == '"' {
        seq!['\\', '"']
    } else if c == '\\' {
        seq!['\\', '\\']
    } else if c == '\n' {
        seq!['\\', 'n']
    } else if c == '\r' {
        seq!['\\', 'r']
    } else if c == '\t' {
        seq!['\\', 't']
    } else if (c as int) < 0x20 {
        seq!['\\', 'u', '0', '0', hex_digit((c as int) / 16), hex_digit((c as int) % 16)]
    } else {
        seq![c]
    }
}

/// A whole string escaped for a JSON string literal.
pub open spec fn escape_chars(s: Seq<char>) -> Seq<char>
    decreases s.len(),
{
    if s.len() == 0 {
        Seq::empty()
    } else {
        escape_chars(s.drop_last()) + escape_char(s.last())
    }
}

/// A JSON string literal: quotes around the escaped characters.
pub open spec fn quoted(s: Seq<char>) -> Seq<char> {
    seq!['"'] + escape_chars(s) + seq!['"']
}

/// The JSON spelling of a boolean.
pub open spec fn bool_chars(b: bool) -> Seq<char> {
    if b {
        seq!['t', 'r', 'u', 'e']
    } else {
        seq!['f', 'a', 'l', 's', 'e']
    }
}

/// The JSON object for one record, fields in declaration order.
pub open spec fn record_chars(v: ArchView) -> Seq<char> {
    "{\"arch_id\":"@ + int_chars(v.arch_id) + ",\"name\":"@ + quoted(v.name) + ",\"status\":"@
        + bool_chars(v.status) + ",\"version\":"@ + quoted(v.version) + ",\"putch\":"@ + quoted(
        v.putch,
    ) + "}"@
}

/// The comma-separated JSON objects of a sequence of records.
pub open spec fn rows_chars(rows: Seq<ArchView>) -> Seq<char>
    decreases rows.len(),
{
    if rows.len() == 0 {
        Seq::empty()
    } else if rows.len() == 1 {
        record_chars(rows[0])
    } else {
        rows_chars(rows.drop_last()) + seq![','] + record_chars(rows.last())
    }
}

/// The JSON array for a sequence of records.
pub open spec fn array_chars(rows: Seq<ArchView>) -> Seq<char> {
    seq!['['] + rows_chars(rows) + seq![']']
}

/// The body reported by every successful mutating operation.
pub open spec fn status_true_chars() -> Seq<char> {
    "{\"status\":true}"@
}

/// Appends the escaped form of `s` to `out`.
fn push_escaped(out: &mut Vec<char>, s: &str)
    ensures
        final(out)@ == old(out)@ + escape_chars(s@),
{
    let n = s.unicode_len();
    let mut i: usize = 0;
    while i < n
        invariant
            n == s@.len(),
            i <= n,
            out@ == old(out)@ + escape_chars(s@.take(i as int)),
        decreases n - i,
    {
        let c = s.get_char(i);
        proof {
            assert(s@.take(i + 1 as int).drop_last() =~= s@.take(i as int));
            assert(s@.take(i + 1 as int).last() == c);
        }
        if c == '"' {
            out.push('\\');
            out.push('"');
        } else if c == '\\' {
            out.push('\\');
            out.push('\\');
        } else if c == '\n' {
            out.push('\\');
            out.push('n');
        } else if c == '\r' {
            out.push('\\');
            out.push('r');
        } else if c == '\t' {
            out.push('\\');
            out.push('t');
        } else if (c as u32) < 0x20 {
            out.push('\\');
            out.push('u');
            out.push('0');
            out.push('0');
            let hi: u32 = (c as u32) / 16;
            let lo: u32 = (c as u32) % 16;
            out.push(digit_char_of(hi as u64));
            if lo < 10 {
                out.push(digit_char_of(lo as u64));
            } else if lo == 10 {
                out.push('a');
            } else if lo == 11 {
                out.push('b');
            } else if lo == 12 {
                out.push('c');
            } else if lo == 13 {
                out.push('d');
            } else if lo == 14 {
                out.push('e');
            } else {
                out.push('f');
            }
        } else {
            out.push(c);
        }
        proof {
            assert(out@ =~= old(out)@ + escape_chars(s@.take(i + 1 as int)));
        }
        i = i + 1;
    }
    proof {
        assert(s@.take(n as int) =~= s@);
    }
}

/// Appends a JSON string literal for `s` to `out`.
fn push_quoted(out: &mut Vec<char>, s: &str)
    ensures
        final(out)@ == old(out)@ + quoted(s@),
{
    out.push('"');
    push_escaped(out, s);
    out.push('"');
    proof {
        assert(final(out)@ =~= old(out)@ + quoted(s@));
    }
}

/// Appends the JSON object of one record to `out`.
fn push_record(out: &mut Vec<char>, a: &Architecture)
    ensures
        final(out)@ == old(out)@ + record_chars(a@),
{
    push_str_chars(out, "{\"arch_id\":");
    push_i32(out, a.arch_id);
    push_str_chars(out, ",\"name\":");
    push_quoted(out, a.name.as_str());
    push_str_chars(out, ",\"status\":");
    if a.status {
        push_str_chars(out, "true");
        proof {
            reveal_strlit("true");
            assert("true"@ =~= bool_chars(true));
        }
    } else {
        push_str_chars(out, "false");
        proof {
            reveal_strlit("false");
            assert("false"@ =~= bool_chars(false));
        }
    }
    push_str_chars(out, ",\"version\":");
    push_quoted(out, a.version.as_str());
    push_str_chars(out, ",\"putch\":");
    push_quoted(out, a.putch.as_str());
    push_str_chars(out, "}");
    proof {
        assert(final(out)@ =~= old(out)@ + record_chars(a@));
    }
}

impl Architecture {
    /// Serializes this record as a JSON object.
    pub fn to_json(&self) -> (r: String)
        ensures
            r@ == record_chars(self@),
    {
        let mut out: Vec<char> = Vec::new();
        push_record(&mut out, self);
        chars_to_string(&out)
    }
}

/// Serializes a list of records as a JSON array.
pub fn records_to_json(rows: &Vec<Architecture>) -> (r: String)
    ensures
        r@ == array_chars(Seq::new(rows@.len(), |i: int| rows@[i]@)),
{
    let ghost views = Seq::new(rows@.len(), |i: int| rows@[i]@);
    let mut out: Vec<char> = Vec::new();
    out.push('[');
    let mut i: usize = 0;
    while i < rows.len()
        invariant
            i <= rows@.len(),
            views == Seq::new(rows@.len(), |j: int| rows@[j]@),
            out@ == seq!['['] + rows_chars(views.take(i as int)),
        decreases rows@.len() - i,
    {
        if i > 0 {
            out.push(',');
        }
        push_record(&mut out, &rows[i]);
        proof {
            assert(views.take(i + 1 as int).drop_last() =~= views.take(i as int));
            assert(views.take(i + 1 as int).last() == views[i as int]);
            if i == 0 {
                assert(views.take(1).len() == 1);
                assert(rows_chars(views.take(1)) == record_chars(views[0]));
            }
            assert(out@ =~= seq!['['] + rows_chars(views.take(i + 1 as int)));
        }
        i = i + 1;
    }
    out.push(']');
    proof {
        assert(views.take(rows@.len() as int) =~= views);
        assert(out@ =~= array_chars(views));
    }
    chars_to_string(&out)
}

/// The fixed success body for mutating operations.
pub fn status_true_body() -> (r: String)
    ensures
        r@ == status_true_chars(),
{
    let mut out: Vec<char> = Vec::new();
    push_str_chars(&mut out, "{\"status\":true}");
    chars_to_string(&out)
}

} // verus!
