//! JSON decoding of a record: the grammar the create and update bodies
//! must follow.  The spec functions define the accepted language — an
//! object with exactly the five record fields, in any order, with JSON
//! whitespace and string escapes — and the executable parser is proved to
//! decide exactly that language.

use vstd::prelude::*;
use crate::record::{ArchView, Architecture};
use crate::text::chars_to_string;
use crate::text::str_eq;

verus! {

/// JSON whitespace.
pub open spec fn is_ws(c: char) -> bool {
    c == ' ' || c == '\t' || c == '\n' || c == '\r'
}

/// The first index at or after `i` that does not hold whitespace.
pub open spec fn skip_ws(s: Seq<char>, i: int) -> int
    decreases s.len() - i,
{
    if 0 <= i < s.len() && is_ws(s[i]) {
        skip_ws(s, i + 1)
    } else {
        i
    }
}

/// What a backslash escape stands for; `None` for an unsupported escape.
pub open spec fn unescape(c: char) -> Option<char> {
    if c == '"' {
        Some('"')
    } else if c == '\\' {
        Some('\\')
    } else if c == '/' {
        Some('/')
    } else if c == 'n' {
        Some('\n')
    } else if c == 'r' {
        Some('\r')
    } else if c == 't' {
        Some('\t')
    } else if c == 'b' {
        Some('\u{8}')
    } else if c == 'f' {
        Some('\u{c}')
    } else {
        None
    }
}

/// The contents of a string literal, starting after its opening quote:
/// the decoded characters and the index after the closing quote.
pub open spec fn parse_str_body(s: Seq<char>, i: int, acc: Seq<char>) -> Option<(Seq<char>, int)>
    decreases s.len() - i,
{
    if !(0 <= i < s.len()) {
        None
    } else if s[i] == '"' {
        Some((acc, i + 1))
    } else if s[i] == '\\' {
        if i + 1 < s.len() {
            match unescape(s[i + 1]) {
                Some(e) => parse_str_body(s, i + 2, acc.push(e)),
                None => None,
            }
        } else {
            None
        }
    } else if (s[i] as int) < 0x20 {
        None
    } else {
        parse_str_body(s, i + 1, acc.push(s[i]))
    }
}

/// A string literal at `i`: a quote, its contents, a closing quote.
pub open spec fn parse_string(s: Seq<char>, i: int) -> Option<(Seq<char>, int)> {
    if 0 <= i < s.len() && s[i] == '"' {
        parse_str_body(s, i + 1, Seq::empty())
    } else {
        None
    }
}

/// A decimal digit.
pub open spec fn is_digit(c: char) -> bool {
    48 <= c as int <= 57
}

/// The value of a decimal digit.
pub open spec fn digit_val(c: char) -> int {
    c as int - 48
}

/// A run of digits folded into a value, bailing out once the magnitude
/// passes what a 32-bit id can hold.
pub open spec fn parse_digits(s: Seq<char>, i: int, acc: int) -> Option<(int, int)>
    decreases s.len() - i,
{
    if 0 <= i < s.len() && is_digit(s[i]) {
        let a2 = acc * 10 + digit_val(s[i]);
        if a2 > 0x8000_0000 {
            None
        } else {
            parse_digits(s, i + 1, a2)
        }
    } else {
        Some((acc, i))
    }
}

/// A 32-bit integer at `i`: an optional minus sign, then digits, with the
/// value required to fit the id column.
pub open spec fn parse_int(s: Seq<char>, i: int) -> Option<(int, int)> {
    let neg = 0 <= i < s.len() && s[i] == '-';
    let j = if neg {
        i + 1
    } else {
        i
    };
    if 0 <= j < s.len() && is_digit(s[j]) {
        match parse_digits(s, j, 0) {
            Some((v, k)) => {
                let sv = if neg {
                    -v
                } else {
                    v
                };
                if -0x8000_0000 <= sv <= 0x7fff_ffff {
                    Some((sv, k))
                } else {
                    None
                }
            },
            None => None,
        }
    } else {
        None
    }
}

/// A whole text read as a 32-bit integer, with nothing left over.
pub open spec fn i32_of_chars(v: Seq<char>) -> Option<int> {
    match parse_int(v, 0) {
        Some((x, k)) => if k == v.len() {
            Some(x)
        } else {
            None
        },
        None => None,
    }
}

/// A boolean literal at `i`.
pub open spec fn parse_bool(s: Seq<char>, i: int) -> Option<(bool, int)> {
    if 0 <= i && i + 4 <= s.len() && s[i] == 't' && s[i + 1] == 'r' && s[i + 2] == 'u' && s[i + 3]
        == 'e' {
        Some((true, i + 4))
    } else if 0 <= i && i + 5 <= s.len() && s[i] == 'f' && s[i + 1] == 'a' && s[i + 2] == 'l' && s[i
        + 3] == 's' && s[i + 4] == 'e' {
        Some((false, i + 5))
    } else {
        None
    }
}

/// The fields seen so far while reading an object.
pub ghost struct PartialView {
    pub arch_id: Option<int>,
    pub name: Option<Seq<char>>,
    pub status: Option<bool>,
    pub version: Option<Seq<char>>,
    pub putch: Option<Seq<char>>,
}

/// No field seen yet.
pub open spec fn empty_partial() -> PartialView {
    PartialView { arch_id: None, name: None, status: None, version: None, putch: None }
}

/// One `"key": value` member at `i`.  The key must be one of the five
/// record fields, not seen before, and the value must have that field's
/// type.
pub open spec fn parse_member(s: Seq<char>, i: int, p: PartialView) -> Option<(PartialView, int)> {
    match parse_string(s, i) {
        None => None,
        Some((key, j)) => {
            let j2 = skip_ws(s, j);
            if 0 <= j2 < s.len() && s[j2] == ':' {
                let j3 = skip_ws(s, j2 + 1);
                if key == "arch_id"@ {
                    if p.arch_id is Some {
                        None
                    } else {
                        match parse_int(s, j3) {
                            Some((v, k)) => Some(
                                (
                                    PartialView {
                                        arch_id: Some(v),
                                        name: p.name,
                                        status: p.status,
                                        version: p.version,
                                        putch: p.putch,
                                    },
                                    k,
                                ),
                            ),
                            None => None,
                        }
                    }
                } else if key == "name"@ {
                    if p.name is Some {
                        None
                    } else {
                        match parse_string(s, j3) {
                            Some((v, k)) => Some(
                                (
                                    PartialView {
                                        arch_id: p.arch_id,
                                        name: Some(v),
                                        status: p.status,
                                        version: p.version,
                                        putch: p.putch,
                                    },
                                    k,
                                ),
                            ),
                            None => None,
                        }
                    }
                } else if key == "status"@ {
                    if p.status is Some {
                        None
                    } else {
                        match parse_bool(s, j3) {
                            Some((v, k)) => Some(
                                (
                                    PartialView {
                                        arch_id: p.arch_id,
                                        name: p.name,
                                        status: Some(v),
                                        version: p.version,
                                        putch: p.putch,
                                    },
                                    k,
                                ),
                            ),
                            None => None,
                        }
                    }
                } else if key == "version"@ {
                    if p.version is Some {
                        None
                    } else {
                        match parse_string(s, j3) {
                            Some((v, k)) => Some(
                                (
                                    PartialView {
                                        arch_id: p.arch_id,
                                        name: p.name,
                                        status: p.status,
                                        version: Some(v),
                                        putch: p.putch,
                                    },
                                    k,
                                ),
                            ),
                            None => None,
                        }
                    }
                } else if key == "putch"@ {
                    if p.putch is Some {
                        None
                    } else {
                        match parse_string(s, j3) {
                            Some((v, k)) => Some(
                                (
                                    PartialView {
                                        arch_id: p.arch_id,
                                        name: p.name,
                                        status: p.status,
                                        version: p.version,
                                        putch: Some(v),
                                    },
                                    k,
                                ),
                            ),
                            None => None,
                        }
                    }
                } else {
                    None
                }
            } else {
                None
            }
        },
    }
}

/// The members of an object from `i` up to and past its closing brace.
/// Recursion is guarded on a strictly growing index; the executable parser
/// shows the guard always holds on the path it takes.
pub open spec fn parse_members(s: Seq<char>, i: int, p: PartialView) -> Option<(PartialView, int)>
    decreases s.len() - i,
{
    match parse_member(s, i, p) {
        None => None,
        Some((p2, j)) => {
            let j2 = skip_ws(s, j);
            if 0 <= j2 < s.len() && s[j2] == ',' {
                let j3 = skip_ws(s, j2 + 1);
                if i < j3 <= s.len() {
                    parse_members(s, j3, p2)
                } else {
                    None
                }
            } else if 0 <= j2 < s.len() && s[j2] == '}' {
                Some((p2, j2 + 1))
            } else {
                None
            }
        },
    }
}

/// The whole record: one object holding exactly the five fields, with
/// nothing but whitespace around it.
pub open spec fn parse_record_chars(s: Seq<char>) -> Option<ArchView> {
    let i = skip_ws(s, 0);
    if 0 <= i < s.len() && s[i] == '{' {
        let j = skip_ws(s, i + 1);
        match parse_members(s, j, empty_partial()) {
            None => None,
            Some((p, k)) => {
                if skip_ws(s, k) == s.len() {
                    match (p.arch_id, p.name, p.status, p.version, p.putch) {
                        (Some(a), Some(nm), Some(st), Some(vr), Some(pu)) => Some(
                            ArchView { arch_id: a, name: nm, status: st, version: vr, putch: pu },
                        ),
                        _ => None,
                    }
                } else {
                    None
                }
            },
        }
    } else {
        None
    }
}

/// The executable and the mathematical outcome of reading a string agree.
pub open spec fn str_res_agrees(r: Option<(String, usize)>, v: Option<(Seq<char>, int)>) -> bool {
    match (r, v) {
        (Some((a, i)), Some((b, j))) => a@ == b && i == j,
        (None, None) => true,
        _ => false,
    }
}

/// The executable and the mathematical outcome of reading an integer agree.
pub open spec fn int_res_agrees(r: Option<(i32, usize)>, v: Option<(int, int)>) -> bool {
    match (r, v) {
        (Some((a, i)), Some((b, j))) => a as int == b && i == j,
        (None, None) => true,
        _ => false,
    }
}

/// The executable and the mathematical outcome of reading a boolean agree.
pub open spec fn bool_res_agrees(r: Option<(bool, usize)>, v: Option<(bool, int)>) -> bool {
    match (r, v) {
        (Some((a, i)), Some((b, j))) => a == b && i == j,
        (None, None) => true,
        _ => false,
    }
}

/// The fields seen so far, as the executable parser holds them.
pub struct Partial {
    pub arch_id: Option<i32>,
    pub name: Option<String>,
    pub status: Option<bool>,
    pub version: Option<String>,
    pub putch: Option<String>,
}

impl View for Partial {
    type V = PartialView;

    open spec fn view(&self) -> PartialView {
        PartialView {
            arch_id: match self.arch_id {
                Some(v) => Some(v as int),
                None => None,
            },
            name: match self.name {
                Some(v) => Some(v@),
                None => None,
            },
            status: self.status,
            version: match self.version {
                Some(v) => Some(v@),
                None => None,
            },
            putch: match self.putch {
                Some(v) => Some(v@),
                None => None,
            },
        }
    }
}

/// The executable and the mathematical outcome of reading a member agree.
pub open spec fn member_res_agrees(
    r: Option<(Partial, usize)>,
    v: Option<(PartialView, int)>,
) -> bool {
    match (r, v) {
        (Some((a, i)), Some((b, j))) => a@ == b && i == j,
        (None, None) => true,
        _ => false,
    }
}

/// The executable and the mathematical outcome of reading a record agree.
pub open spec fn rec_agrees(r: Option<Architecture>, v: Option<ArchView>) -> bool {
    match (r, v) {
        (Some(a), Some(w)) => a@ == w,
        (None, None) => true,
        _ => false,
    }
}

fn skip_ws_exec(s: &str, n: usize, i: usize) -> (r: usize)
    requires
        n == s@.len(),
        i <= n,
    ensures
        r == skip_ws(s@, i as int),
        i <= r <= n,
{
    let mut j: usize = i;
    loop
        invariant
            n == s@.len(),
            i <= j <= n,
            skip_ws(s@, i as int) == skip_ws(s@, j as int),
        decreases n - j,
    {
        if j < n {
            let c = s.get_char(j);
            if c == ' ' || c == '\t' || c == '\n' || c == '\r' {
                proof {
                    assert(skip_ws(s@, j as int) == skip_ws(s@, j + 1 as int));
                }
                j = j + 1;
            } else {
                proof {
                    assert(skip_ws(s@, j as int) == j as int);
                }
                return j;
            }
        } else {
            proof {
                assert(skip_ws(s@, j as int) == j as int);
            }
            return j;
        }
    }
}

fn parse_string_exec(s: &str, n: usize, i: usize) -> (r: Option<(String, usize)>)
    requires
        n == s@.len(),
        i <= n,
    ensures
        str_res_agrees(r, parse_string(s@, i as int)),
        r matches Some((v, k)) ==> i < k <= n,
{
    if !(i < n && s.get_char(i) == '"') {
        return None;
    }
    let mut acc: Vec<char> = Vec::new();
    let mut j: usize = i + 1;
    loop
        invariant
            n == s@.len(),
            i < n,
            s@[i as int] == '"',
            i + 1 <= j <= n,
            parse_str_body(s@, i + 1 as int, Seq::empty()) == parse_str_body(
                s@,
                j as int,
                acc@,
            ),
        decreases n - j,
    {
        if j >= n {
            proof {
                assert(parse_str_body(s@, j as int, acc@) is None);
            }
            return None;
        }
        let c = s.get_char(j);
        if c == '"' {
            let out = chars_to_string(&acc);
            proof {
                assert(parse_str_body(s@, j as int, acc@) == Some((acc@, j + 1 as int)));
            }
            return Some((out, j + 1));
        } else if c == '\\' {
            if j + 1 >= n {
                proof {
                    assert(parse_str_body(s@, j as int, acc@) is None);
                }
                return None;
            }
            let e = s.get_char(j + 1);
            let dec: Option<char> = if e == '"' {
                Some('"')
            } else if e == '\\' {
                Some('\\')
            } else if e == '/' {
                Some('/')
            } else if e == 'n' {
                Some('\n')
            } else if e == 'r' {
                Some('\r')
            } else if e == 't' {
                Some('\t')
            } else if e == 'b' {
                Some('\u{8}')
            } else if e == 'f' {
                Some('\u{c}')
            } else {
                None
            };
            proof {
                assert(dec == unescape(s@[j + 1 as int]));
            }
            match dec {
                Some(d) => {
                    proof {
                        assert(parse_str_body(s@, j as int, acc@) == parse_str_body(
                            s@,
                            j + 2 as int,
                            acc@.push(d),
                        ));
                    }
                    acc.push(d);
                    j = j + 2;
                },
                None => {
                    proof {
                        assert(parse_str_body(s@, j as int, acc@) is None);
                    }
                    return None;
                },
            }
        } else if (c as u32) < 0x20 {
            proof {
                assert(parse_str_body(s@, j as int, acc@) is None);
            }
            return None;
        } else {
            proof {
                assert(parse_str_body(s@, j as int, acc@) == parse_str_body(
                    s@,
                    j + 1 as int,
                    acc@.push(c),
                ));
            }
            acc.push(c);
            j = j + 1;
        }
    }
}

fn digits_exec(s: &str, n: usize, start: usize) -> (r: Option<(u64, usize)>)
    requires
        n == s@.len(),
        start <= n,
    ensures
        match r {
            Some((a, j)) => a <= 0x8000_0000 && start <= j <= n && parse_digits(
                s@,
                start as int,
                0,
            ) == Some((a as int, j as int)),
            None => parse_digits(s@, start as int, 0) is None,
        },
{
    let mut acc: u64 = 0;
    let mut j: usize = start;
    loop
        invariant
            n == s@.len(),
            start <= j <= n,
            acc <= 0x8000_0000,
            parse_digits(s@, start as int, 0) == parse_digits(s@, j as int, acc as int),
        decreases n - j,
    {
        if j < n {
            let c = s.get_char(j);
            if '0' <= c && c <= '9' {
                let d: u64 = (c as u64) - 48;
                let a2: u64 = acc * 10 + d;
                proof {
                    assert(is_digit(s@[j as int]));
                    assert(d as int == digit_val(s@[j as int]));
                }
                if a2 > 0x8000_0000 {
                    proof {
                        assert(parse_digits(s@, j as int, acc as int) is None);
                    }
                    return None;
                }
                proof {
                    assert(parse_digits(s@, j as int, acc as int) == parse_digits(
                        s@,
                        j + 1 as int,
                        a2 as int,
                    ));
                }
                acc = a2;
                j = j + 1;
            } else {
                proof {
                    assert(!is_digit(s@[j as int]));
                    assert(parse_digits(s@, j as int, acc as int) == Some(
                        (acc as int, j as int),
                    ));
                }
                return Some((acc, j));
            }
        } else {
            proof {
                assert(parse_digits(s@, j as int, acc as int) == Some((acc as int, j as int)));
            }
            return Some((acc, j));
        }
    }
}

proof fn lemma_digits_lower(s: Seq<char>, i: int, acc: int)
    ensures
        parse_digits(s, i, acc) matches Some((v, k)) ==> k >= i,
    decreases s.len() - i,
{
    if 0 <= i < s.len() && is_digit(s[i]) {
        let a2 = acc * 10 + digit_val(s[i]);
        if a2 <= 0x8000_0000 {
            lemma_digits_lower(s, i + 1, a2);
        }
    }
}

fn parse_int_exec(s: &str, n: usize, i: usize) -> (r: Option<(i32, usize)>)
    requires
        n == s@.len(),
        i <= n,
    ensures
        int_res_agrees(r, parse_int(s@, i as int)),
        r matches Some((v, k)) ==> i < k <= n,
{
    let neg = i < n && s.get_char(i) == '-';
    let start: usize = if neg {
        i + 1
    } else {
        i
    };
    if !(start < n) {
        return None;
    }
    let c0 = s.get_char(start);
    if !('0' <= c0 && c0 <= '9') {
        proof {
            assert(!is_digit(s@[start as int]));
        }
        return None;
    }
    proof {
        assert(is_digit(s@[start as int]));
    }
    match digits_exec(s, n, start) {
        None => None,
        Some((acc, j)) => {
            proof {
                assert(parse_digits(s@, start as int, 0) == parse_digits(
                    s@,
                    start + 1 as int,
                    digit_val(s@[start as int]),
                ));
                lemma_digits_lower(s@, start + 1 as int, digit_val(s@[start as int]));
                assert(j > start);
            }
            if neg {
                let v: i64 = -(acc as i64);
                Some((v as i32, j))
            } else {
                if acc > 0x7fff_ffff {
                    return None;
                }
                Some((acc as i32, j))
            }
        },
    }
}

fn parse_bool_exec(s: &str, n: usize, i: usize) -> (r: Option<(bool, usize)>)
    requires
        n == s@.len(),
        i <= n,
    ensures
        bool_res_agrees(r, parse_bool(s@, i as int)),
        r matches Some((v, k)) ==> i < k <= n,
{
    if i < n && n - i >= 4 && s.get_char(i) == 't' && s.get_char(i + 1) == 'r' && s.get_char(i + 2)
        == 'u' && s.get_char(i + 3) == 'e' {
        Some((true, i + 4))
    } else if i < n && n - i >= 5 && s.get_char(i) == 'f' && s.get_char(i + 1) == 'a' && s.get_char(
        i + 2,
    ) == 'l' && s.get_char(i + 3) == 's' && s.get_char(i + 4) == 'e' {
        Some((false, i + 5))
    } else {
        None
    }
}

fn parse_member_exec(s: &str, n: usize, i: usize, p: Partial) -> (r: Option<(Partial, usize)>)
    requires
        n == s@.len(),
        i <= n,
    ensures
        member_res_agrees(r, parse_member(s@, i as int, p@)),
        r matches Some((q, k)) ==> i < k <= n,
{
    let key = match parse_string_exec(s, n, i) {
        Some(kj) => kj,
        None => {
            return None;
        },
    };
    let j2 = skip_ws_exec(s, n, key.1);
    if !(j2 < n && s.get_char(j2) == ':') {
        return None;
    }
    let j3 = skip_ws_exec(s, n, j2 + 1);
    if str_eq(key.0.as_str(), "arch_id") {
        if p.arch_id.is_some() {
            return None;
        }
        match parse_int_exec(s, n, j3) {
            Some((v, k)) => Some(
                (
                    Partial {
                        arch_id: Some(v),
                        name: p.name,
                        status: p.status,
                        version: p.version,
                        putch: p.putch,
                    },
                    k,
                ),
            ),
            None => None,
        }
    } else if str_eq(key.0.as_str(), "name") {
        if p.name.is_some() {
            return None;
        }
        match parse_string_exec(s, n, j3) {
            Some((v, k)) => Some(
                (
                    Partial {
                        arch_id: p.arch_id,
                        name: Some(v),
                        status: p.status,
                        version: p.version,
                        putch: p.putch,
                    },
                    k,
                ),
            ),
            None => None,
        }
    } else if str_eq(key.0.as_str(), "status") {
        if p.status.is_some() {
            return None;
        }
        match parse_bool_exec(s, n, j3) {
            Some((v, k)) => Some(
                (
                    Partial {
                        arch_id: p.arch_id,
                        name: p.name,
                        status: Some(v),
                        version: p.version,
                        putch: p.putch,
                    },
                    k,
                ),
            ),
            None => None,
        }
    } else if str_eq(key.0.as_str(), "version") {
        if p.version.is_some() {
            return None;
        }
        match parse_string_exec(s, n, j3) {
            Some((v, k)) => Some(
                (
                    Partial {
                        arch_id: p.arch_id,
                        name: p.name,
                        status: p.status,
                        version: Some(v),
                        putch: p.putch,
                    },
                    k,
                ),
            ),
            None => None,
        }
    } else if str_eq(key.0.as_str(), "putch") {
        if p.putch.is_some() {
            return None;
        }
        match parse_string_exec(s, n, j3) {
            Some((v, k)) => Some(
                (
                    Partial {
                        arch_id: p.arch_id,
                        name: p.name,
                        status: p.status,
                        version: p.version,
                        putch: Some(v),
                    },
                    k,
                ),
            ),
            None => None,
        }
    } else {
        None
    }
}

fn parse_members_exec(s: &str, n: usize, i: usize) -> (r: Option<(Partial, usize)>)
    requires
        n == s@.len(),
        i <= n,
    ensures
        member_res_agrees(r, parse_members(s@, i as int, empty_partial())),
        r matches Some((q, k)) ==> i < k <= n,
{
    let mut p = Partial { arch_id: None, name: None, status: None, version: None, putch: None };
    let mut j: usize = i;
    proof {
        assert(p@ == empty_partial());
    }
    loop
        invariant
            n == s@.len(),
            i <= j <= n,
            parse_members(s@, i as int, empty_partial()) == parse_members(s@, j as int, p@),
        decreases n - j,
    {
        let stepped = parse_member_exec(s, n, j, p);
        let (p2, k) = match stepped {
            Some(pk) => pk,
            None => {
                proof {
                    assert(parse_members(s@, j as int, p@) is None);
                }
                return None;
            },
        };
        let j2 = skip_ws_exec(s, n, k);
        if j2 < n {
            let c = s.get_char(j2);
            if c == ',' {
                let j3 = skip_ws_exec(s, n, j2 + 1);
                proof {
                    assert(j < j3 <= n);
                    assert(parse_members(s@, j as int, p@) == parse_members(
                        s@,
                        j3 as int,
                        p2@,
                    ));
                }
                p = p2;
                j = j3;
            } else if c == '}' {
                proof {
                    assert(parse_members(s@, j as int, p@) == Some((p2@, j2 + 1 as int)));
                }
                return Some((p2, j2 + 1));
            } else {
                proof {
                    assert(parse_members(s@, j as int, p@) is None);
                }
                return None;
            }
        } else {
            proof {
                assert(parse_members(s@, j as int, p@) is None);
            }
            return None;
        }
    }
}

/// Reads a whole text as a 32-bit integer; `None` when anything besides an
/// optional sign and digits appears, or the value does not fit.
pub fn parse_i32(s: &str) -> (r: Option<i32>)
    ensures
        match (r, i32_of_chars(s@)) {
            (Some(a), Some(b)) => a as int == b,
            (None, None) => true,
            _ => false,
        },
{
    let n = s.unicode_len();
    match parse_int_exec(s, n, 0) {
        Some((v, k)) => if k == n {
            Some(v)
        } else {
            None
        },
        None => None,
    }
}

impl Architecture {
    /// Decodes a record from a JSON text, accepting exactly the grammar of
    /// [`parse_record_chars`]: an object with the five fields, each once,
    /// in any order.  Returns `None` on any malformed input.
    pub fn from_json(s: &str) -> (r: Option<Architecture>)
        ensures
            rec_agrees(r, parse_record_chars(s@)),
    {
        let n = s.unicode_len();
        let i = skip_ws_exec(s, n, 0);
        if !(i < n && s.get_char(i) == '{') {
            return None;
        }
        let j = skip_ws_exec(s, n, i + 1);
        let (p, k) = match parse_members_exec(s, n, j) {
            Some(pk) => pk,
            None => {
                return None;
            },
        };
        if skip_ws_exec(s, n, k) != n {
            return None;
        }
        match (p.arch_id, p.name, p.status, p.version, p.putch) {
            (Some(a), Some(nm), Some(st), Some(vr), Some(pu)) => Some(
                Architecture { arch_id: a, name: nm, status: st, version: vr, putch: pu },
            ),
            _ => None,
        }
    }
}

} // verus!
