//! The JSON subset the API speaks, parsed by this crate itself so that the
//! envelope and payload decoding can be specified and verified down to the
//! bytes of the response body.
//!
//! The grammar is JSON with two deliberate restrictions, both safe for this
//! API's wire shapes: numbers must be integers that fit in `i64` (no
//! fractions or exponents), and the `\u` string escape is not accepted
//! (non-ASCII text still passes through as raw UTF-8 bytes). Input that
//! steps outside the subset fails to parse, which callers report as a
//! decode error.
//!
//! [`spec_parse_json`] is the specification: a recursive descent over the
//! byte sequence. The executable parser returns exactly what the
//! specification says, including on rejected input.

use vstd::prelude::*;

use vstd::utf8::{decode_utf8, valid_utf8};

verus! {

broadcast use vstd::std_specs::vec::group_vec_axioms, vstd::seq::group_seq_axioms;

/// A parsed JSON value.
#[derive(Debug)]
pub enum JsonValue {
    Null,
    Bool(bool),
    Int(i64),
    Str(String),
    Arr(Vec<JsonValue>),
    Obj(Vec<(String, JsonValue)>),
}

/// The mathematical value of a [`JsonValue`].
pub enum JsonV {
    Null,
    Bool(bool),
    Int(int),
    Str(Seq<char>),
    Arr(Seq<JsonV>),
    Obj(Seq<(Seq<char>, JsonV)>),
}

/// The value of a [`JsonValue`], structurally.
pub open spec fn json_view(v: JsonValue) -> JsonV
    decreases v,
{
    match v {
        JsonValue::Null => JsonV::Null,
        JsonValue::Bool(b) => JsonV::Bool(b),
        JsonValue::Int(n) => JsonV::Int(n as int),
        JsonValue::Str(s) => JsonV::Str(s@),
        JsonValue::Arr(vs) => JsonV::Arr(json_views(vs@)),
        JsonValue::Obj(ms) => JsonV::Obj(json_pair_views(ms@)),
    }
}

/// The values of a sequence of [`JsonValue`]s. (The range test only guards
/// the recursion's termination measure; `Seq::new` never applies the
/// closure outside it.)
pub open spec fn json_views(vs: Seq<JsonValue>) -> Seq<JsonV>
    decreases vs,
{
    Seq::new(
        vs.len(),
        |i: int|
            if 0 <= i < vs.len() {
                json_view(vs[i])
            } else {
                JsonV::Null
            },
    )
}

/// The values of a sequence of object members.
pub open spec fn json_pair_views(ms: Seq<(String, JsonValue)>) -> Seq<(Seq<char>, JsonV)>
    decreases ms,
{
    Seq::new(
        ms.len(),
        |i: int|
            if 0 <= i < ms.len() {
                (ms[i].0@, json_view(ms[i].1))
            } else {
                (Seq::empty(), JsonV::Null)
            },
    )
}

impl View for JsonValue {
    type V = JsonV;

    open spec fn view(&self) -> JsonV {
        json_view(*self)
    }
}

// The byte values the grammar speaks of.
pub const B_QUOTE: u8 = 34;

pub const B_COMMA: u8 = 44;

pub const B_COLON: u8 = 58;

pub const B_MINUS: u8 = 45;

pub const B_BACKSLASH: u8 = 92;

pub const B_LBRACKET: u8 = 91;

pub const B_RBRACKET: u8 = 93;

pub const B_LBRACE: u8 = 123;

pub const B_RBRACE: u8 = 125;

/// JSON insignificant whitespace: space, tab, line feed, carriage return.
pub open spec fn is_ws(b: u8) -> bool {
    b == 32 || b == 9 || b == 10 || b == 13
}

/// A decimal digit byte.
pub open spec fn is_digit(b: u8) -> bool {
    48 <= b <= 57
}

/// The first index at or after `i` holding a non-whitespace byte (or the
/// end of the input).
pub open spec fn skip_ws(s: Seq<u8>, i: int) -> int
    decreases s.len() - i,
{
    if 0 <= i < s.len() && is_ws(s[i]) {
        skip_ws(s, i + 1)
    } else {
        i
    }
}

/// What a one-character string escape stands for, if the character after
/// the backslash is a valid escape.
pub open spec fn escape_byte(b: u8) -> Option<u8> {
    if b == B_QUOTE {
        Some(B_QUOTE)
    } else if b == B_BACKSLASH {
        Some(B_BACKSLASH)
    } else if b == 47 {  // solidus
        Some(47)
    } else if b == 98 {  // b
        Some(8)
    } else if b == 102 {  // f
        Some(12)
    } else if b == 110 {  // n
        Some(10)
    } else if b == 114 {  // r
        Some(13)
    } else if b == 116 {  // t
        Some(9)
    } else {
        None
    }
}

/// The content bytes of a string, starting inside the quotes at `i`, with
/// escapes resolved; and the index just past the closing quote.
pub open spec fn spec_str_bytes(s: Seq<u8>, i: int) -> Option<(Seq<u8>, int)>
    decreases s.len() - i,
{
    if !(0 <= i < s.len()) {
        None
    } else if s[i] == B_QUOTE {
        Some((seq![], i + 1))
    } else if s[i] == B_BACKSLASH {
        if i + 1 < s.len() {
            match escape_byte(s[i + 1]) {
                Some(e) => match spec_str_bytes(s, i + 2) {
                    Some((content, j)) => Some((seq![e] + content, j)),
                    None => None,
                },
                None => None,
            }
        } else {
            None
        }
    } else {
        match spec_str_bytes(s, i + 1) {
            Some((content, j)) => Some((seq![s[i]] + content, j)),
            None => None,
        }
    }
}

/// A string token at `i` (which must hold the opening quote): its decoded
/// characters and the index just past the closing quote. The content bytes
/// must be valid UTF-8.
pub open spec fn spec_string(s: Seq<u8>, i: int) -> Option<(Seq<char>, int)> {
    if 0 <= i < s.len() && s[i] == B_QUOTE {
        match spec_str_bytes(s, i + 1) {
            Some((content, j)) => if valid_utf8(content) {
                Some((decode_utf8(content), j))
            } else {
                None
            },
            None => None,
        }
    } else {
        None
    }
}

/// Digits accumulated left to right onto `acc`. A value that would pass
/// `i64::MAX` is rejected; the guard is phrased exactly as the executable
/// overflow check is.
pub open spec fn spec_digits(s: Seq<u8>, i: int, acc: int) -> Option<(int, int)>
    decreases s.len() - i,
{
    if 0 <= i < s.len() && is_digit(s[i]) {
        if acc > (i64::MAX - (s[i] - 48)) / 10 {
            None
        } else {
            spec_digits(s, i + 1, acc * 10 + (s[i] - 48))
        }
    } else {
        Some((acc, i))
    }
}

/// An integer number token at `i`: an optional minus sign, then at least
/// one digit. Fractions and exponents are outside the subset; a digit
/// string they would follow parses as the integer alone, and the stray
/// `.` or `e` then fails the surrounding rule.
pub open spec fn spec_number(s: Seq<u8>, i: int) -> Option<(int, int)> {
    if 0 <= i < s.len() && s[i] == B_MINUS {
        if i + 1 < s.len() && is_digit(s[i + 1]) {
            match spec_digits(s, i + 1, 0) {
                Some((v, j)) => Some((-v, j)),
                None => None,
            }
        } else {
            None
        }
    } else if 0 <= i < s.len() && is_digit(s[i]) {
        spec_digits(s, i, 0)
    } else {
        None
    }
}

/// A value starting at or after `i0` (leading whitespace skipped). `fuel`
/// bounds the recursion; [`parse_fuel`] is always enough for input the
/// grammar accepts.
pub open spec fn spec_value(s: Seq<u8>, i0: int, fuel: nat) -> Option<(JsonV, int)>
    decreases fuel,
{
    if fuel == 0 {
        None
    } else {
        let i = skip_ws(s, i0);
        if !(0 <= i < s.len()) {
            None
        } else if s[i] == 110 {  // n
            if i + 4 <= s.len() && s[i + 1] == 117 && s[i + 2] == 108 && s[i + 3] == 108 {
                Some((JsonV::Null, i + 4))
            } else {
                None
            }
        } else if s[i] == 116 {  // t
            if i + 4 <= s.len() && s[i + 1] == 114 && s[i + 2] == 117 && s[i + 3] == 101 {
                Some((JsonV::Bool(true), i + 4))
            } else {
                None
            }
        } else if s[i] == 102 {  // f
            if i + 5 <= s.len() && s[i + 1] == 97 && s[i + 2] == 108 && s[i + 3] == 115 && s[i
                + 4] == 101 {
                Some((JsonV::Bool(false), i + 5))
            } else {
                None
            }
        } else if s[i] == B_QUOTE {
            match spec_string(s, i) {
                Some((cs, j)) => Some((JsonV::Str(cs), j)),
                None => None,
            }
        } else if s[i] == B_MINUS || is_digit(s[i]) {
            match spec_number(s, i) {
                Some((v, j)) => Some((JsonV::Int(v), j)),
                None => None,
            }
        } else if s[i] == B_LBRACKET {
            let j = skip_ws(s, i + 1);
            if 0 <= j < s.len() && s[j] == B_RBRACKET {
                Some((JsonV::Arr(seq![]), j + 1))
            } else {
                match spec_elements(s, i + 1, (fuel - 1) as nat) {
                    Some((vs, k)) => Some((JsonV::Arr(vs), k)),
                    None => None,
                }
            }
        } else if s[i] == B_LBRACE {
            let j = skip_ws(s, i + 1);
            if 0 <= j < s.len() && s[j] == B_RBRACE {
                Some((JsonV::Obj(seq![]), j + 1))
            } else {
                match spec_members(s, i + 1, (fuel - 1) as nat) {
                    Some((ms, k)) => Some((JsonV::Obj(ms), k)),
                    None => None,
                }
            }
        } else {
            None
        }
    }
}

/// The elements of a non-empty array, starting after the opening bracket
/// (or after a comma); ends just past the closing bracket.
pub open spec fn spec_elements(s: Seq<u8>, i: int, fuel: nat) -> Option<(Seq<JsonV>, int)>
    decreases fuel,
{
    if fuel == 0 {
        None
    } else {
        match spec_value(s, i, (fuel - 1) as nat) {
            Some((v, j0)) => {
                let j = skip_ws(s, j0);
                if 0 <= j < s.len() && s[j] == B_RBRACKET {
                    Some((seq![v], j + 1))
                } else if 0 <= j < s.len() && s[j] == B_COMMA {
                    match spec_elements(s, j + 1, (fuel - 1) as nat) {
                        Some((vs, k)) => Some((seq![v] + vs, k)),
                        None => None,
                    }
                } else {
                    None
                }
            },
            None => None,
        }
    }
}

/// The members of a non-empty object, starting after the opening brace (or
/// after a comma); ends just past the closing brace.
pub open spec fn spec_members(s: Seq<u8>, i0: int, fuel: nat) -> Option<
    (Seq<(Seq<char>, JsonV)>, int),
>
    decreases fuel,
{
    if fuel == 0 {
        None
    } else {
        let i = skip_ws(s, i0);
        match spec_string(s, i) {
            Some((key, j0)) => {
                let j = skip_ws(s, j0);
                if 0 <= j < s.len() && s[j] == B_COLON {
                    match spec_value(s, j + 1, (fuel - 1) as nat) {
                        Some((v, m0)) => {
                            let m = skip_ws(s, m0);
                            if 0 <= m < s.len() && s[m] == B_RBRACE {
                                Some((seq![(key, v)], m + 1))
                            } else if 0 <= m < s.len() && s[m] == B_COMMA {
                                match spec_members(s, m + 1, (fuel - 1) as nat) {
                                    Some((ms, e)) => Some((seq![(key, v)] + ms, e)),
                                    None => None,
                                }
                            } else {
                                None
                            }
                        },
                        None => None,
                    }
                } else {
                    None
                }
            },
            None => None,
        }
    }
}

/// Recursion fuel that suffices for any input the grammar accepts: every
/// fuel unit spent consumes at least one input byte or closes one rule.
pub open spec fn parse_fuel(len: nat) -> nat {
    2 * len + 4
}

/// The parse of a whole document: one value, with nothing but whitespace
/// around it. This is the specification the executable parser meets
/// exactly.
pub open spec fn spec_parse_json(s: Seq<u8>) -> Option<JsonV> {
    match spec_value(s, 0, parse_fuel(s.len())) {
        Some((v, j)) => if skip_ws(s, j) == s.len() {
            Some(v)
        } else {
            None
        },
        None => None,
    }
}

/// The value of the first member named `key`, if any.
pub open spec fn spec_lookup(ms: Seq<(Seq<char>, JsonV)>, key: Seq<char>) -> Option<JsonV>
    decreases ms.len(),
{
    if ms.len() == 0 {
        None
    } else if ms[0].0 == key {
        Some(ms[0].1)
    } else {
        spec_lookup(ms.drop_first(), key)
    }
}

/// Relies on `String::from_utf8`: it accepts exactly valid UTF-8 and
/// decodes it, as vstd's UTF-8 model states.
#[verifier::external_body]
fn utf8_to_string(bytes: Vec<u8>) -> (r: Option<String>)
    ensures
        r is Some <==> valid_utf8(bytes@),
        match r {
            Some(s) => s@ == decode_utf8(bytes@),
            None => true,
        },
{
    String::from_utf8(bytes).ok()
}

/// Skip insignificant whitespace.
fn ws_x(s: &Vec<u8>, i0: usize) -> (r: usize)
    requires
        i0 <= s@.len(),
    ensures
        r == skip_ws(s@, i0 as int),
        i0 <= r <= s@.len(),
{
    let mut i = i0;
    while i < s.len() && (s[i] == 32 || s[i] == 9 || s[i] == 10 || s[i] == 13)
        invariant
            i0 <= i <= s@.len(),
            skip_ws(s@, i0 as int) == skip_ws(s@, i as int),
        decreases s@.len() - i,
    {
        i = i + 1;
    }
    i
}

/// The escape resolution, executable.
fn escape_byte_x(b: u8) -> (r: Option<u8>)
    ensures
        r == escape_byte(b),
{
    if b == B_QUOTE {
        Some(B_QUOTE)
    } else if b == B_BACKSLASH {
        Some(B_BACKSLASH)
    } else if b == 47 {
        Some(47)
    } else if b == 98 {
        Some(8)
    } else if b == 102 {
        Some(12)
    } else if b == 110 {
        Some(10)
    } else if b == 114 {
        Some(13)
    } else if b == 116 {
        Some(9)
    } else {
        None
    }
}

/// String content bytes from inside the quotes.
fn str_bytes_x(s: &Vec<u8>, i: usize) -> (r: Option<(Vec<u8>, usize)>)
    requires
        i <= s@.len(),
    ensures
        match r {
            Some(p) => spec_str_bytes(s@, i as int) == Some((p.0@, p.1 as int)) && i < p.1
                <= s@.len(),
            None => spec_str_bytes(s@, i as int) is None,
        },
    decreases s@.len() - i,
{
    if i >= s.len() {
        None
    } else {
        let b = s[i];
        if b == B_QUOTE {
            Some((Vec::new(), i + 1))
        } else if b == B_BACKSLASH {
            if i + 1 < s.len() {
                match escape_byte_x(s[i + 1]) {
                    Some(e) => match str_bytes_x(s, i + 2) {
                        Some((mut content, j)) => {
                            let ghost c0 = content@;
                            content.insert(0, e);
                            proof {
                                assert(content@ =~= seq![e] + c0);
                            }
                            Some((content, j))
                        },
                        None => None,
                    },
                    None => None,
                }
            } else {
                None
            }
        } else {
            match str_bytes_x(s, i + 1) {
                Some((mut content, j)) => {
                    let ghost c0 = content@;
                    content.insert(0, b);
                    proof {
                        assert(content@ =~= seq![b] + c0);
                    }
                    Some((content, j))
                },
                None => None,
            }
        }
    }
}

/// A whole string token, decoded to characters.
fn string_x(s: &Vec<u8>, i: usize) -> (r: Option<(String, usize)>)
    requires
        i <= s@.len(),
    ensures
        match r {
            Some(p) => spec_string(s@, i as int) == Some((p.0@, p.1 as int)) && i < p.1
                <= s@.len(),
            None => spec_string(s@, i as int) is None,
        },
{
    if i < s.len() && s[i] == B_QUOTE {
        match str_bytes_x(s, i + 1) {
            Some((content, j)) => match utf8_to_string(content) {
                Some(text) => Some((text, j)),
                None => None,
            },
            None => None,
        }
    } else {
        None
    }
}

/// Digits accumulated onto `acc`, with the overflow guard of the
/// specification.
fn digits_x(s: &Vec<u8>, i: usize, acc: i64) -> (r: Option<(i64, usize)>)
    requires
        i <= s@.len(),
        acc >= 0,
    ensures
        match r {
            Some(p) => spec_digits(s@, i as int, acc as int) == Some((p.0 as int, p.1 as int))
                && i <= p.1 <= s@.len() && p.0 >= 0 && ((i < s@.len() && is_digit(s@[i as int]))
                ==> i < p.1),
            None => spec_digits(s@, i as int, acc as int) is None,
        },
    decreases s@.len() - i,
{
    if i < s.len() && 48 <= s[i] && s[i] <= 57 {
        let d = (s[i] - 48) as i64;
        if acc > (i64::MAX - d) / 10 {
            None
        } else {
            digits_x(s, i + 1, acc * 10 + d)
        }
    } else {
        Some((acc, i))
    }
}

/// An integer number token.
fn number_x(s: &Vec<u8>, i: usize) -> (r: Option<(i64, usize)>)
    requires
        i <= s@.len(),
    ensures
        match r {
            Some(p) => spec_number(s@, i as int) == Some((p.0 as int, p.1 as int)) && i < p.1
                <= s@.len(),
            None => spec_number(s@, i as int) is None,
        },
{
    if i < s.len() && s[i] == B_MINUS {
        if i + 1 < s.len() && 48 <= s[i + 1] && s[i + 1] <= 57 {
            match digits_x(s, i + 1, 0) {
                Some((v, j)) => Some((-v, j)),
                None => None,
            }
        } else {
            None
        }
    } else if i < s.len() && 48 <= s[i] && s[i] <= 57 {
        match digits_x(s, i, 0) {
            Some((v, j)) => {
                proof {
                    assert(spec_digits(s@, i as int, 0) == Some((v as int, j as int)));
                }
                Some((v, j))
            },
            None => None,
        }
    } else {
        None
    }
}

/// A value, mirroring [`spec_value`].
fn value_x(s: &Vec<u8>, i0: usize, fuel: usize) -> (r: Option<(JsonValue, usize)>)
    requires
        i0 <= s@.len(),
    ensures
        match r {
            Some(p) => spec_value(s@, i0 as int, fuel as nat) == Some((p.0@, p.1 as int)) && p.1
                <= s@.len(),
            None => spec_value(s@, i0 as int, fuel as nat) is None,
        },
    decreases fuel,
{
    if fuel == 0 {
        return None;
    }
    let i = ws_x(s, i0);
    if i >= s.len() {
        return None;
    }
    let b = s[i];
    if b == 110 {
        if s.len() - i >= 4 && s[i + 1] == 117 && s[i + 2] == 108 && s[i + 3] == 108 {
            Some((JsonValue::Null, i + 4))
        } else {
            None
        }
    } else if b == 116 {
        if s.len() - i >= 4 && s[i + 1] == 114 && s[i + 2] == 117 && s[i + 3] == 101 {
            Some((JsonValue::Bool(true), i + 4))
        } else {
            None
        }
    } else if b == 102 {
        if s.len() - i >= 5 && s[i + 1] == 97 && s[i + 2] == 108 && s[i + 3] == 115 && s[i + 4]
            == 101 {
            Some((JsonValue::Bool(false), i + 5))
        } else {
            None
        }
    } else if b == B_QUOTE {
        match string_x(s, i) {
            Some((text, j)) => Some((JsonValue::Str(text), j)),
            None => None,
        }
    } else if b == B_MINUS || (48 <= b && b <= 57) {
        match number_x(s, i) {
            Some((v, j)) => Some((JsonValue::Int(v), j)),
            None => None,
        }
    } else if b == B_LBRACKET {
        let j = ws_x(s, i + 1);
        if j < s.len() && s[j] == B_RBRACKET {
            let vs: Vec<JsonValue> = Vec::new();
            proof {
                assert(json_views(vs@) =~= Seq::<JsonV>::empty());
            }
            Some((JsonValue::Arr(vs), j + 1))
        } else {
            match elements_x(s, i + 1, fuel - 1) {
                Some((vs, k)) => Some((JsonValue::Arr(vs), k)),
                None => None,
            }
        }
    } else if b == B_LBRACE {
        let j = ws_x(s, i + 1);
        if j < s.len() && s[j] == B_RBRACE {
            let ms: Vec<(String, JsonValue)> = Vec::new();
            proof {
                assert(json_pair_views(ms@) =~= Seq::<(Seq<char>, JsonV)>::empty());
            }
            Some((JsonValue::Obj(ms), j + 1))
        } else {
            match members_x(s, i + 1, fuel - 1) {
                Some((ms, k)) => Some((JsonValue::Obj(ms), k)),
                None => None,
            }
        }
    } else {
        None
    }
}

/// The elements of a non-empty array, mirroring [`spec_elements`].
fn elements_x(s: &Vec<u8>, i: usize, fuel: usize) -> (r: Option<(Vec<JsonValue>, usize)>)
    requires
        i <= s@.len(),
    ensures
        match r {
            Some(p) => spec_elements(s@, i as int, fuel as nat) == Some(
                (json_views(p.0@), p.1 as int),
            ) && p.1 <= s@.len(),
            None => spec_elements(s@, i as int, fuel as nat) is None,
        },
    decreases fuel,
{
    if fuel == 0 {
        return None;
    }
    match value_x(s, i, fuel - 1) {
        Some((v, j0)) => {
            let j = ws_x(s, j0);
            if j < s.len() && s[j] == B_RBRACKET {
                let mut vs: Vec<JsonValue> = Vec::new();
                let ghost vv = v@;
                vs.push(v);
                proof {
                    assert(json_views(vs@) =~= seq![vv]);
                }
                Some((vs, j + 1))
            } else if j < s.len() && s[j] == B_COMMA {
                match elements_x(s, j + 1, fuel - 1) {
                    Some((mut vs, k)) => {
                        let ghost vs0 = json_views(vs@);
                        let ghost vv = v@;
                        vs.insert(0, v);
                        proof {
                            assert(json_views(vs@) =~= seq![vv] + vs0);
                        }
                        Some((vs, k))
                    },
                    None => None,
                }
            } else {
                None
            }
        },
        None => None,
    }
}

/// The members of a non-empty object, mirroring [`spec_members`].
fn members_x(s: &Vec<u8>, i0: usize, fuel: usize) -> (r: Option<
    (Vec<(String, JsonValue)>, usize),
>)
    requires
        i0 <= s@.len(),
    ensures
        match r {
            Some(p) => spec_members(s@, i0 as int, fuel as nat) == Some(
                (json_pair_views(p.0@), p.1 as int),
            ) && p.1 <= s@.len(),
            None => spec_members(s@, i0 as int, fuel as nat) is None,
        },
    decreases fuel,
{
    if fuel == 0 {
        return None;
    }
    let i = ws_x(s, i0);
    match string_x(s, i) {
        Some((key, j0)) => {
            let j = ws_x(s, j0);
            if j < s.len() && s[j] == B_COLON {
                match value_x(s, j + 1, fuel - 1) {
                    Some((v, m0)) => {
                        let m = ws_x(s, m0);
                        if m < s.len() && s[m] == B_RBRACE {
                            let mut ms: Vec<(String, JsonValue)> = Vec::new();
                            let ghost kv = (key@, v@);
                            ms.push((key, v));
                            proof {
                                assert(json_pair_views(ms@) =~= seq![kv]);
                            }
                            Some((ms, m + 1))
                        } else if m < s.len() && s[m] == B_COMMA {
                            match members_x(s, m + 1, fuel - 1) {
                                Some((mut ms, e)) => {
                                    let ghost ms0 = json_pair_views(ms@);
                                    let ghost kv = (key@, v@);
                                    ms.insert(0, (key, v));
                                    proof {
                                        assert(json_pair_views(ms@) =~= seq![kv] + ms0);
                                    }
                                    Some((ms, e))
                                },
                                None => None,
                            }
                        } else {
                            None
                        }
                    },
                    None => None,
                }
            } else {
                None
            }
        },
        None => None,
    }
}

/// Parse a whole document. The length bound keeps the recursion fuel
/// inside `usize`.
pub fn parse_json(s: &Vec<u8>) -> (r: Option<JsonValue>)
    requires
        s@.len() <= usize::MAX / 4,
    ensures
        match r {
            Some(v) => spec_parse_json(s@) == Some(v@),
            None => spec_parse_json(s@) is None,
        },
{
    let fuel = 2 * s.len() + 4;
    match value_x(s, 0, fuel) {
        Some((v, j)) => {
            let e = ws_x(s, j);
            if e == s.len() {
                Some(v)
            } else {
                None
            }
        },
        None => None,
    }
}

/// The index of the first member named `key`, if any.
pub fn obj_index(members: &Vec<(String, JsonValue)>, key: &String) -> (r: Option<usize>)
    ensures
        match r {
            Some(i) => i < members@.len() && members@[i as int].0@ == key@ && spec_lookup(
                json_pair_views(members@),
                key@,
            ) == Some(json_view(members@[i as int].1)),
            None => spec_lookup(json_pair_views(members@), key@) is None,
        },
{
    let n = members.len();
    let mut k: usize = 0;
    proof {
        assert(json_pair_views(members@).skip(0) =~= json_pair_views(members@));
    }
    while k < n
        invariant
            n == members@.len(),
            k <= n,
            spec_lookup(json_pair_views(members@), key@) == spec_lookup(
                json_pair_views(members@).skip(k as int),
                key@,
            ),
        decreases n - k,
    {
        proof {
            assert(json_pair_views(members@).skip(k as int)[0] == (
                members@[k as int].0@,
                json_view(members@[k as int].1),
            ));
        }
        if members[k].0 == *key {
            return Some(k);
        }
        proof {
            assert(json_pair_views(members@).skip(k as int).drop_first() =~= json_pair_views(
                members@,
            ).skip(k as int + 1));
        }
        k = k + 1;
    }
    None
}

/// The value of the first member named `key`, if any.
pub fn obj_get<'a>(members: &'a Vec<(String, JsonValue)>, key: &String) -> (r: Option<
    &'a JsonValue,
>)
    ensures
        match r {
            Some(v) => spec_lookup(json_pair_views(members@), key@) == Some(v@),
            None => spec_lookup(json_pair_views(members@), key@) is None,
        },
{
    let n = members.len();
    let mut k: usize = 0;
    proof {
        assert(json_pair_views(members@).skip(0) =~= json_pair_views(members@));
    }
    while k < n
        invariant
            n == members@.len(),
            k <= n,
            spec_lookup(json_pair_views(members@), key@) == spec_lookup(
                json_pair_views(members@).skip(k as int),
                key@,
            ),
        decreases n - k,
    {
        proof {
            assert(json_pair_views(members@).skip(k as int)[0] == (
                members@[k as int].0@,
                json_view(members@[k as int].1),
            ));
        }
        if members[k].0 == *key {
            return Some(&members[k].1);
        }
        proof {
            assert(json_pair_views(members@).skip(k as int).drop_first() =~= json_pair_views(
                members@,
            ).skip(k as int + 1));
        }
        k = k + 1;
    }
    None
}

} // verus!
