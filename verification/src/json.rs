//! The material description document format.
//!
//! A description is a JSON document: objects, arrays, strings, numbers,
//! booleans and null, with the usual whitespace.  Escape sequences are not
//! part of the format: a string runs from its opening quote to the next
//! quote and may hold any characters but quotes, backslashes and controls.
//! Numbers are recognized and discarded — no field of the description is
//! numeric.
//!
//! `spec_parse_document` defines the format; the executable parser returns
//! exactly what it says, never panics, and reports malformed input instead
//! of failing.

use vstd::prelude::*;
use vstd::string::StrSliceExecFns;

verus! {

/// A parsed document at the specification level.
pub enum SpecJson {
    Null,
    Bool(bool),
    Num,
    Str(Seq<char>),
    Arr(Seq<SpecJson>),
    Obj(Seq<(Seq<char>, SpecJson)>),
}

/// A parsed document: strings own their characters, objects keep their
/// members in document order.
pub enum JsonValue {
    Null,
    Bool(bool),
    Num,
    Str(String),
    Arr(Vec<JsonValue>),
    Obj(Vec<(String, JsonValue)>),
}

/// What a parsed value says.
pub open spec fn json_view(v: JsonValue) -> SpecJson
    decreases v,
{
    match v {
        JsonValue::Null => SpecJson::Null,
        JsonValue::Bool(b) => SpecJson::Bool(b),
        JsonValue::Num => SpecJson::Num,
        JsonValue::Str(s) => SpecJson::Str(s@),
        JsonValue::Arr(items) => SpecJson::Arr(
            Seq::new(
                items@.len(),
                |i: int|
                    if 0 <= i < items@.len() {
                        json_view(items@[i])
                    } else {
                        SpecJson::Null
                    },
            ),
        ),
        JsonValue::Obj(members) => SpecJson::Obj(
            Seq::new(
                members@.len(),
                |i: int|
                    if 0 <= i < members@.len() {
                        (members@[i].0@, json_view(members@[i].1))
                    } else {
                        (Seq::<char>::empty(), SpecJson::Null)
                    },
            ),
        ),
    }
}

/// The views of a sequence of parsed values.
pub open spec fn json_views(vs: Seq<JsonValue>) -> Seq<SpecJson> {
    Seq::new(vs.len(), |i: int| json_view(vs[i]))
}

/// The views of a sequence of parsed members.
pub open spec fn json_member_views(ms: Seq<(String, JsonValue)>) -> Seq<(Seq<char>, SpecJson)> {
    Seq::new(ms.len(), |i: int| (ms[i].0@, json_view(ms[i].1)))
}

/// Document whitespace.
pub open spec fn is_ws(c: char) -> bool {
    c == ' ' || c == '\n' || c == '\t' || c == '\r'
}

/// A character that may continue a number token.
pub open spec fn is_num_char(c: char) -> bool {
    ('0' <= c && c <= '9') || c == '-' || c == '+' || c == '.' || c == 'e' || c == 'E'
}

/// A character that may start a number token.
pub open spec fn is_num_start(c: char) -> bool {
    ('0' <= c && c <= '9') || c == '-'
}

/// A character a string may hold: anything but the quote, the backslash
/// and controls.
pub open spec fn is_string_char(c: char) -> bool {
    c != '"' && c != '\\' && (c as u32) >= 32
}

/// The first index at or after `i` holding something besides whitespace.
pub open spec fn spec_skip_ws(s: Seq<char>, i: int) -> int
    decreases s.len() - i,
{
    if 0 <= i < s.len() && is_ws(s[i]) {
        spec_skip_ws(s, i + 1)
    } else {
        i
    }
}

/// The index of the quote closing a string whose content starts at `i`,
/// or -1 where none closes it before a character outside the format.
pub open spec fn spec_string_end(s: Seq<char>, i: int) -> int
    decreases s.len() - i,
{
    if i < 0 || i >= s.len() {
        -1
    } else if s[i] == '"' {
        i
    } else if !is_string_char(s[i]) {
        -1
    } else {
        spec_string_end(s, i + 1)
    }
}

/// The first index at or after `i` past the number token's characters.
pub open spec fn spec_num_end(s: Seq<char>, i: int) -> int
    decreases s.len() - i,
{
    if 0 <= i < s.len() && is_num_char(s[i]) {
        spec_num_end(s, i + 1)
    } else {
        i
    }
}

/// Recognize the keyword `word` at `i`.
pub open spec fn spec_parse_literal(
    s: Seq<char>,
    i: int,
    word: Seq<char>,
    v: SpecJson,
) -> Option<(SpecJson, int)> {
    if 0 <= i && i + word.len() <= s.len() && s.subrange(i, i + word.len() as int) == word {
        Some((v, i + word.len() as int))
    } else {
        None
    }
}

/// Parse the string starting with the quote at `i`.
pub open spec fn spec_parse_string(s: Seq<char>, i: int) -> Option<(Seq<char>, int)> {
    if 0 <= i < s.len() && s[i] == '"' {
        let e = spec_string_end(s, i + 1);
        if e >= 0 {
            Some((s.subrange(i + 1, e), e + 1))
        } else {
            None
        }
    } else {
        None
    }
}

/// Parse the number token starting at `i`.
pub open spec fn spec_parse_number(s: Seq<char>, i: int) -> Option<(SpecJson, int)> {
    if 0 <= i < s.len() && is_num_start(s[i]) {
        Some((SpecJson::Num, spec_num_end(s, i)))
    } else {
        None
    }
}

/// Parse the value starting at `i` (no leading whitespace), returning it
/// with the index just past it.
pub open spec fn spec_parse_value(s: Seq<char>, i: int) -> Option<(SpecJson, int)>
    decreases s.len() - i, 0int,
{
    if i < 0 || i >= s.len() {
        None
    } else if s[i] == 'n' {
        spec_parse_literal(s, i, "null"@, SpecJson::Null)
    } else if s[i] == 't' {
        spec_parse_literal(s, i, "true"@, SpecJson::Bool(true))
    } else if s[i] == 'f' {
        spec_parse_literal(s, i, "false"@, SpecJson::Bool(false))
    } else if s[i] == '"' {
        match spec_parse_string(s, i) {
            Some((content, j)) => Some((SpecJson::Str(content), j)),
            None => None,
        }
    } else if s[i] == '[' {
        let j = spec_skip_ws(s, i + 1);
        if !(i + 1 <= j <= s.len()) {
            None
        } else if j < s.len() && s[j] == ']' {
            Some((SpecJson::Arr(Seq::empty()), j + 1))
        } else {
            match spec_parse_elements(s, j) {
                Some((items, k)) => Some((SpecJson::Arr(items), k)),
                None => None,
            }
        }
    } else if s[i] == '{' {
        let j = spec_skip_ws(s, i + 1);
        if !(i + 1 <= j <= s.len()) {
            None
        } else if j < s.len() && s[j] == '}' {
            Some((SpecJson::Obj(Seq::empty()), j + 1))
        } else {
            match spec_parse_members(s, j) {
                Some((members, k)) => Some((SpecJson::Obj(members), k)),
                None => None,
            }
        }
    } else if is_num_start(s[i]) {
        spec_parse_number(s, i)
    } else {
        None
    }
}

/// Parse the non-empty element list of an array, the first element
/// starting at `i`, through the closing bracket.
pub open spec fn spec_parse_elements(s: Seq<char>, i: int) -> Option<(Seq<SpecJson>, int)>
    decreases s.len() - i, 1int,
{
    if i < 0 {
        None
    } else {
        match spec_parse_value(s, i) {
            Some((v, j)) => {
                if !(i < j <= s.len()) {
                    None
                } else {
                    let k = spec_skip_ws(s, j);
                    if !(j <= k <= s.len()) {
                        None
                    } else if k < s.len() && s[k] == ',' {
                        let m = spec_skip_ws(s, k + 1);
                        if !(k + 1 <= m <= s.len()) {
                            None
                        } else {
                            match spec_parse_elements(s, m) {
                                Some((rest, e)) => Some((seq![v] + rest, e)),
                                None => None,
                            }
                        }
                    } else if k < s.len() && s[k] == ']' {
                        Some((seq![v], k + 1))
                    } else {
                        None
                    }
                }
            },
            None => None,
        }
    }
}

/// Parse the non-empty member list of an object, the first key's quote at
/// `i`, through the closing brace.
pub open spec fn spec_parse_members(
    s: Seq<char>,
    i: int,
) -> Option<(Seq<(Seq<char>, SpecJson)>, int)>
    decreases s.len() - i, 1int,
{
    match spec_parse_string(s, i) {
        Some((key, j)) => {
            if !(i < j <= s.len()) {
                None
            } else {
                let k = spec_skip_ws(s, j);
                if !(j <= k <= s.len() && k < s.len() && s[k] == ':') {
                    None
                } else {
                    let m = spec_skip_ws(s, k + 1);
                    if !(k + 1 <= m <= s.len()) {
                        None
                    } else {
                        match spec_parse_value(s, m) {
                            Some((v, p)) => {
                                if !(m < p <= s.len()) {
                                    None
                                } else {
                                    let q = spec_skip_ws(s, p);
                                    if !(p <= q <= s.len()) {
                                        None
                                    } else if q < s.len() && s[q] == ',' {
                                        let r = spec_skip_ws(s, q + 1);
                                        if !(q + 1 <= r <= s.len()) {
                                            None
                                        } else {
                                            match spec_parse_members(s, r) {
                                                Some((rest, e)) => Some((
                                                    seq![(key, v)] + rest,
                                                    e,
                                                )),
                                                None => None,
                                            }
                                        }
                                    } else if q < s.len() && s[q] == '}' {
                                        Some((seq![(key, v)], q + 1))
                                    } else {
                                        None
                                    }
                                }
                            },
                            None => None,
                        }
                    }
                }
            }
        },
        None => None,
    }
}

/// The document: one value surrounded by whitespace, covering the input
/// exactly.
pub open spec fn spec_parse_document(s: Seq<char>) -> Option<SpecJson> {
    let i = spec_skip_ws(s, 0);
    if !(0 <= i <= s.len()) {
        None
    } else {
        match spec_parse_value(s, i) {
            Some((v, j)) => {
                if !(i < j <= s.len()) {
                    None
                } else if spec_skip_ws(s, j) == s.len() {
                    Some(v)
                } else {
                    None
                }
            },
            None => None,
        }
    }
}

/// Whitespace test, executable.
fn ws_char(c: char) -> (b: bool)
    ensures
        b == is_ws(c),
{
    c == ' ' || c == '\n' || c == '\t' || c == '\r'
}

/// Number-continuation test, executable.
fn num_char(c: char) -> (b: bool)
    ensures
        b == is_num_char(c),
{
    ('0' <= c && c <= '9') || c == '-' || c == '+' || c == '.' || c == 'e' || c == 'E'
}

/// Number-start test, executable.
fn num_start_char(c: char) -> (b: bool)
    ensures
        b == is_num_start(c),
{
    ('0' <= c && c <= '9') || c == '-'
}

/// String-content test, executable.
fn string_char(c: char) -> (b: bool)
    ensures
        b == is_string_char(c),
{
    c != '"' && c != '\\' && (c as u32) >= 32
}

/// Skip whitespace from `i` on.
fn skip_ws(s: &str, i: usize) -> (r: usize)
    requires
        i <= s@.len(),
    ensures
        r == spec_skip_ws(s@, i as int),
        i <= r <= s@.len(),
{
    let n = s.unicode_len();
    let mut j = i;
    while j < n && ws_char(s.get_char(j))
        invariant
            i <= j <= n,
            n == s@.len(),
            spec_skip_ws(s@, i as int) == spec_skip_ws(s@, j as int),
        decreases n - j,
    {
        j = j + 1;
    }
    j
}

/// Recognize `word` at `i`; `Some` carries the index just past it.
fn expect_word(s: &str, i: usize, word: &str) -> (r: Option<usize>)
    requires
        i <= s@.len(),
        word@.len() >= 1,
    ensures
        match r {
            Some(j) => {
                &&& j == i + word@.len()
                &&& i < j <= s@.len()
                &&& s@.subrange(i as int, j as int) == word@
            },
            None => !(i + word@.len() <= s@.len() && s@.subrange(
                i as int,
                i + word@.len() as int,
            ) == word@),
        },
{
    let n = s.unicode_len();
    let wn = word.unicode_len();
    if wn > n - i {
        proof {
            assert(i + word@.len() > s@.len());
        }
        return None;
    }
    let mut k: usize = 0;
    while k < wn
        invariant
            k <= wn,
            wn == word@.len(),
            n == s@.len(),
            i + wn <= n,
            forall|m: int| 0 <= m < k ==> s@[i + m] == word@[m],
        decreases wn - k,
    {
        if s.get_char(i + k) != word.get_char(k) {
            proof {
                let sub = s@.subrange(i as int, i + word@.len() as int);
                assert(sub[k as int] == s@[i + k]);
                assert(sub != word@);
            }
            return None;
        }
        k = k + 1;
    }
    proof {
        assert(s@.subrange(i as int, i + word@.len() as int) =~= word@);
    }
    Some(i + wn)
}

/// Parse the string whose opening quote is at `i`.
fn parse_string_at(s: &str, i: usize) -> (r: Option<(String, usize)>)
    requires
        i < s@.len(),
        s@[i as int] == '"',
    ensures
        match r {
            Some((content, j)) => {
                &&& spec_parse_string(s@, i as int) == Some((content@, j as int))
                &&& i < j <= s@.len()
            },
            None => spec_parse_string(s@, i as int) is None,
        },
{
    let n = s.unicode_len();
    let mut e = i + 1;
    while e < n && string_char(s.get_char(e))
        invariant
            i + 1 <= e <= n,
            n == s@.len(),
            spec_string_end(s@, i + 1 as int) == spec_string_end(s@, e as int),
        decreases n - e,
    {
        e = e + 1;
    }
    if e < n && s.get_char(e) == '"' {
        proof {
            assert(spec_string_end(s@, e as int) == e);
        }
        let content = s.substring_char(i + 1, e).to_owned();
        Some((content, e + 1))
    } else {
        proof {
            assert(spec_string_end(s@, e as int) == -1);
        }
        None
    }
}

/// Find the end of the number token starting at `i`.
fn parse_number_at(s: &str, i: usize) -> (r: usize)
    requires
        i < s@.len(),
        is_num_start(s@[i as int]),
    ensures
        r == spec_num_end(s@, i as int),
        i < r <= s@.len(),
{
    let n = s.unicode_len();
    let mut e = i;
    while e < n && num_char(s.get_char(e))
        invariant
            i <= e <= n,
            n == s@.len(),
            spec_num_end(s@, i as int) == spec_num_end(s@, e as int),
        decreases n - e,
    {
        e = e + 1;
    }
    proof {
        assert(spec_num_end(s@, e as int) == e);
        if e == i {
            assert(is_num_char(s@[i as int]));
            assert(spec_num_end(s@, i as int) == spec_num_end(s@, i + 1 as int));
        }
    }
    e
}

/// Parse the value starting at `i`; no leading whitespace.
fn parse_value_at(s: &str, i: usize) -> (r: Option<(JsonValue, usize)>)
    requires
        i <= s@.len(),
    ensures
        match r {
            Some((v, j)) => {
                &&& spec_parse_value(s@, i as int) == Some((json_view(v), j as int))
                &&& i < j <= s@.len()
            },
            None => spec_parse_value(s@, i as int) is None,
        },
    decreases s@.len() - i, 0int,
{
    let n = s.unicode_len();
    if i >= n {
        return None;
    }
    let c = s.get_char(i);
    if c == 'n' {
        proof {
            reveal_strlit("null");
        }
        match expect_word(s, i, "null") {
            Some(j) => Some((JsonValue::Null, j)),
            None => None,
        }
    } else if c == 't' {
        proof {
            reveal_strlit("true");
        }
        match expect_word(s, i, "true") {
            Some(j) => Some((JsonValue::Bool(true), j)),
            None => None,
        }
    } else if c == 'f' {
        proof {
            reveal_strlit("false");
        }
        match expect_word(s, i, "false") {
            Some(j) => Some((JsonValue::Bool(false), j)),
            None => None,
        }
    } else if c == '"' {
        match parse_string_at(s, i) {
            Some((content, j)) => Some((JsonValue::Str(content), j)),
            None => None,
        }
    } else if c == '[' {
        let j = skip_ws(s, i + 1);
        if j < n && s.get_char(j) == ']' {
            let items: Vec<JsonValue> = Vec::new();
            proof {
                lemma_arr_view(&items);
                assert(json_views(items@) =~= Seq::<SpecJson>::empty());
            }
            Some((JsonValue::Arr(items), j + 1))
        } else {
            match parse_elements_at(s, j) {
                Some((items, k)) => {
                    proof {
                        lemma_arr_view(&items);
                    }
                    Some((JsonValue::Arr(items), k))
                },
                None => None,
            }
        }
    } else if c == '{' {
        let j = skip_ws(s, i + 1);
        if j < n && s.get_char(j) == '}' {
            let members: Vec<(String, JsonValue)> = Vec::new();
            proof {
                lemma_obj_view(&members);
                assert(json_member_views(members@) =~= Seq::<(Seq<char>, SpecJson)>::empty());
            }
            Some((JsonValue::Obj(members), j + 1))
        } else {
            match parse_members_at(s, j) {
                Some((members, k)) => {
                    proof {
                        lemma_obj_view(&members);
                    }
                    Some((JsonValue::Obj(members), k))
                },
                None => None,
            }
        }
    } else if num_start_char(c) {
        let e = parse_number_at(s, i);
        Some((JsonValue::Num, e))
    } else {
        None
    }
}

/// An array value says exactly the views of its items.
proof fn lemma_arr_view(items: &Vec<JsonValue>)
    ensures
        json_view(JsonValue::Arr(*items)) == SpecJson::Arr(json_views(items@)),
{
    let inner = json_view(JsonValue::Arr(*items))->Arr_0;
    assert(inner =~= json_views(items@));
}

/// An object value says exactly the views of its members.
proof fn lemma_obj_view(members: &Vec<(String, JsonValue)>)
    ensures
        json_view(JsonValue::Obj(*members)) == SpecJson::Obj(json_member_views(members@)),
{
    let inner = json_view(JsonValue::Obj(*members))->Obj_0;
    assert(inner =~= json_member_views(members@));
}

/// Parse an array's non-empty element list, the first element at `i`.
fn parse_elements_at(s: &str, i: usize) -> (r: Option<(Vec<JsonValue>, usize)>)
    requires
        i <= s@.len(),
    ensures
        match r {
            Some((items, k)) => {
                &&& spec_parse_elements(s@, i as int) == Some((json_views(items@), k as int))
                &&& i < k <= s@.len()
            },
            None => spec_parse_elements(s@, i as int) is None,
        },
    decreases s@.len() - i, 1int,
{
    let n = s.unicode_len();
    match parse_value_at(s, i) {
        Some((v, j)) => {
            let k = skip_ws(s, j);
            if k < n && s.get_char(k) == ',' {
                let m = skip_ws(s, k + 1);
                match parse_elements_at(s, m) {
                    Some((rest, e)) => {
                        let mut items: Vec<JsonValue> = Vec::new();
                        let ghost rest_snapshot = rest@;
                        items.push(v);
                        let mut rest = rest;
                        items.append(&mut rest);
                        proof {
                            assert(items@ == seq![v] + rest_snapshot);
                            assert(json_views(items@) =~= seq![json_view(v)] + json_views(
                                rest_snapshot,
                            ));
                        }
                        Some((items, e))
                    },
                    None => None,
                }
            } else if k < n && s.get_char(k) == ']' {
                let mut items: Vec<JsonValue> = Vec::new();
                items.push(v);
                proof {
                    assert(json_views(items@) =~= seq![json_view(v)]);
                }
                Some((items, k + 1))
            } else {
                None
            }
        },
        None => None,
    }
}

/// Parse an object's non-empty member list, the first key's quote at `i`.
fn parse_members_at(s: &str, i: usize) -> (r: Option<(Vec<(String, JsonValue)>, usize)>)
    requires
        i <= s@.len(),
    ensures
        match r {
            Some((members, k)) => {
                &&& spec_parse_members(s@, i as int) == Some((
                    json_member_views(members@),
                    k as int,
                ))
                &&& i < k <= s@.len()
            },
            None => spec_parse_members(s@, i as int) is None,
        },
    decreases s@.len() - i, 1int,
{
    let n = s.unicode_len();
    if i >= n {
        return None;
    }
    if s.get_char(i) != '"' {
        return None;
    }
    match parse_string_at(s, i) {
        Some((key, j)) => {
            let k = skip_ws(s, j);
            if !(k < n && s.get_char(k) == ':') {
                return None;
            }
            let m = skip_ws(s, k + 1);
            match parse_value_at(s, m) {
                Some((v, p)) => {
                    let q = skip_ws(s, p);
                    if q < n && s.get_char(q) == ',' {
                        let r0 = skip_ws(s, q + 1);
                        match parse_members_at(s, r0) {
                            Some((rest, e)) => {
                                let mut members: Vec<(String, JsonValue)> = Vec::new();
                                let ghost rest_snapshot = rest@;
                                let ghost key_view = key@;
                                let ghost v_view = json_view(v);
                                members.push((key, v));
                                let mut rest = rest;
                                members.append(&mut rest);
                                proof {
                                    assert(json_member_views(members@) =~= seq![
                                        (key_view, v_view),
                                    ] + json_member_views(rest_snapshot));
                                }
                                Some((members, e))
                            },
                            None => None,
                        }
                    } else if q < n && s.get_char(q) == '}' {
                        let mut members: Vec<(String, JsonValue)> = Vec::new();
                        let ghost key_view = key@;
                        let ghost v_view = json_view(v);
                        members.push((key, v));
                        proof {
                            assert(json_member_views(members@) =~= seq![(key_view, v_view)]);
                        }
                        Some((members, q + 1))
                    } else {
                        None
                    }
                },
                None => None,
            }
        },
        None => None,
    }
}

/// Parse a whole document.  `Some` exactly on the documents of the format,
/// carrying the value the format gives them.
pub fn parse_json(s: &str) -> (r: Option<JsonValue>)
    ensures
        match r {
            Some(v) => spec_parse_document(s@) == Some(json_view(v)),
            None => spec_parse_document(s@) is None,
        },
{
    let i = skip_ws(s, 0);
    match parse_value_at(s, i) {
        Some((v, j)) => {
            let k = skip_ws(s, j);
            let n = s.unicode_len();
            if k == n {
                Some(v)
            } else {
                None
            }
        },
        None => None,
    }
}

impl JsonValue {
    /// The owned characters of a string value; `None` exactly on the
    /// other kinds.
    pub fn as_str(&self) -> (r: Option<&String>)
        ensures
            match r {
                Some(content) => json_view(*self) == SpecJson::Str(content@),
                None => !(json_view(*self) is Str),
            },
    {
        match self {
            JsonValue::Str(content) => Some(content),
            JsonValue::Null => None,
            JsonValue::Bool(_) => None,
            JsonValue::Num => None,
            JsonValue::Arr(_) => None,
            JsonValue::Obj(_) => None,
        }
    }

    /// The items of an array value; `None` exactly on the other kinds.
    pub fn as_array(&self) -> (r: Option<&Vec<JsonValue>>)
        ensures
            match r {
                Some(items) => json_view(*self) == SpecJson::Arr(json_views(items@)),
                None => !(json_view(*self) is Arr),
            },
    {
        match self {
            JsonValue::Arr(items) => {
                proof {
                    lemma_arr_view(items);
                }
                Some(items)
            },
            JsonValue::Null => None,
            JsonValue::Bool(_) => None,
            JsonValue::Num => None,
            JsonValue::Str(_) => None,
            JsonValue::Obj(_) => None,
        }
    }

    /// The members of an object value; `None` exactly on the other kinds.
    pub fn as_object(&self) -> (r: Option<&Vec<(String, JsonValue)>>)
        ensures
            match r {
                Some(members) => json_view(*self) == SpecJson::Obj(json_member_views(members@)),
                None => !(json_view(*self) is Obj),
            },
    {
        match self {
            JsonValue::Obj(members) => {
                proof {
                    lemma_obj_view(members);
                }
                Some(members)
            },
            JsonValue::Null => None,
            JsonValue::Bool(_) => None,
            JsonValue::Num => None,
            JsonValue::Str(_) => None,
            JsonValue::Arr(_) => None,
        }
    }
}

/// The value of the first member carrying `key`, in document order.
pub open spec fn spec_obj_lookup(
    members: Seq<(Seq<char>, SpecJson)>,
    key: Seq<char>,
) -> Option<SpecJson>
    decreases members.len(),
{
    if members.len() == 0 {
        None
    } else if members[0].0 == key {
        Some(members[0].1)
    } else {
        spec_obj_lookup(members.drop_first(), key)
    }
}

/// Look `key` up among `members`, first match in document order.
pub fn obj_lookup<'a>(members: &'a Vec<(String, JsonValue)>, key: &str) -> (r: Option<
    &'a JsonValue,
>)
    ensures
        match r {
            Some(v) => spec_obj_lookup(json_member_views(members@), key@) == Some(json_view(*v)),
            None => spec_obj_lookup(json_member_views(members@), key@) is None,
        },
{
    let owned = key.to_owned();
    let n = members.len();
    let mut i: usize = 0;
    proof {
        assert(json_member_views(members@).skip(0) =~= json_member_views(members@));
    }
    while i < n
        invariant
            i <= n,
            n == members@.len(),
            owned@ == key@,
            spec_obj_lookup(json_member_views(members@), key@) == spec_obj_lookup(
                json_member_views(members@).skip(i as int),
                key@,
            ),
        decreases n - i,
    {
        proof {
            let views = json_member_views(members@);
            assert(views.skip(i as int)[0] == views[i as int]);
            assert(views.skip(i as int).drop_first() =~= views.skip(i + 1 as int));
        }
        if members[i].0 == owned {
            return Some(&members[i].1);
        }
        i = i + 1;
    }
    proof {
        assert(json_member_views(members@).skip(n as int) =~= Seq::<(
            Seq<char>,
            SpecJson,
        )>::empty());
    }
    None
}

} // verus!
