//! A JSON-like structured value tree: the generic shape that inbound payloads
//! arrive in and that sparse request encoding produces, together with its
//! canonical JSON text rendering.

use vstd::prelude::*;

verus! {

broadcast use vstd::seq::group_seq_axioms, vstd::std_specs::vec::group_vec_axioms;

/// Mathematical model of a structured value. Signed and unsigned integers
/// collapse into one unbounded integer, and strings into character sequences.
pub enum Json {
    Null,
    Bool(bool),
    Int(int),
    Str(Seq<char>),
    Arr(Seq<Json>),
    Obj(Seq<(Seq<char>, Json)>),
}

/// A structured value as a payload carries it. Object members keep the order
/// in which they were added, so rendering is deterministic.
pub enum Value {
    Null,
    Bool(bool),
    Int(i64),
    UInt(u64),
    Str(String),
    Arr(Vec<Value>),
    Obj(Vec<(String, Value)>),
}

pub open spec fn value_model(v: Value) -> Json
    decreases v,
{
    match v {
        Value::Null => Json::Null,
        Value::Bool(b) => Json::Bool(b),
        Value::Int(i) => Json::Int(i as int),
        Value::UInt(u) => Json::Int(u as int),
        Value::Str(s) => Json::Str(s@),
        Value::Arr(a) => Json::Arr(elem_models(a@)),
        Value::Obj(entries) => Json::Obj(entry_models(entries@)),
    }
}

pub open spec fn elem_models(s: Seq<Value>) -> Seq<Json>
    decreases s,
{
    // the range guard only serves the termination check
    Seq::new(s.len(), |i: int| if 0 <= i < s.len() { value_model(s[i]) } else { Json::Null })
}

pub open spec fn entry_models(s: Seq<(String, Value)>) -> Seq<(Seq<char>, Json)>
    decreases s,
{
    // the range guard only serves the termination check
    Seq::new(
        s.len(),
        |i: int|
            if 0 <= i < s.len() {
                (s[i].0@, value_model(s[i].1))
            } else {
                (Seq::<char>::empty(), Json::Null)
            },
    )
}

impl View for Value {
    type V = Json;

    open spec fn view(&self) -> Json {
        value_model(*self)
    }
}

pub open spec fn dec_digit(d: nat) -> char {
    if d == 0 {
        '0'
    } else if d == 1 {
        '1'
    } else if d == 2 {
        '2'
    } else if d == 3 {
        '3'
    } else if d == 4 {
        '4'
    } else if d == 5 {
        '5'
    } else if d == 6 {
        '6'
    } else if d == 7 {
        '7'
    } else if d == 8 {
        '8'
    } else {
        '9'
    }
}

pub open spec fn hex_digit(d: nat) -> char {
    if d < 10 {
        dec_digit(d)
    } else if d == 10 {
        'a'
    } else if d == 11 {
        'b'
    } else if d == 12 {
        'c'
    } else if d == 13 {
        'd'
    } else if d == 14 {
        'e'
    } else {
        'f'
    }
}

/// Decimal rendering of a non-negative integer, most significant digit first.
pub open spec fn dec_text(n: nat) -> Seq<char>
    decreases n,
{
    if n < 10 {
        seq![dec_digit(n)]
    } else {
        dec_text(n / 10).push(dec_digit(n % 10))
    }
}

pub open spec fn int_text(i: int) -> Seq<char> {
    if i < 0 {
        seq!['-'] + dec_text((-i) as nat)
    } else {
        dec_text(i as nat)
    }
}

/// JSON escaping of one character inside a string literal.
pub open spec fn escaped_char(c: char) -> Seq<char> {
    if c == '"' {
        seq!['\\', '"']
    } else if c == '\\' {
        seq!['\\', '\\']
    } else if c == '\u{8}' {
        seq!['\\', 'b']
    } else if c == '\u{c}' {
        seq!['\\', 'f']
    } else if c == '\n' {
        seq!['\\', 'n']
    } else if c == '\r' {
        seq!['\\', 'r']
    } else if c == '\t' {
        seq!['\\', 't']
    } else if (c as u32) < 0x20 {
        seq!['\\', 'u', '0', '0', hex_digit((c as u32 / 16) as nat), hex_digit((c as u32 % 16) as nat)]
    } else {
        seq![c]
    }
}

pub open spec fn escaped_text(s: Seq<char>) -> Seq<char>
    decreases s.len(),
{
    if s.len() == 0 {
        Seq::empty()
    } else {
        escaped_char(s[0]) + escaped_text(s.drop_first())
    }
}

/// A JSON string literal: the escaped characters between double quotes.
pub open spec fn quoted(s: Seq<char>) -> Seq<char> {
    seq!['"'] + escaped_text(s) + seq!['"']
}

/// The given pieces joined with a comma between neighbours.
pub open spec fn comma_join(parts: Seq<Seq<char>>) -> Seq<char>
    decreases parts.len(),
{
    if parts.len() == 0 {
        Seq::empty()
    } else if parts.len() == 1 {
        parts[0]
    } else {
        parts[0] + seq![','] + comma_join(parts.drop_first())
    }
}

/// Canonical JSON text of a value: no whitespace, object members in the
/// order the value holds them.
pub open spec fn json_text(j: Json) -> Seq<char>
    decreases j,
{
    match j {
        Json::Null => "null"@,
        Json::Bool(b) => if b {
            "true"@
        } else {
            "false"@
        },
        Json::Int(i) => int_text(i),
        Json::Str(s) => quoted(s),
        Json::Arr(items) => seq!['['] + comma_join(item_texts(items)) + seq![']'],
        Json::Obj(entries) => seq!['{'] + comma_join(entry_texts(entries)) + seq!['}'],
    }
}

pub open spec fn item_texts(items: Seq<Json>) -> Seq<Seq<char>>
    decreases items,
{
    // the range guard only serves the termination check
    Seq::new(
        items.len(),
        |i: int| if 0 <= i < items.len() { json_text(items[i]) } else { Seq::<char>::empty() },
    )
}

pub open spec fn entry_texts(entries: Seq<(Seq<char>, Json)>) -> Seq<Seq<char>>
    decreases entries,
{
    // the range guard only serves the termination check
    Seq::new(
        entries.len(),
        |i: int|
            if 0 <= i < entries.len() {
                quoted(entries[i].0) + seq![':'] + json_text(entries[i].1)
            } else {
                Seq::<char>::empty()
            },
    )
}

/// The value of the first member with the given key, if any.
pub open spec fn entry_lookup(entries: Seq<(Seq<char>, Json)>, key: Seq<char>) -> Option<Json>
    decreases entries.len(),
{
    if entries.len() == 0 {
        None
    } else if entries[0].0 == key {
        Some(entries[0].1)
    } else {
        entry_lookup(entries.drop_first(), key)
    }
}

/// Relies on std's `PartialEq` for `str`: two slices are equal exactly when
/// their character sequences are.
#[verifier::external_body]
pub(crate) fn str_eq(a: &str, b: &str) -> (r: bool)
    ensures
        r == (a@ == b@),
{
    a == b
}

impl Value {
    /// The value of this object's first member with the given key; `None` on
    /// a non-object or a missing key.
    #[verifier::loop_isolation(false)]
    pub fn get<'a>(&'a self, key: &str) -> (r: Option<&'a Value>)
        ensures
            (match self@ {
                Json::Obj(entries) => (match entry_lookup(entries, key@) {
                    Some(j) => r matches Some(w) && w@ == j,
                    None => r is None,
                }),
                _ => r is None,
            }),
    {
        match self {
            Value::Obj(entries) => {
                let ghost model = entry_models(entries@);
                proof {
                    assert(model.skip(0) =~= model);
                }
                let n = entries.len();
                let mut i: usize = 0;
                while i < n
                    invariant
                        0 <= i <= n,
                        entry_lookup(model, key@) == entry_lookup(model.skip(i as int), key@),
                    decreases n - i,
                {
                    if str_eq(entries[i].0.as_str(), key) {
                        return Some(&entries[i].1);
                    }
                    proof {
                        assert(model.skip(i as int).drop_first() =~= model.skip(i as int + 1));
                    }
                    i = i + 1;
                }
                proof {
                    assert(model.skip(n as int) =~= Seq::<(Seq<char>, Json)>::empty());
                }
                None
            },
            _ => None,
        }
    }
}

/// Relies on std's `String::push`: appends exactly the one character.
#[verifier::external_body]
fn push_char(out: &mut String, c: char)
    ensures
        final(out)@ == old(out)@.push(c),
{
    out.push(c);
}

fn dec_digit_char(d: u64) -> (c: char)
    requires
        d < 10,
    ensures
        c == dec_digit(d as nat),
{
    if d == 0 {
        '0'
    } else if d == 1 {
        '1'
    } else if d == 2 {
        '2'
    } else if d == 3 {
        '3'
    } else if d == 4 {
        '4'
    } else if d == 5 {
        '5'
    } else if d == 6 {
        '6'
    } else if d == 7 {
        '7'
    } else if d == 8 {
        '8'
    } else {
        '9'
    }
}

fn hex_digit_char(d: u32) -> (c: char)
    requires
        d < 16,
    ensures
        c == hex_digit(d as nat),
{
    if d < 10 {
        dec_digit_char(d as u64)
    } else if d == 10 {
        'a'
    } else if d == 11 {
        'b'
    } else if d == 12 {
        'c'
    } else if d == 13 {
        'd'
    } else if d == 14 {
        'e'
    } else {
        'f'
    }
}

fn write_u64(n: u64, out: &mut String)
    ensures
        final(out)@ == old(out)@ + dec_text(n as nat),
    decreases n,
{
    if n < 10 {
        push_char(out, dec_digit_char(n));
        assert(final(out)@ =~= old(out)@ + dec_text(n as nat));
    } else {
        write_u64(n / 10, out);
        push_char(out, dec_digit_char(n % 10));
        assert(final(out)@ =~= old(out)@ + dec_text(n as nat));
    }
}

fn write_i64(n: i64, out: &mut String)
    ensures
        final(out)@ == old(out)@ + int_text(n as int),
{
    if n < 0 {
        push_char(out, '-');
        let m: u64 = (-(n as i128)) as u64;
        write_u64(m, out);
        assert(final(out)@ =~= old(out)@ + int_text(n as int));
    } else {
        write_u64(n as u64, out);
    }
}

fn write_escaped_char(c: char, out: &mut String)
    ensures
        final(out)@ == old(out)@ + escaped_char(c),
{
    if c == '"' {
        push_char(out, '\\');
        push_char(out, '"');
    } else if c == '\\' {
        push_char(out, '\\');
        push_char(out, '\\');
    } else if c == '\u{8}' {
        push_char(out, '\\');
        push_char(out, 'b');
    } else if c == '\u{c}' {
        push_char(out, '\\');
        push_char(out, 'f');
    } else if c == '\n' {
        push_char(out, '\\');
        push_char(out, 'n');
    } else if c == '\r' {
        push_char(out, '\\');
        push_char(out, 'r');
    } else if c == '\t' {
        push_char(out, '\\');
        push_char(out, 't');
    } else if (c as u32) < 0x20 {
        push_char(out, '\\');
        push_char(out, 'u');
        push_char(out, '0');
        push_char(out, '0');
        push_char(out, hex_digit_char((c as u32) / 16));
        push_char(out, hex_digit_char((c as u32) % 16));
    } else {
        push_char(out, c);
    }
    assert(final(out)@ =~= old(out)@ + escaped_char(c));
}

proof fn lemma_escaped_text_snoc(s: Seq<char>, k: int)
    requires
        0 <= k < s.len(),
    ensures
        escaped_text(s.take(k + 1)) == escaped_text(s.take(k)) + escaped_char(s[k]),
    decreases k,
{
    if k == 0 {
        assert(s.take(1) =~= seq![s[0]]);
        assert(s.take(0) =~= Seq::<char>::empty());
        assert(seq![s[0]].drop_first() =~= Seq::<char>::empty());
        assert(escaped_text(s.take(1)) =~= escaped_text(s.take(0)) + escaped_char(s[0]));
    } else {
        let d = s.drop_first();
        lemma_escaped_text_snoc(d, k - 1);
        assert(s.take(k + 1).drop_first() =~= d.take(k));
        assert(s.take(k).drop_first() =~= d.take(k - 1));
        assert(escaped_text(s.take(k + 1)) =~= escaped_text(s.take(k)) + escaped_char(s[k]));
    }
}

fn write_escaped(s: &str, out: &mut String)
    ensures
        final(out)@ == old(out)@ + escaped_text(s@),
{
    let n = s.unicode_len();
    let mut i: usize = 0;
    while i < n
        invariant
            n == s@.len(),
            0 <= i <= n,
            out@ == old(out)@ + escaped_text(s@.take(i as int)),
        decreases n - i,
    {
        let c = s.get_char(i);
        write_escaped_char(c, out);
        proof {
            lemma_escaped_text_snoc(s@, i as int);
        }
        i = i + 1;
    }
    assert(s@.take(n as int) =~= s@);
}

fn write_quoted(s: &str, out: &mut String)
    ensures
        final(out)@ == old(out)@ + quoted(s@),
{
    push_char(out, '"');
    write_escaped(s, out);
    push_char(out, '"');
    assert(final(out)@ =~= old(out)@ + quoted(s@));
}

proof fn lemma_comma_join_snoc(parts: Seq<Seq<char>>, k: int)
    requires
        0 <= k < parts.len(),
    ensures
        comma_join(parts.take(k + 1)) == if k == 0 {
            parts[0]
        } else {
            comma_join(parts.take(k)) + seq![','] + parts[k]
        },
    decreases k,
{
    if k == 0 {
        assert(comma_join(parts.take(1)) =~= parts[0]);
    } else {
        let d = parts.drop_first();
        lemma_comma_join_snoc(d, k - 1);
        assert(parts.take(k + 1).drop_first() =~= d.take(k));
        assert(parts.take(k).drop_first() =~= d.take(k - 1));
        assert(comma_join(parts.take(k + 1)) =~= comma_join(parts.take(k)) + seq![','] + parts[k]);
    }
}

proof fn lemma_arr_elem_decreases(v: Value, i: int)
    requires
        v is Arr,
        0 <= i < v->Arr_0@.len(),
    ensures
        decreases_to!(v => v->Arr_0@[i]),
{
    let a = v->Arr_0;
    assert(v == Value::Arr(a));
    assert(decreases_to!(v => a));
    assert(decreases_to!(a => a@));
    assert(decreases_to!(a@ => a@[i]));
}

proof fn lemma_obj_elem_decreases(v: Value, i: int)
    requires
        v is Obj,
        0 <= i < v->Obj_0@.len(),
    ensures
        decreases_to!(v => v->Obj_0@[i].1),
{
    let entries = v->Obj_0;
    assert(v == Value::Obj(entries));
    assert(decreases_to!(v => entries));
    assert(decreases_to!(entries => entries@));
    assert(decreases_to!(entries@ => entries@[i]));
    assert(decreases_to!(entries@[i] => entries@[i].1));
}

#[verifier::loop_isolation(false)]
fn write_value(v: &Value, out: &mut String)
    ensures
        final(out)@ == old(out)@ + json_text(v@),
    decreases *v,
{
    match v {
        Value::Null => {
            out.append("null");
        },
        Value::Bool(b) => {
            if *b {
                out.append("true");
            } else {
                out.append("false");
            }
        },
        Value::Int(i) => {
            write_i64(*i, out);
        },
        Value::UInt(u) => {
            write_u64(*u, out);
        },
        Value::Str(s) => {
            write_quoted(s.as_str(), out);
        },
        Value::Arr(a) => {
            let ghost texts = item_texts(elem_models(a@));
            push_char(out, '[');
            let ghost base = out@;
            let n = a.len();
            let mut i: usize = 0;
            while i < n
                invariant
                    n == a.len(),
                    0 <= i <= n,
                    texts == item_texts(elem_models(a@)),
                    base == old(out)@.push('['),
                    out@ == base + comma_join(texts.take(i as int)),
                decreases n - i,
            {
                if i > 0 {
                    push_char(out, ',');
                }
                proof {
                    lemma_arr_elem_decreases(*v, i as int);
                }
                write_value(&a[i], out);
                proof {
                    lemma_comma_join_snoc(texts, i as int);
                    assert(out@ =~= base + comma_join(texts.take(i as int + 1)));
                }
                i = i + 1;
            }
            push_char(out, ']');
            proof {
                assert(texts.take(n as int) =~= texts);
                assert(final(out)@ =~= old(out)@ + json_text(v@));
            }
        },
        Value::Obj(entries) => {
            let ghost texts = entry_texts(entry_models(entries@));
            push_char(out, '{');
            let ghost base = out@;
            let n = entries.len();
            let mut i: usize = 0;
            while i < n
                invariant
                    n == entries.len(),
                    0 <= i <= n,
                    texts == entry_texts(entry_models(entries@)),
                    base == old(out)@.push('{'),
                    out@ == base + comma_join(texts.take(i as int)),
                decreases n - i,
            {
                if i > 0 {
                    push_char(out, ',');
                }
                write_quoted(entries[i].0.as_str(), out);
                push_char(out, ':');
                proof {
                    lemma_obj_elem_decreases(*v, i as int);
                }
                write_value(&entries[i].1, out);
                proof {
                    lemma_comma_join_snoc(texts, i as int);
                    assert(out@ =~= base + comma_join(texts.take(i as int + 1)));
                }
                i = i + 1;
            }
            push_char(out, '}');
            proof {
                assert(texts.take(n as int) =~= texts);
                assert(final(out)@ =~= old(out)@ + json_text(v@));
            }
        },
    }
}

impl Value {
    /// The canonical JSON text of this value.
    pub fn to_json_string(&self) -> (r: String)
        ensures
            r@ == json_text(self@),
    {
        let mut out = String::new();
        write_value(self, &mut out);
        proof {
            assert(out@ =~= json_text(self@));
        }
        out
    }
}

} // verus!
