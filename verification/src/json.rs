use vstd::prelude::*;
use vstd::string::StringExecFns;
use vstd::string::StrSliceExecFns;

verus! {

/// A structured document value: nested mappings, sequences and scalars.
/// Numbers are integers; object members keep the order they were given in.
#[derive(Debug)]
pub enum JsonValue {
    /// The null literal.
    Null,
    /// A boolean literal.
    Bool(bool),
    /// An integer number.
    Int(i64),
    /// A text scalar.
    Str(String),
    /// An ordered sequence of values.
    Array(Vec<JsonValue>),
    /// An ordered mapping from member name to value.
    Object(Vec<(String, JsonValue)>),
}

/// The decimal digit character for `d` in `0 ..= 9`.
pub open spec fn dec_digit(d: int) -> char {
    if d == 0 { '0' }
    else if d == 1 { '1' }
    else if d == 2 { '2' }
    else if d == 3 { '3' }
    else if d == 4 { '4' }
    else if d == 5 { '5' }
    else if d == 6 { '6' }
    else if d == 7 { '7' }
    else if d == 8 { '8' }
    else { '9' }
}

/// The upper-case hexadecimal digit character for `d` in `0 ..= 15`.
pub open spec fn hex_digit(d: int) -> char {
    if d < 10 { dec_digit(d) }
    else if d == 10 { 'A' }
    else if d == 11 { 'B' }
    else if d == 12 { 'C' }
    else if d == 13 { 'D' }
    else if d == 14 { 'E' }
    else { 'F' }
}

/// The decimal text of a natural number, most significant digit first,
/// with no leading zero except for zero itself.
pub open spec fn nat_text(n: nat) -> Seq<char>
    decreases n,
{
    if n < 10 {
        seq![dec_digit(n as int)]
    } else {
        nat_text(n / 10) + seq![dec_digit((n % 10) as int)]
    }
}

/// The decimal text of an integer: a leading minus sign when negative.
pub open spec fn int_text(i: int) -> Seq<char> {
    if i >= 0 {
        nat_text(i as nat)
    } else {
        seq!['-'] + nat_text((-i) as nat)
    }
}

/// How one character appears inside a JSON string literal: quote and
/// backslash get a backslash escape, control characters a `\u00XX`
/// escape, everything else stands as itself.
pub open spec fn escaped_char(c: char) -> Seq<char> {
    if c == '"' {
        seq!['\\', '"']
    } else if c == '\\' {
        seq!['\\', '\\']
    } else if (c as u32) < 32 {
        seq!['\\', 'u', '0', '0', hex_digit((c as u32) as int / 16), hex_digit((c as u32) as int % 16)]
    } else {
        seq![c]
    }
}

/// The body of a JSON string literal: each character escaped in turn.
pub open spec fn escaped(s: Seq<char>) -> Seq<char>
    decreases s.len(),
{
    if s.len() == 0 {
        Seq::empty()
    } else {
        escaped(s.drop_last()) + escaped_char(s.last())
    }
}

/// A JSON string literal: the escaped text between double quotes.
pub open spec fn string_text(s: Seq<char>) -> Seq<char> {
    seq!['"'] + escaped(s) + seq!['"']
}

/// The JSON text of a value.
pub open spec fn json_text(v: JsonValue) -> Seq<char>
    decreases v,
{
    match v {
        JsonValue::Null => seq!['n', 'u', 'l', 'l'],
        JsonValue::Bool(b) => if b {
            seq!['t', 'r', 'u', 'e']
        } else {
            seq!['f', 'a', 'l', 's', 'e']
        },
        JsonValue::Int(i) => int_text(i as int),
        JsonValue::Str(s) => string_text(s@),
        JsonValue::Array(items) => seq!['['] + items_text(items@) + seq![']'],
        JsonValue::Object(members) => seq!['{'] + members_text(members@) + seq!['}'],
    }
}

/// The comma-separated JSON texts of the elements of an array.
pub open spec fn items_text(items: Seq<JsonValue>) -> Seq<char>
    decreases items,
{
    if items.len() == 0 {
        Seq::empty()
    } else if items.len() == 1 {
        json_text(items.last())
    } else {
        items_text(items.drop_last()) + seq![','] + json_text(items.last())
    }
}

/// One object member: quoted name, colon, value.
pub open spec fn member_text(member: (String, JsonValue)) -> Seq<char>
    decreases member,
{
    string_text(member.0@) + seq![':'] + json_text(member.1)
}

/// The comma-separated member texts of an object.
pub open spec fn members_text(members: Seq<(String, JsonValue)>) -> Seq<char>
    decreases members,
{
    if members.len() == 0 {
        Seq::empty()
    } else if members.len() == 1 {
        member_text(members.last())
    } else {
        members_text(members.drop_last()) + seq![','] + member_text(members.last())
    }
}

/// Relies on `String::push`: appends the one character to the end.
#[verifier::external_body]
fn push_char(out: &mut String, c: char)
    ensures
        final(out)@ == old(out)@ + seq![c],
{
    out.push(c);
}

/// Appends one decimal digit character.
fn push_dec_digit(out: &mut String, d: u64)
    requires
        d < 10,
    ensures
        final(out)@ == old(out)@ + seq![dec_digit(d as int)],
{
    let c: char = if d == 0 { '0' }
    else if d == 1 { '1' }
    else if d == 2 { '2' }
    else if d == 3 { '3' }
    else if d == 4 { '4' }
    else if d == 5 { '5' }
    else if d == 6 { '6' }
    else if d == 7 { '7' }
    else if d == 8 { '8' }
    else { '9' };
    push_char(out, c);
}

/// Appends one upper-case hexadecimal digit character.
fn push_hex_digit(out: &mut String, d: u64)
    requires
        d < 16,
    ensures
        final(out)@ == old(out)@ + seq![hex_digit(d as int)],
{
    if d < 10 {
        push_dec_digit(out, d);
    } else {
        let c: char = if d == 10 { 'A' }
        else if d == 11 { 'B' }
        else if d == 12 { 'C' }
        else if d == 13 { 'D' }
        else if d == 14 { 'E' }
        else { 'F' };
        push_char(out, c);
    }
}

/// Appends the decimal text of a natural number.
fn append_u64(out: &mut String, n: u64)
    ensures
        final(out)@ == old(out)@ + nat_text(n as nat),
    decreases n,
{
    if n < 10 {
        push_dec_digit(out, n);
    } else {
        append_u64(out, n / 10);
        push_dec_digit(out, n % 10);
    }
}

/// Appends the decimal text of a signed integer.
fn append_i64(out: &mut String, i: i64)
    ensures
        final(out)@ == old(out)@ + int_text(i as int),
{
    if i < 0 {
        push_char(out, '-');
        let mag: u64 = (-(i as i128)) as u64;
        assert(mag as nat == (-(i as int)) as nat);
        append_u64(out, mag);
    } else {
        append_u64(out, i as u64);
    }
}

/// Appends the escaped body of a JSON string literal.
fn append_escaped(out: &mut String, s: &str)
    ensures
        final(out)@ == old(out)@ + escaped(s@),
{
    let len = s.unicode_len();
    let mut i: usize = 0;
    while i < len
        invariant
            i <= len,
            len == s@.len(),
            out@ == old(out)@ + escaped(s@.subrange(0, i as int)),
        decreases len - i,
    {
        let c = s.get_char(i);
        if c == '"' {
            push_char(out, '\\');
            push_char(out, '"');
        } else if c == '\\' {
            push_char(out, '\\');
            push_char(out, '\\');
        } else if (c as u32) < 32 {
            push_char(out, '\\');
            push_char(out, 'u');
            push_char(out, '0');
            push_char(out, '0');
            let u = c as u32;
            push_hex_digit(out, (u / 16) as u64);
            push_hex_digit(out, (u % 16) as u64);
        } else {
            push_char(out, c);
        }
        proof {
            let done = s@.subrange(0, (i + 1) as int);
            assert(done.drop_last() =~= s@.subrange(0, i as int));
            assert(done.last() == s@[i as int]);
        }
        i += 1;
    }
    proof {
        assert(s@.subrange(0, len as int) =~= s@);
    }
}

/// Appends the JSON text of a value.
pub fn append_json(out: &mut String, v: &JsonValue)
    ensures
        final(out)@ == old(out)@ + json_text(*v),
    decreases *v,
{
    match v {
        JsonValue::Null => {
            out.append("null");
            proof {
                reveal_strlit("null");
                assert("null"@ =~= seq!['n', 'u', 'l', 'l']);
            }
        },
        JsonValue::Bool(b) => {
            if *b {
                out.append("true");
                proof {
                    reveal_strlit("true");
                    assert("true"@ =~= seq!['t', 'r', 'u', 'e']);
                }
            } else {
                out.append("false");
                proof {
                    reveal_strlit("false");
                    assert("false"@ =~= seq!['f', 'a', 'l', 's', 'e']);
                }
            }
        },
        JsonValue::Int(i) => {
            append_i64(out, *i);
        },
        JsonValue::Str(s) => {
            push_char(out, '"');
            append_escaped(out, s.as_str());
            push_char(out, '"');
        },
        JsonValue::Array(items) => {
            push_char(out, '[');
            let n = items.len();
            let mut i: usize = 0;
            while i < n
                invariant
                    i <= n,
                    n == items@.len(),
                    v is Array,
                    *items == v->Array_0,
                    out@ == old(out)@ + seq!['['] + items_text(items@.subrange(0, i as int)),
                decreases n - i,
            {
                if i > 0 {
                    push_char(out, ',');
                }
                proof {
                    assert(*items == v->Array_0);
                    assert(decreases_to!(*v => v->Array_0));
                    assert(decreases_to!(v->Array_0 => v->Array_0@));
                    assert(decreases_to!(v->Array_0@ => v->Array_0@[i as int]));
                }
                append_json(out, &items[i]);
                proof {
                    let done = items@.subrange(0, (i + 1) as int);
                    assert(done.drop_last() =~= items@.subrange(0, i as int));
                    assert(done.last() == items@[i as int]);
                    assert(out@ =~= old(out)@ + seq!['['] + items_text(done));
                }
                i += 1;
            }
            proof {
                assert(items@.subrange(0, n as int) =~= items@);
            }
            push_char(out, ']');
        },
        JsonValue::Object(members) => {
            push_char(out, '{');
            let n = members.len();
            let mut i: usize = 0;
            while i < n
                invariant
                    i <= n,
                    n == members@.len(),
                    v is Object,
                    *members == v->Object_0,
                    out@ == old(out)@ + seq!['{'] + members_text(members@.subrange(0, i as int)),
                decreases n - i,
            {
                if i > 0 {
                    push_char(out, ',');
                }
                let member = &members[i];
                push_char(out, '"');
                append_escaped(out, member.0.as_str());
                push_char(out, '"');
                push_char(out, ':');
                proof {
                    assert(*members == v->Object_0);
                    assert(decreases_to!(*v => v->Object_0));
                    assert(decreases_to!(v->Object_0 => v->Object_0@));
                    assert(decreases_to!(v->Object_0@ => v->Object_0@[i as int]));
                    assert(decreases_to!(members@[i as int] => members@[i as int].1));
                }
                append_json(out, &member.1);
                proof {
                    let prev = members@.subrange(0, i as int);
                    let done = members@.subrange(0, (i + 1) as int);
                    let cur = members@[i as int];
                    assert(done.drop_last() =~= prev);
                    assert(done.last() == cur);
                    assert(member_text(cur) == string_text(cur.0@) + seq![':'] + json_text(cur.1));
                    if i == 0 {
                        assert(members_text(done) == member_text(cur));
                    } else {
                        assert(members_text(done) == members_text(prev) + seq![','] + member_text(cur));
                    }
                    assert(out@ =~= old(out)@ + seq!['{'] + members_text(done));
                }
                i += 1;
            }
            proof {
                assert(members@.subrange(0, n as int) =~= members@);
            }
            push_char(out, '}');
        },
    }
}

/// The JSON text of a value, as a fresh string.
pub fn to_json(v: &JsonValue) -> (r: String)
    ensures
        r@ == json_text(*v),
{
    let mut out = String::new();
    append_json(&mut out, v);
    out
}

} // verus!
