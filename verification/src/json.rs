//! Writes values as JSON text: the form in which the answer context reaches the
//! template engine and the hooks.
use vstd::prelude::*;
use vstd::string::*;

use crate::text::{chars_of, push_char};
use crate::value::{member_models, models, Json, JsonNumber, Number, Value};

verus! {

/// The character for a digit below sixteen, lower case.
pub open spec fn hex_digit(d: int) -> char {
    if d == 0 {
        '0'
    } else if d == 1 {
        '1'
    } else if d == 2 {
        '2'
    } else if d == 3 {
        '3'
    } else if d == 4 {
        '4'
    } else if d == 5 {
        '5'
    } else if d == 6 {
        '6'
    } else if d == 7 {
        '7'
    } else if d == 8 {
        '8'
    } else if d == 9 {
        '9'
    } else if d == 10 {
        'a'
    } else if d == 11 {
        'b'
    } else if d == 12 {
        'c'
    } else if d == 13 {
        'd'
    } else if d == 14 {
        'e'
    } else {
        'f'
    }
}

/// The decimal digits of `n`, most significant first, without leading zeros.
pub open spec fn decimal(n: nat) -> Seq<char>
    decreases n,
{
    if n < 10 {
        seq![hex_digit(n as int)]
    } else {
        decimal(n / 10).push(hex_digit((n % 10) as int))
    }
}

/// The decimal text of an integer, with `-` in front of a negative one.
pub open spec fn integer_text(i: int) -> Seq<char> {
    if i < 0 {
        seq!['-'] + decimal((-i) as nat)
    } else {
        decimal(i as nat)
    }
}

/// How one character stands inside a JSON string.
pub open spec fn escape_char(c: char) -> Seq<char> {
    if c == '"' {
        seq!['\\', '"']
    } else if c == '\\' {
        seq!['\\', '\\']
    } else if c == '\n' {
        seq!['\\', 'n']
    } else if c == '\r' {
        seq!['\\', 'r']
    } else if c == '\t' {
        seq!['\\', 't']
    } else if c == '\u{8}' {
        seq!['\\', 'b']
    } else if c == '\u{c}' {
        seq!['\\', 'f']
    } else if (c as u32) < 32 {
        seq!['\\', 'u', '0', '0', hex_digit((c as u32) as int / 16), hex_digit((c as u32) as int % 16)]
    } else {
        seq![c]
    }
}

/// The characters of `s` as they stand between the quotes of a JSON string.
pub open spec fn escaped(s: Seq<char>) -> Seq<char>
    decreases s.len(),
{
    if s.len() == 0 {
        Seq::<char>::empty()
    } else {
        escaped(s.drop_last()) + escape_char(s.last())
    }
}

/// A JSON string literal for `s`.
pub open spec fn string_text(s: Seq<char>) -> Seq<char> {
    seq!['"'] + escaped(s) + seq!['"']
}

/// The JSON text of a number.
pub open spec fn number_text(n: JsonNumber) -> Seq<char> {
    match n {
        JsonNumber::Integer(i) => integer_text(i),
        JsonNumber::Literal(text) => text,
    }
}

/// The compact JSON text of a value: no white space, members in their order.
pub open spec fn json_text(j: Json) -> Seq<char>
    decreases j, 0nat,
{
    match j {
        Json::Null => "null"@,
        Json::Bool(b) => if b {
            "true"@
        } else {
            "false"@
        },
        Json::Number(n) => number_text(n),
        Json::String(s) => string_text(s),
        Json::Array(items) => seq!['['] + list_text(items, items.len()) + seq![']'],
        Json::Object(members) => seq!['{'] + members_text(members, members.len()) + seq!['}'],
    }
}

/// The texts of the first `upto` items, separated by commas.
pub open spec fn list_text(items: Seq<Json>, upto: nat) -> Seq<char>
    decreases items, upto,
{
    if upto == 0 || upto > items.len() {
        Seq::<char>::empty()
    } else if upto == 1 {
        json_text(items[0])
    } else {
        list_text(items, (upto - 1) as nat).push(',') + json_text(items[upto - 1])
    }
}

/// The texts of the first `upto` members, each as `"key":value`, separated by commas.
pub open spec fn members_text(members: Seq<(Seq<char>, Json)>, upto: nat) -> Seq<char>
    decreases members, upto,
{
    if upto == 0 || upto > members.len() {
        Seq::<char>::empty()
    } else if upto == 1 {
        string_text(members[0].0).push(':') + json_text(members[0].1)
    } else {
        members_text(members, (upto - 1) as nat).push(',') + string_text(members[upto - 1].0).push(
            ':',
        ) + json_text(members[upto - 1].1)
    }
}

fn hex_char(d: u32) -> (c: char)
    requires
        d < 16,
    ensures
        c == hex_digit(d as int),
{
    if d == 0 {
        '0'
    } else if d == 1 {
        '1'
    } else if d == 2 {
        '2'
    } else if d == 3 {
        '3'
    } else if d == 4 {
        '4'
    } else if d == 5 {
        '5'
    } else if d == 6 {
        '6'
    } else if d == 7 {
        '7'
    } else if d == 8 {
        '8'
    } else if d == 9 {
        '9'
    } else if d == 10 {
        'a'
    } else if d == 11 {
        'b'
    } else if d == 12 {
        'c'
    } else if d == 13 {
        'd'
    } else if d == 14 {
        'e'
    } else {
        'f'
    }
}

/// Appends the decimal digits of `n`.
pub fn write_decimal(out: &mut String, n: u64)
    ensures
        final(out)@ == old(out)@ + decimal(n as nat),
    decreases n,
{
    if n >= 10 {
        write_decimal(out, n / 10);
    }
    push_char(out, hex_char((n % 10) as u32));
    assert(final(out)@ =~= old(out)@ + decimal(n as nat));
}

/// Appends the text of a number.
pub fn write_number(out: &mut String, n: &Number)
    ensures
        final(out)@ == old(out)@ + number_text(n.model()),
{
    match n {
        Number::PosInt(v) => {
            write_decimal(out, *v);
        },
        Number::NegInt(v) => {
            if *v < 0 {
                push_char(out, '-');
                let magnitude: u64 = if *v == i64::MIN {
                    9223372036854775808u64
                } else {
                    (-*v) as u64
                };
                write_decimal(out, magnitude);
                assert(final(out)@ =~= old(out)@ + number_text(n.model()));
            } else {
                write_decimal(out, *v as u64);
            }
        },
        Number::Literal(text) => {
            out.append(text.as_str());
        },
    }
}

/// Appends `c` the way it stands inside a JSON string.
pub fn write_escaped_char(out: &mut String, c: char)
    ensures
        final(out)@ == old(out)@ + escape_char(c),
{
    if c == '"' {
        push_char(out, '\\');
        push_char(out, '"');
    } else if c == '\\' {
        push_char(out, '\\');
        push_char(out, '\\');
    } else if c == '\n' {
        push_char(out, '\\');
        push_char(out, 'n');
    } else if c == '\r' {
        push_char(out, '\\');
        push_char(out, 'r');
    } else if c == '\t' {
        push_char(out, '\\');
        push_char(out, 't');
    } else if c == '\u{8}' {
        push_char(out, '\\');
        push_char(out, 'b');
    } else if c == '\u{c}' {
        push_char(out, '\\');
        push_char(out, 'f');
    } else if (c as u32) < 32 {
        let code: u32 = c as u32;
        push_char(out, '\\');
        push_char(out, 'u');
        push_char(out, '0');
        push_char(out, '0');
        push_char(out, hex_char(code / 16));
        push_char(out, hex_char(code % 16));
    } else {
        push_char(out, c);
    }
    assert(final(out)@ =~= old(out)@ + escape_char(c));
}

/// Appends a JSON string literal for `s`.
pub fn write_string(out: &mut String, s: &str)
    ensures
        final(out)@ == old(out)@ + string_text(s@),
{
    let ghost start = out@;
    push_char(out, '"');
    let chars = chars_of(s);
    let n = chars.len();
    let mut i: usize = 0;
    assert(s@.subrange(0, 0) =~= Seq::<char>::empty());
    while i < n
        invariant
            chars@ == s@,
            n == s@.len(),
            i <= n,
            out@ == start.push('"') + escaped(s@.subrange(0, i as int)),
        decreases n - i,
    {
        write_escaped_char(out, chars[i]);
        assert(s@.subrange(0, i + 1).drop_last() =~= s@.subrange(0, i as int));
        assert(out@ =~= start.push('"') + escaped(s@.subrange(0, i + 1)));
        i = i + 1;
    }
    assert(s@.subrange(0, n as int) =~= s@);
    push_char(out, '"');
    assert(out@ =~= start + string_text(s@));
}

impl Value {
    /// Appends the JSON text of the value.
    pub fn write_json(&self, out: &mut String)
        ensures
            final(out)@ == old(out)@ + json_text(self.model()),
        decreases self,
    {
        let ghost start = out@;
        match self {
            Value::Null => {
                out.append("null");
            },
            Value::Bool(b) => {
                if *b {
                    out.append("true");
                } else {
                    out.append("false");
                }
            },
            Value::Number(n) => {
                write_number(out, n);
            },
            Value::String(s) => {
                write_string(out, s.as_str());
            },
            Value::Array(items) => {
                let ghost all = models(*items);
                push_char(out, '[');
                let mut i: usize = 0;
                while i < items.len()
                    invariant
                        self is Array,
                        self->Array_0 == *items,
                        all == models(*items),
                        i <= items.len(),
                        out@ == start.push('[') + list_text(all, i as nat),
                    decreases items.len() - i,
                {
                    if i > 0 {
                        push_char(out, ',');
                    }
                    let item = &items[i];
                    item.write_json(out);
                    assert(all[i as int] == item.model());
                    assert(out@ =~= start.push('[') + list_text(all, (i + 1) as nat));
                    i = i + 1;
                }
                push_char(out, ']');
                assert(out@ =~= start + json_text(self.model()));
            },
            Value::Object(fields) => {
                let ghost all = member_models(*fields);
                push_char(out, '{');
                let mut i: usize = 0;
                while i < fields.len()
                    invariant
                        self is Object,
                        self->Object_0 == *fields,
                        all == member_models(*fields),
                        i <= fields.len(),
                        out@ == start.push('{') + members_text(all, i as nat),
                    decreases fields.len() - i,
                {
                    if i > 0 {
                        push_char(out, ',');
                    }
                    let field = &fields[i];
                    write_string(out, field.0.as_str());
                    push_char(out, ':');
                    field.1.write_json(out);
                    assert(all[i as int] == (field.0@, field.1.model()));
                    assert(out@ =~= start.push('{') + members_text(all, (i + 1) as nat));
                    i = i + 1;
                }
                push_char(out, '}');
                assert(out@ =~= start + json_text(self.model()));
            },
        }
    }

    /// The compact JSON text of the value.
    pub fn to_json(&self) -> (r: String)
        ensures
            r@ == json_text(self.model()),
    {
        let mut out = String::new();
        self.write_json(&mut out);
        assert(out@ =~= json_text(self.model()));
        out
    }
}

} // verus!
