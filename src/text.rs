use vstd::prelude::*;
use vstd::string::*;

use crate::json::Json;
use crate::query::{decimal, decimal_string, negative_string};

verus! {

/// The hexadecimal digit `d`, in lower case.
pub open spec fn hex_digit(d: nat) -> char {
    seq!['0', '1', '2', '3', '4', '5', '6', '7', '8', '9', 'a', 'b', 'c', 'd', 'e', 'f'][d as int]
}

/// How `c` stands inside a JSON string literal: the quote, the backslash and
/// the control characters below U+0020 are escaped, the short forms where
/// JSON has one, else as `\u00XX`; every other character stands for itself.
pub open spec fn escaped_char(c: char) -> Seq<char> {
    if c == '"' {
        seq!['\\', '"']
    } else if c == '\\' {
        seq!['\\', '\\']
    } else if c == '\u{8}' {
        seq!['\\', 'b']
    } else if c == '\t' {
        seq!['\\', 't']
    } else if c == '\n' {
        seq!['\\', 'n']
    } else if c == '\u{c}' {
        seq!['\\', 'f']
    } else if c == '\r' {
        seq!['\\', 'r']
    } else if (c as u32) < 0x20 {
        seq!['\\', 'u', '0', '0', hex_digit((c as u32 / 16) as nat), hex_digit((c as u32 % 16) as nat)]
    } else {
        seq![c]
    }
}

/// The characters of `s`, each as it stands inside a JSON string literal.
pub open spec fn escaped(s: Seq<char>) -> Seq<char>
    decreases s.len(),
{
    if s.len() == 0 {
        seq![]
    } else {
        escaped_char(s[0]) + escaped(s.drop_first())
    }
}

/// The JSON string literal for `s`: the escaped characters between quotes.
pub open spec fn json_quoted(s: Seq<char>) -> Seq<char> {
    seq!['"'] + escaped(s) + seq!['"']
}

/// Relies on `serde_json::to_string` on a `str`, which writes the string
/// between quotes, escaping by the table `ESCAPE` of serde_json's serializer
/// (`\"`, `\\`, `\b`, `\t`, `\n`, `\f`, `\r`, else `\u00xx` below U+0020).
/// Writing a `str` into memory does not fail.
#[verifier::external_body]
fn quote(s: &str) -> (r: String)
    ensures
        r@ == json_quoted(s@),
{
    serde_json::to_string(s).unwrap_or_default()
}

/// The compact JSON text of `j`: no whitespace, members in order.
pub open spec fn json_text(j: Json) -> Seq<char>
    decreases j, 0nat,
{
    match j {
        Json::Null => "null"@,
        Json::Bool(b) => if b {
            "true"@
        } else {
            "false"@
        },
        Json::UInt(n) => decimal(n as nat),
        Json::NegInt(n) => if n < 0 {
            "-"@ + decimal((-n) as nat)
        } else {
            decimal(n as nat)
        },
        Json::Number(t) => t@,
        Json::Str(s) => json_quoted(s@),
        Json::Array(items) => "["@ + items_text(items@, 0) + "]"@,
        Json::Object(fields) => "{"@ + members_text(fields@, 0) + "}"@,
    }
}

/// The text of the items of an array from index `i` on, each after a comma but the first.
pub open spec fn items_text(items: Seq<Json>, i: int) -> Seq<char>
    decreases items, items.len() - i,
{
    if i < 0 || i >= items.len() {
        seq![]
    } else {
        (if i == 0 {
            seq![]
        } else {
            ","@
        }) + json_text(items[i]) + items_text(items, i + 1)
    }
}

/// The text of the members of an object from index `i` on, each after a comma but the first.
pub open spec fn members_text(fields: Seq<(String, Json)>, i: int) -> Seq<char>
    decreases fields, fields.len() - i,
{
    if i < 0 || i >= fields.len() {
        seq![]
    } else {
        (if i == 0 {
            seq![]
        } else {
            ","@
        }) + json_quoted(fields[i].0@) + ":"@ + json_text(fields[i].1) + members_text(fields, i + 1)
    }
}

/// Appends the compact JSON text of `j` to `out`.
pub fn write_json(j: &Json, out: &mut String)
    ensures
        final(out)@ == old(out)@ + json_text(*j),
    decreases *j,
{
    match j {
        Json::Null => out.append("null"),
        Json::Bool(b) => {
            if *b {
                out.append("true");
            } else {
                out.append("false");
            }
        },
        Json::UInt(n) => out.append(decimal_string(*n).as_str()),
        Json::NegInt(n) => {
            if *n < 0 {
                out.append(negative_string(*n).as_str());
            } else {
                out.append(decimal_string(*n as u64).as_str());
            }
        },
        Json::Number(t) => out.append(t.as_str()),
        Json::Str(s) => out.append(quote(s.as_str()).as_str()),
        Json::Array(items) => {
            let ghost start = out@;
            out.append("[");
            let mut i: usize = 0;
            while i < items.len()
                invariant
                    0 <= i <= items@.len(),
                    *j == Json::Array(*items),
                    start + "["@ + items_text(items@, 0) == out@ + items_text(items@, i as int),
                decreases items@.len() - i,
            {
                let ghost before = out@;
                if i > 0 {
                    out.append(",");
                }
                proof {
                    assert(decreases_to!(*j => (*j)->Array_0));
                    assert(decreases_to!(items => items@));
                    assert(decreases_to!(items@ => items@[i as int]));
                    assert(decreases_to!(*j => items@[i as int]));
                }
                write_json(&items[i], out);
                assert(out@ + items_text(items@, i + 1) =~= before + items_text(items@, i as int));
                i = i + 1;
            }
            out.append("]");
            assert(out@ =~= start + json_text(*j));
        },
        Json::Object(fields) => {
            let ghost start = out@;
            out.append("{");
            let mut i: usize = 0;
            while i < fields.len()
                invariant
                    0 <= i <= fields@.len(),
                    *j == Json::Object(*fields),
                    start + "{"@ + members_text(fields@, 0) == out@ + members_text(fields@, i as int),
                decreases fields@.len() - i,
            {
                let ghost before = out@;
                if i > 0 {
                    out.append(",");
                }
                out.append(quote(fields[i].0.as_str()).as_str());
                out.append(":");
                proof {
                    assert(decreases_to!(*j => (*j)->Object_0));
                    assert(decreases_to!(fields => fields@));
                    assert(decreases_to!(fields@ => fields@[i as int]));
                    assert(decreases_to!(fields@[i as int] => fields@[i as int].1));
                    assert(decreases_to!(*j => fields@[i as int].1));
                }
                write_json(&fields[i].1, out);
                assert(out@ + members_text(fields@, i + 1) =~= before + members_text(fields@, i as int));
                i = i + 1;
            }
            out.append("}");
            assert(out@ =~= start + json_text(*j));
        },
    }
}

impl Json {
    /// The compact JSON text of this value.
    pub fn to_text(&self) -> (r: String)
        ensures
            r@ == json_text(*self),
    {
        let mut out = String::new();
        write_json(self, &mut out);
        assert(out@ =~= json_text(*self));
        out
    }
}

} // verus!
