//! The canonical single-line rendering of a log record: a brace-delimited
//! key/value form, `{ key: value, ... }`, with strings quoted, integers in
//! decimal, and nested records rendered the same way.

use vstd::prelude::*;

use crate::entry::Entry;
use crate::entry::Field;
use crate::entry::Value;

verus! {

/// The decimal digit character for `n` (meaningful for `n < 10`).
pub open spec fn spec_digit(n: nat) -> char {
    if n == 0 {
        '0'
    } else if n == 1 {
        '1'
    } else if n == 2 {
        '2'
    } else if n == 3 {
        '3'
    } else if n == 4 {
        '4'
    } else if n == 5 {
        '5'
    } else if n == 6 {
        '6'
    } else if n == 7 {
        '7'
    } else if n == 8 {
        '8'
    } else {
        '9'
    }
}

/// The decimal digits of `n`, most significant first, with no sign and no
/// leading zero (except for `n == 0` itself).
pub open spec fn spec_digits(n: nat) -> Seq<char>
    decreases n,
{
    if n < 10 {
        seq![spec_digit(n)]
    } else {
        spec_digits(n / 10) + seq![spec_digit(n % 10)]
    }
}

/// The decimal rendering of `i`, with a leading minus sign when negative.
pub open spec fn spec_int(i: int) -> Seq<char> {
    if i < 0 {
        seq!['-'] + spec_digits((-i) as nat)
    } else {
        spec_digits(i as nat)
    }
}

/// The rendering of one value.
pub open spec fn spec_value(v: Value) -> Seq<char>
    decreases v,
{
    match v {
        Value::Int(i) => spec_int(i as int),
        Value::Str(s) => seq!['"'] + s@ + seq!['"'],
        Value::Doc(e) => spec_entry(e),
    }
}

/// The rendering of a non-empty run of fields, `key: value` pairs joined
/// by `", "`.
pub open spec fn spec_fields(fs: Seq<Field>) -> Seq<char>
    decreases fs,
{
    if fs.len() == 0 {
        Seq::<char>::empty()
    } else if fs.len() == 1 {
        fs[0].key@ + seq![':', ' '] + spec_value(fs[0].value)
    } else {
        fs[0].key@ + seq![':', ' '] + spec_value(fs[0].value) + seq![',', ' '] + spec_fields(
            fs.skip(1),
        )
    }
}

/// The rendering of a whole record.
pub open spec fn spec_entry(e: Entry) -> Seq<char>
    decreases e,
{
    if e.fields@.len() == 0 {
        seq!['{', ' ', '}']
    } else {
        seq!['{', ' '] + spec_fields(e.fields@) + seq![' ', '}']
    }
}

/// The one-character string for digit `d`.
fn digit_str(d: u64) -> (s: &'static str)
    requires
        d < 10,
    ensures
        s@ == seq![spec_digit(d as nat)],
{
    match d {
        0 => {
            proof {
                reveal_strlit("0");
                assert("0"@ =~= seq![spec_digit(0nat)]);
            }
            "0"
        },
        1 => {
            proof {
                reveal_strlit("1");
                assert("1"@ =~= seq![spec_digit(1nat)]);
            }
            "1"
        },
        2 => {
            proof {
                reveal_strlit("2");
                assert("2"@ =~= seq![spec_digit(2nat)]);
            }
            "2"
        },
        3 => {
            proof {
                reveal_strlit("3");
                assert("3"@ =~= seq![spec_digit(3nat)]);
            }
            "3"
        },
        4 => {
            proof {
                reveal_strlit("4");
                assert("4"@ =~= seq![spec_digit(4nat)]);
            }
            "4"
        },
        5 => {
            proof {
                reveal_strlit("5");
                assert("5"@ =~= seq![spec_digit(5nat)]);
            }
            "5"
        },
        6 => {
            proof {
                reveal_strlit("6");
                assert("6"@ =~= seq![spec_digit(6nat)]);
            }
            "6"
        },
        7 => {
            proof {
                reveal_strlit("7");
                assert("7"@ =~= seq![spec_digit(7nat)]);
            }
            "7"
        },
        8 => {
            proof {
                reveal_strlit("8");
                assert("8"@ =~= seq![spec_digit(8nat)]);
            }
            "8"
        },
        _ => {
            proof {
                reveal_strlit("9");
                assert("9"@ =~= seq![spec_digit(9nat)]);
            }
            "9"
        },
    }
}

/// Appends the decimal digits of `n` to `out`.
fn digits_push(n: u64, out: &mut String)
    ensures
        final(out)@ == old(out)@ + spec_digits(n as nat),
    decreases n,
{
    if n >= 10 {
        digits_push(n / 10, out);
    }
    out.append(digit_str(n % 10));
    proof {
        if n < 10 {
            assert(spec_digits(n as nat) =~= seq![spec_digit((n % 10) as nat)]);
        }
        assert(out@ =~= old(out)@ + spec_digits(n as nat));
    }
}

/// Appends the decimal rendering of `i` to `out`.
fn int_push(i: i64, out: &mut String)
    ensures
        final(out)@ == old(out)@ + spec_int(i as int),
{
    if i < 0 {
        out.append("-");
        let m: u64 = (-(i as i128)) as u64;
        digits_push(m, out);
        proof {
            reveal_strlit("-");
            assert("-"@ =~= seq!['-']);
            assert(out@ =~= old(out)@ + spec_int(i as int));
        }
    } else {
        digits_push(i as u64, out);
    }
}

/// Appends the rendering of `v` to `out`.
fn value_push(v: &Value, out: &mut String)
    ensures
        final(out)@ == old(out)@ + spec_value(*v),
    decreases *v,
{
    match v {
        Value::Int(i) => {
            int_push(*i, out);
        },
        Value::Str(s) => {
            out.append("\"");
            out.append(s.as_str());
            out.append("\"");
            proof {
                reveal_strlit("\"");
                assert("\""@ =~= seq!['"']);
                assert(out@ =~= old(out)@ + spec_value(*v));
            }
        },
        Value::Doc(e) => {
            entry_push(e, out);
        },
    }
}

/// Appends the rendering of the fields `fs[i..]` to `out`.
fn fields_push(fs: &Vec<Field>, i: usize, out: &mut String)
    requires
        i < fs@.len(),
    ensures
        final(out)@ == old(out)@ + spec_fields(fs@.skip(i as int)),
    decreases fs@, fs@.len() - i,
{
    out.append(fs[i].key.as_str());
    out.append(": ");
    value_push(&fs[i].value, out);
    proof {
        reveal_strlit(": ");
        assert(": "@ =~= seq![':', ' ']);
        assert(fs@.skip(i as int)[0] == fs@[i as int]);
        assert(fs@.skip(i as int).skip(1) =~= fs@.skip(i + 1));
    }
    let n = fs.len();
    if i + 1 < n {
        out.append(", ");
        fields_push(fs, i + 1, out);
        proof {
            reveal_strlit(", ");
            assert(", "@ =~= seq![',', ' ']);
            assert(out@ =~= old(out)@ + spec_fields(fs@.skip(i as int)));
        }
    } else {
        proof {
            assert(fs@.skip(i as int).len() == 1);
            assert(out@ =~= old(out)@ + spec_fields(fs@.skip(i as int)));
        }
    }
}

/// Appends the rendering of the record `e` to `out`.
fn entry_push(e: &Entry, out: &mut String)
    ensures
        final(out)@ == old(out)@ + spec_entry(*e),
    decreases *e,
{
    out.append("{ ");
    if e.fields.len() == 0 {
        out.append("}");
        proof {
            reveal_strlit("{ ");
            reveal_strlit("}");
            assert(out@ =~= old(out)@ + spec_entry(*e));
        }
    } else {
        fields_push(&e.fields, 0, out);
        out.append(" }");
        proof {
            reveal_strlit("{ ");
            reveal_strlit(" }");
            assert(e.fields@.skip(0) =~= e.fields@);
            assert(out@ =~= old(out)@ + spec_entry(*e));
        }
    }
}

/// The rendering of one value on its own, as it appears inside a record.
pub fn serialize_value(v: &Value) -> (r: String)
    ensures
        r@ == spec_value(*v),
{
    let mut out = String::new();
    value_push(v, &mut out);
    proof {
        assert(out@ =~= spec_value(*v));
    }
    out
}

/// The canonical serialized form of a record, before any highlighting.
pub fn serialize_entry(e: &Entry) -> (r: String)
    ensures
        r@ == spec_entry(*e),
{
    let mut out = String::new();
    entry_push(e, &mut out);
    proof {
        assert(out@ =~= spec_entry(*e));
    }
    out
}

} // verus!
