//! The canonical display form of GQL values: dates as `YYYY-MM-DD`,
//! durations as `P<months>MT<sec>.<nanos>S`, nodes as `(:Label {k: v})`,
//! and so on.
//!
//! Each writer appends its rendering to an output string and is specified
//! against a spec function that gives the exact character sequence.

use vstd::prelude::*;

use crate::temporal::{Date, Duration, LocalTime};
use crate::util::{spec_dec, u64_to_string};
use crate::value::{Edge, Field, Node, Path, Record, Value};

verus! {

broadcast use vstd::std_specs::vec::group_vec_axioms;

// ============================================================================
// Digits, padding, hex
// ============================================================================

/// The hexadecimal digit character of `d` (lowercase).
pub open spec fn spec_hex_digit(d: nat) -> char {
    if d < 10 {
        crate::util::spec_digit_char(d)
    } else if d == 10 {
        'a'
    } else if d == 11 {
        'b'
    } else if d == 12 {
        'c'
    } else if d == 13 {
        'd'
    } else if d == 14 {
        'e'
    } else {
        'f'
    }
}

/// The two hex digits of one byte.
pub open spec fn spec_hex_byte(b: u8) -> Seq<char> {
    seq![spec_hex_digit((b / 16) as nat), spec_hex_digit((b % 16) as nat)]
}

/// The lowercase hex encoding of a byte string, two digits per byte.
pub open spec fn spec_hex_bytes(bs: Seq<u8>) -> Seq<char>
    decreases bs.len(),
{
    if bs.len() == 0 {
        Seq::empty()
    } else {
        spec_hex_byte(bs[0]) + spec_hex_bytes(bs.drop_first())
    }
}

/// `s` left-padded with zeros to at least `width` characters.
pub open spec fn spec_zero_pad(s: Seq<char>, width: nat) -> Seq<char>
    decreases width,
{
    if s.len() >= width {
        s
    } else {
        spec_zero_pad(seq!['0'] + s, (width - 1) as nat)
    }
}

/// The decimal rendering of `n` zero-padded to `width`.
pub open spec fn spec_padded(n: nat, width: nat) -> Seq<char> {
    spec_zero_pad(spec_dec(n), width)
}

/// The decimal rendering of a signed value: a minus sign before the
/// magnitude when negative.
pub open spec fn spec_dec_signed(n: int) -> Seq<char> {
    if n >= 0 {
        spec_dec(n as nat)
    } else {
        seq!['-'] + spec_dec((-n) as nat)
    }
}

/// The one-character string of a hex digit.
fn hex_digit_str(d: u8) -> (r: &'static str)
    requires
        d < 16,
    ensures
        r@ == seq![spec_hex_digit(d as nat)],
{
    proof {
        reveal_strlit("0");
        reveal_strlit("1");
        reveal_strlit("2");
        reveal_strlit("3");
        reveal_strlit("4");
        reveal_strlit("5");
        reveal_strlit("6");
        reveal_strlit("7");
        reveal_strlit("8");
        reveal_strlit("9");
        reveal_strlit("a");
        reveal_strlit("b");
        reveal_strlit("c");
        reveal_strlit("d");
        reveal_strlit("e");
        reveal_strlit("f");
    }
    if d == 0 {
        proof {
            assert("0"@ =~= seq![spec_hex_digit(d as nat)]);
        }
        "0"
    } else if d == 1 {
        proof {
            assert("1"@ =~= seq![spec_hex_digit(d as nat)]);
        }
        "1"
    } else if d == 2 {
        proof {
            assert("2"@ =~= seq![spec_hex_digit(d as nat)]);
        }
        "2"
    } else if d == 3 {
        proof {
            assert("3"@ =~= seq![spec_hex_digit(d as nat)]);
        }
        "3"
    } else if d == 4 {
        proof {
            assert("4"@ =~= seq![spec_hex_digit(d as nat)]);
        }
        "4"
    } else if d == 5 {
        proof {
            assert("5"@ =~= seq![spec_hex_digit(d as nat)]);
        }
        "5"
    } else if d == 6 {
        proof {
            assert("6"@ =~= seq![spec_hex_digit(d as nat)]);
        }
        "6"
    } else if d == 7 {
        proof {
            assert("7"@ =~= seq![spec_hex_digit(d as nat)]);
        }
        "7"
    } else if d == 8 {
        proof {
            assert("8"@ =~= seq![spec_hex_digit(d as nat)]);
        }
        "8"
    } else if d == 9 {
        proof {
            assert("9"@ =~= seq![spec_hex_digit(d as nat)]);
        }
        "9"
    } else if d == 10 {
        proof {
            assert("a"@ =~= seq![spec_hex_digit(d as nat)]);
        }
        "a"
    } else if d == 11 {
        proof {
            assert("b"@ =~= seq![spec_hex_digit(d as nat)]);
        }
        "b"
    } else if d == 12 {
        proof {
            assert("c"@ =~= seq![spec_hex_digit(d as nat)]);
        }
        "c"
    } else if d == 13 {
        proof {
            assert("d"@ =~= seq![spec_hex_digit(d as nat)]);
        }
        "d"
    } else if d == 14 {
        proof {
            assert("e"@ =~= seq![spec_hex_digit(d as nat)]);
        }
        "e"
    } else {
        proof {
            assert("f"@ =~= seq![spec_hex_digit(d as nat)]);
        }
        "f"
    }
}

/// Hex-encode a byte vector (lowercase, no prefix), from position `i` on.
fn hex_encode_from(out: &mut String, bytes: &Vec<u8>, i: usize)
    requires
        i <= bytes@.len(),
    ensures
        final(out)@ == old(out)@ + spec_hex_bytes(bytes@.subrange(i as int, bytes@.len() as int)),
    decreases bytes@.len() - i,
{
    if i < bytes.len() {
        let b = bytes[i];
        out.append(hex_digit_str(b / 16));
        out.append(hex_digit_str(b % 16));
        hex_encode_from(out, bytes, i + 1);
        proof {
            let tail = bytes@.subrange(i as int, bytes@.len() as int);
            assert(tail[0] == bytes@[i as int]);
            assert(tail.drop_first() =~= bytes@.subrange(i as int + 1, bytes@.len() as int));
        }
    } else {
        proof {
            assert(bytes@.subrange(i as int, bytes@.len() as int) =~= Seq::<u8>::empty());
        }
    }
}

/// Hex-encode a byte vector (lowercase, no prefix).
pub fn hex_encode(bytes: &Vec<u8>) -> (r: String)
    ensures
        r@ == spec_hex_bytes(bytes@),
{
    let mut out = String::new();
    proof {
        assert(bytes@.subrange(0, bytes@.len() as int) =~= bytes@);
    }
    hex_encode_from(&mut out, bytes, 0);
    out
}

/// Append the decimal rendering of `n`, zero-padded to `width`.
fn write_padded(out: &mut String, n: u64, width: usize)
    ensures
        final(out)@ == old(out)@ + spec_padded(n as nat, width as nat),
    decreases width,
{
    let digits = u64_to_string(n);
    if digits.as_str().unicode_len() >= width {
        out.append(digits.as_str());
        proof {
            assert(spec_padded(n as nat, width as nat) == spec_dec(n as nat));
        }
    } else {
        // left-pad by rendering into a scratch string first
        let mut padded = pad_left_zeros(digits, width);
        out.append(padded.as_str());
    }
}

/// Left-pad a digit string with zeros to `width`.
fn pad_left_zeros(s: String, width: usize) -> (r: String)
    ensures
        r@ == spec_zero_pad(s@, width as nat),
    decreases width,
{
    if s.as_str().unicode_len() >= width {
        s
    } else {
        let mut z = "0".to_owned();
        z.append(s.as_str());
        proof {
            reveal_strlit("0");
            assert(z@ =~= seq!['0'] + s@);
        }
        pad_left_zeros(z, width - 1)
    }
}

// ============================================================================
// The display form
// ============================================================================

/// The display form of a UTC offset: `+HH:MM` or `-HH:MM`.
pub open spec fn spec_display_offset(offset_minutes: i32) -> Seq<char> {
    let sign: Seq<char> = if offset_minutes >= 0 {
        seq!['+']
    } else {
        seq!['-']
    };
    let abs = if offset_minutes >= 0 {
        offset_minutes as nat
    } else {
        (-(offset_minutes as int)) as nat
    };
    sign + spec_padded(abs / 60, 2) + seq![':'] + spec_padded(abs % 60, 2)
}

/// The display form of a time: `HH:MM:SS`, fractional seconds when present,
/// then the offset when given.
pub open spec fn spec_display_time(t: LocalTime, offset: Option<i32>) -> Seq<char> {
    spec_padded(t.hour as nat, 2) + seq![':'] + spec_padded(t.minute as nat, 2) + seq![':']
        + spec_padded(t.second as nat, 2) + (if t.nanosecond > 0 {
        seq!['.'] + spec_padded(t.nanosecond as nat, 9)
    } else {
        Seq::empty()
    }) + (match offset {
        Some(off) => spec_display_offset(off),
        None => Seq::empty(),
    })
}

/// The display form of a date: `YYYY-MM-DD`, the year sign first when
/// negative.
pub open spec fn spec_display_date(d: Date) -> Seq<char> {
    (if d.year >= 0 {
        spec_padded(d.year as nat, 4)
    } else {
        seq!['-'] + spec_zero_pad(spec_dec((-(d.year as int)) as nat), 3)
    }) + seq!['-'] + spec_padded(d.month as nat, 2) + seq!['-'] + spec_padded(d.day as nat, 2)
}

/// The display form of a datetime: the date, `T`, then the time.
pub open spec fn spec_display_datetime(d: Date, t: LocalTime, offset: Option<i32>) -> Seq<char> {
    spec_display_date(d) + seq!['T'] + spec_display_time(t, offset)
}

/// The seconds of a nanosecond count, truncated toward zero.
pub open spec fn spec_trunc_secs(n: i64) -> int {
    if n >= 0 {
        n / 1000000000
    } else {
        -((-(n as int)) / 1000000000)
    }
}

/// The sub-second remainder of a nanosecond count, with the sign of `n`.
pub open spec fn spec_trunc_nanos(n: i64) -> int {
    n - 1000000000 * spec_trunc_secs(n)
}

/// The display form of a duration: `P`, the months when present, and the
/// seconds when present or the duration is zero.
pub open spec fn spec_display_duration(d: Duration) -> Seq<char> {
    seq!['P'] + (if d.months != 0 {
        spec_dec_signed(d.months as int) + seq!['M']
    } else {
        Seq::empty()
    }) + (if d.nanoseconds != 0 || d.months == 0 {
        seq!['T'] + spec_dec_signed(spec_trunc_secs(d.nanoseconds)) + (if spec_trunc_nanos(
            d.nanoseconds,
        ) == 0 {
            seq!['S']
        } else {
            seq!['.'] + spec_padded(
                (if spec_trunc_nanos(d.nanoseconds) >= 0 {
                    spec_trunc_nanos(d.nanoseconds)
                } else {
                    -spec_trunc_nanos(d.nanoseconds)
                }) as nat,
                9,
            ) + seq!['S']
        })
    } else {
        Seq::empty()
    })
}

/// Append the display form of a UTC offset in `+HH:MM` or `-HH:MM`.
pub fn write_offset(out: &mut String, offset_minutes: i32)
    ensures
        final(out)@ == old(out)@ + spec_display_offset(offset_minutes),
{
    let abs: u32 = if offset_minutes >= 0 {
        offset_minutes as u32
    } else if offset_minutes == i32::MIN {
        2147483648u32
    } else {
        (-offset_minutes) as u32
    };
    if offset_minutes >= 0 {
        out.append("+");
        proof {
            reveal_strlit("+");
        }
    } else {
        out.append("-");
        proof {
            reveal_strlit("-");
        }
    }
    write_padded(out, (abs / 60) as u64, 2);
    out.append(":");
    proof {
        reveal_strlit(":");
    }
    write_padded(out, (abs % 60) as u64, 2);
}

/// Append the display form of a time, with its offset when given.
pub fn write_time(out: &mut String, t: &LocalTime, offset: Option<i32>)
    ensures
        final(out)@ == old(out)@ + spec_display_time(*t, offset),
{
    proof {
        reveal_strlit(":");
        reveal_strlit(".");
    }
    write_padded(out, t.hour as u64, 2);
    out.append(":");
    write_padded(out, t.minute as u64, 2);
    out.append(":");
    write_padded(out, t.second as u64, 2);
    if t.nanosecond > 0 {
        out.append(".");
        write_padded(out, t.nanosecond as u64, 9);
    }
    match offset {
        Some(off) => write_offset(out, off),
        None => {},
    }
}

/// Append the display form of a date.
pub fn write_date(out: &mut String, d: &Date)
    ensures
        final(out)@ == old(out)@ + spec_display_date(*d),
{
    proof {
        reveal_strlit("-");
    }
    if d.year >= 0 {
        write_padded(out, d.year as u64, 4);
    } else {
        out.append("-");
        let mag: u64 = if d.year == i32::MIN {
            2147483648u64
        } else {
            (-(d.year as i64)) as u64
        };
        let digits = u64_to_string(mag);
        let padded = pad_left_zeros(digits, 3);
        out.append(padded.as_str());
    }
    out.append("-");
    write_padded(out, d.month as u64, 2);
    out.append("-");
    write_padded(out, d.day as u64, 2);
}

/// Append the display form of a datetime, with its offset when given.
pub fn write_datetime(out: &mut String, d: &Date, t: &LocalTime, offset: Option<i32>)
    ensures
        final(out)@ == old(out)@ + spec_display_datetime(*d, *t, offset),
{
    write_date(out, d);
    out.append("T");
    proof {
        reveal_strlit("T");
    }
    write_time(out, t, offset);
}

/// Append the decimal rendering of a signed value.
fn write_signed(out: &mut String, n: i64)
    ensures
        final(out)@ == old(out)@ + spec_dec_signed(n as int),
{
    let digits = crate::util::i64_to_string(n);
    out.append(digits.as_str());
}

/// Append the display form of a duration.
pub fn write_duration(out: &mut String, d: &Duration)
    ensures
        final(out)@ == old(out)@ + spec_display_duration(*d),
{
    proof {
        reveal_strlit("P");
        reveal_strlit("M");
        reveal_strlit("T");
        reveal_strlit("S");
        reveal_strlit(".");
    }
    out.append("P");
    if d.months != 0 {
        write_signed(out, d.months);
        out.append("M");
    }
    if d.nanoseconds != 0 || d.months == 0 {
        let secs: i64 = d.nanoseconds / 1000000000;
        let nanos: i64 = d.nanoseconds % 1000000000;
        proof {
            assert(secs == spec_trunc_secs(d.nanoseconds));
            assert(nanos == spec_trunc_nanos(d.nanoseconds));
        }
        out.append("T");
        write_signed(out, secs);
        if nanos == 0 {
            out.append("S");
        } else {
            out.append(".");
            let mag: u64 = if nanos >= 0 {
                nanos as u64
            } else {
                (-nanos) as u64
            };
            write_padded(out, mag, 9);
            out.append("S");
        }
    }
}

// ============================================================================
// Value display
// ============================================================================

/// The lowercase hex digits of `n`.
pub open spec fn spec_hex_u64(n: nat) -> Seq<char>
    decreases n,
{
    if n < 16 {
        seq![spec_hex_digit(n)]
    } else {
        spec_hex_u64(n / 16) + seq![spec_hex_digit(n % 16)]
    }
}

/// Render a u64 in lowercase hex.
fn u64_to_hex(n: u64) -> (r: String)
    ensures
        r@ == spec_hex_u64(n as nat),
    decreases n,
{
    if n < 16 {
        hex_digit_str(n as u8).to_owned()
    } else {
        let mut s = u64_to_hex(n / 16);
        s.append(hex_digit_str((n % 16) as u8));
        s
    }
}

/// The display form of a value.
pub open spec fn spec_display_value(v: Value) -> Seq<char>
    decreases v, 0int,
    via spec_display_value_decreases
{
    match v {
        Value::Null => "NULL"@,
        Value::Boolean(b) => if b {
            "true"@
        } else {
            "false"@
        },
        Value::Integer(i) => spec_dec_signed(i as int),
        Value::UnsignedInteger(u) => spec_dec(u as nat),
        Value::Float(bits) => "Float(0x"@ + spec_zero_pad(spec_hex_u64(bits as nat), 16) + ")"@,
        Value::String(s) => s@,
        Value::Bytes(b) => "0x"@ + spec_hex_bytes(b@),
        Value::Date(d) => spec_display_date(d),
        Value::LocalTime(t) => spec_display_time(t, None),
        Value::ZonedTime(t) => spec_display_time(t.time, Some(t.offset_minutes)),
        Value::LocalDateTime(t) => spec_display_datetime(t.date, t.time, None),
        Value::ZonedDateTime(t) => spec_display_datetime(t.date, t.time, Some(t.offset_minutes)),
        Value::Duration(d) => spec_display_duration(d),
        Value::List(elems) => "["@ + spec_display_list_from(elems@, 0) + "]"@,
        Value::Record(r) => "{"@ + spec_display_fields_from(r.fields@, 0) + "}"@,
        Value::Node(n) => spec_display_node(n),
        Value::Edge(e) => spec_display_edge(e),
        Value::Path(p) => spec_display_path_from(p, 0),
        Value::Decimal { unscaled, scale } => "Decimal(0x"@ + spec_hex_bytes(unscaled@)
            + ", scale="@ + spec_dec_signed(scale as int) + ")"@,
        Value::BigInteger { value, is_signed } => "BigInteger(0x"@ + spec_hex_bytes(value@) + ", "@
            + (if is_signed {
            "signed"@
        } else {
            "unsigned"@
        }) + ")"@,
        Value::BigFloat { value, width } => "BigFloat(0x"@ + spec_hex_bytes(value@) + ", "@
            + spec_dec(width as nat) + "bit)"@,
    }
}

/// The display form of the list elements from position `i` on, separated
/// by commas.
pub open spec fn spec_display_list_from(elems: Seq<Value>, i: int) -> Seq<char>
    decreases elems, elems.len() - i,
    via spec_display_list_from_decreases
{
    if i < 0 || i >= elems.len() {
        Seq::empty()
    } else {
        (if i > 0 {
            ", "@
        } else {
            Seq::empty()
        }) + spec_display_value(elems[i]) + spec_display_list_from(elems, i + 1)
    }
}

/// The display form of record fields from position `i` on: `name: value`,
/// separated by commas.
pub open spec fn spec_display_fields_from(fields: Seq<Field>, i: int) -> Seq<char>
    decreases fields, fields.len() - i,
    via spec_display_fields_from_decreases
{
    if i < 0 || i >= fields.len() {
        Seq::empty()
    } else {
        (if i > 0 {
            ", "@
        } else {
            Seq::empty()
        }) + fields[i].name@ + ": "@ + spec_display_value(fields[i].value)
            + spec_display_fields_from(fields, i + 1)
    }
}

/// The display form of properties from position `i` on: `name: value`,
/// separated by commas.
pub open spec fn spec_display_props_from(props: Seq<(String, Value)>, i: int) -> Seq<char>
    decreases props, props.len() - i,
    via spec_display_props_from_decreases
{
    if i < 0 || i >= props.len() {
        Seq::empty()
    } else {
        (if i > 0 {
            ", "@
        } else {
            Seq::empty()
        }) + props[i].0@ + ": "@ + spec_display_value(props[i].1) + spec_display_props_from(
            props,
            i + 1,
        )
    }
}

/// The display form of labels from position `i` on, separated by colons.
pub open spec fn spec_display_labels_from(labels: Seq<String>, i: int) -> Seq<char>
    decreases labels.len() - i,
{
    if i < 0 || i >= labels.len() {
        Seq::empty()
    } else {
        (if i > 0 {
            ":"@
        } else {
            Seq::empty()
        }) + labels[i]@ + spec_display_labels_from(labels, i + 1)
    }
}

/// The property block of a node or edge: empty when there are no
/// properties, else ` {name: value, ...}`.
pub open spec fn spec_display_prop_block(props: Seq<(String, Value)>) -> Seq<char>
    decreases props, props.len() + 1,
    via spec_display_prop_block_decreases
{
    if props.len() == 0 {
        Seq::empty()
    } else {
        " {"@ + spec_display_props_from(props, 0) + "}"@
    }
}

/// The display form of a node: `(:Label {k: v, ...})`.
pub open spec fn spec_display_node(n: Node) -> Seq<char>
    decreases n, 0int,
    via spec_display_node_decreases
{
    "(:"@ + spec_display_labels_from(n.labels@, 0) + spec_display_prop_block(n.properties@)
        + ")"@
}

/// The display form of an edge: `[:Label {k: v, ...}]` with its arrow.
pub open spec fn spec_display_edge(e: Edge) -> Seq<char>
    decreases e, 0int,
    via spec_display_edge_decreases
{
    "[:"@ + spec_display_labels_from(e.labels@, 0) + spec_display_prop_block(e.properties@) + "]"@
        + (if e.undirected {
        "-"@
    } else {
        "->"@
    })
}

/// The display form of a path from node `i` on: nodes joined by their
/// edges.
pub open spec fn spec_display_path_from(p: Path, i: int) -> Seq<char>
    decreases p, p.nodes@.len() - i,
    via spec_display_path_from_decreases
{
    if i < 0 || i >= p.nodes@.len() {
        Seq::empty()
    } else {
        (if i > 0 && i - 1 < p.edges@.len() {
            "-"@ + spec_display_edge(p.edges@[i - 1]) + "-"@
        } else {
            Seq::empty()
        }) + spec_display_node(p.nodes@[i]) + spec_display_path_from(p, i + 1)
    }
}

#[via_fn]
proof fn spec_display_value_decreases(v: Value) {
    broadcast use vstd::seq::axiom_seq_index_decreases;

    match v {
        Value::List(elems) => {
            assert(decreases_to!(v => elems));
            assert(decreases_to!(elems => elems@));
        },
        Value::Record(r) => {
            assert(decreases_to!(v => r));
            assert(decreases_to!(r => r.fields));
            assert(decreases_to!(r.fields => r.fields@));
        },
        Value::Node(n) => {
            assert(decreases_to!(v => n));
        },
        Value::Edge(e) => {
            assert(decreases_to!(v => e));
        },
        Value::Path(p) => {
            assert(decreases_to!(v => p));
        },
        _ => {},
    }
}

#[via_fn]
proof fn spec_display_list_from_decreases(elems: Seq<Value>, i: int) {
    broadcast use vstd::seq::axiom_seq_index_decreases;

    if 0 <= i < elems.len() {
        assert(decreases_to!(elems => elems[i]));
    }
}

#[via_fn]
proof fn spec_display_fields_from_decreases(fields: Seq<Field>, i: int) {
    broadcast use vstd::seq::axiom_seq_index_decreases;

    if 0 <= i < fields.len() {
        assert(decreases_to!(fields => fields[i]));
        assert(decreases_to!(fields[i] => fields[i].value));
    }
}

#[via_fn]
proof fn spec_display_props_from_decreases(props: Seq<(String, Value)>, i: int) {
    broadcast use vstd::seq::axiom_seq_index_decreases;

    if 0 <= i < props.len() {
        assert(decreases_to!(props => props[i]));
        assert(decreases_to!(props[i] => props[i].1));
    }
}

#[via_fn]
proof fn spec_display_prop_block_decreases(props: Seq<(String, Value)>) {
}

#[via_fn]
proof fn spec_display_node_decreases(n: Node) {
    assert(decreases_to!(n => n.properties));
    assert(decreases_to!(n.properties => n.properties@));
}

#[via_fn]
proof fn spec_display_edge_decreases(e: Edge) {
    assert(decreases_to!(e => e.properties));
    assert(decreases_to!(e.properties => e.properties@));
}

#[via_fn]
proof fn spec_display_path_from_decreases(p: Path, i: int) {
    broadcast use vstd::seq::axiom_seq_index_decreases;

    if 0 <= i < p.nodes@.len() {
        assert(decreases_to!(p => p.nodes));
        assert(decreases_to!(p.nodes => p.nodes@));
        assert(decreases_to!(p.nodes@ => p.nodes@[i]));
        if i > 0 && i - 1 < p.edges@.len() {
            assert(decreases_to!(p => p.edges));
            assert(decreases_to!(p.edges => p.edges@));
            assert(decreases_to!(p.edges@ => p.edges@[i - 1]));
        }
    }
}

/// Append the display form of a value.
pub fn write_value(out: &mut String, v: &Value)
    ensures
        final(out)@ == old(out)@ + spec_display_value(*v),
    decreases *v, 0int,
{
    match v {
        Value::Null => {
            out.append("NULL");
        },
        Value::Boolean(b) => {
            if *b {
                out.append("true");
            } else {
                out.append("false");
            }
        },
        Value::Integer(i) => {
            let digits = crate::util::i64_to_string(*i);
            out.append(digits.as_str());
        },
        Value::UnsignedInteger(u) => {
            let digits = u64_to_string(*u);
            out.append(digits.as_str());
        },
        Value::Float(bits) => {
            out.append("Float(0x");
            let hex = u64_to_hex(*bits);
            let padded = pad_left_zeros(hex, 16);
            out.append(padded.as_str());
            out.append(")");
        },
        Value::String(s) => {
            out.append(s.as_str());
        },
        Value::Bytes(b) => {
            out.append("0x");
            let hex = hex_encode(b);
            out.append(hex.as_str());
        },
        Value::Date(d) => {
            write_date(out, d);
        },
        Value::LocalTime(t) => {
            write_time(out, t, None);
        },
        Value::ZonedTime(t) => {
            write_time(out, &t.time, Some(t.offset_minutes));
        },
        Value::LocalDateTime(t) => {
            write_datetime(out, &t.date, &t.time, None);
        },
        Value::ZonedDateTime(t) => {
            write_datetime(out, &t.date, &t.time, Some(t.offset_minutes));
        },
        Value::Duration(d) => {
            write_duration(out, d);
        },
        Value::List(elems) => {
            proof {
                assert(decreases_to!(*v => *elems));
                assert(decreases_to!(*elems => elems@));
            }
            out.append("[");
            write_list_from(out, elems, 0);
            out.append("]");
        },
        Value::Record(r) => {
            proof {
                assert(decreases_to!(*v => *r));
                assert(decreases_to!(*r => r.fields));
                assert(decreases_to!(r.fields => r.fields@));
            }
            out.append("{");
            write_fields_from(out, &r.fields, 0);
            out.append("}");
        },
        Value::Node(n) => {
            proof {
                assert(decreases_to!(*v => *n));
            }
            write_node(out, n);
        },
        Value::Edge(e) => {
            proof {
                assert(decreases_to!(*v => *e));
            }
            write_edge(out, e);
        },
        Value::Path(p) => {
            proof {
                assert(decreases_to!(*v => *p));
            }
            write_path(out, p);
        },
        Value::Decimal { unscaled, scale } => {
            out.append("Decimal(0x");
            let hex = hex_encode(unscaled);
            out.append(hex.as_str());
            out.append(", scale=");
            let digits = i32_to_string(*scale);
            out.append(digits.as_str());
            out.append(")");
        },
        Value::BigInteger { value, is_signed } => {
            out.append("BigInteger(0x");
            let hex = hex_encode(value);
            out.append(hex.as_str());
            out.append(", ");
            if *is_signed {
                out.append("signed");
            } else {
                out.append("unsigned");
            }
            out.append(")");
        },
        Value::BigFloat { value, width } => {
            out.append("BigFloat(0x");
            let hex = hex_encode(value);
            out.append(hex.as_str());
            out.append(", ");
            let digits = u64_to_string(*width as u64);
            out.append(digits.as_str());
            out.append("bit)");
        },
    }
}

/// Render a signed 32-bit value in decimal.
fn i32_to_string(n: i32) -> (r: String)
    ensures
        r@ == spec_dec_signed(n as int),
{
    crate::util::i64_to_string(n as i64)
}

/// Append the list elements from position `i` on, separated by commas.
fn write_list_from(out: &mut String, elems: &Vec<Value>, i: usize)
    ensures
        final(out)@ == old(out)@ + spec_display_list_from(elems@, i as int),
    decreases *elems, elems@.len() - i,
{
    if i < elems.len() {
        if i > 0 {
            out.append(", ");
        }
        proof {
            broadcast use vstd::seq::axiom_seq_index_decreases;

            assert(decreases_to!(*elems => elems@));
            assert(decreases_to!(elems@ => elems@[i as int]));
        }
        write_value(out, &elems[i]);
        write_list_from(out, elems, i + 1);
    }
}

/// Append the record fields from position `i` on: `name: value`, separated
/// by commas.
fn write_fields_from(out: &mut String, fields: &Vec<Field>, i: usize)
    ensures
        final(out)@ == old(out)@ + spec_display_fields_from(fields@, i as int),
    decreases *fields, fields@.len() - i,
{
    if i < fields.len() {
        if i > 0 {
            out.append(", ");
        }
        out.append(fields[i].name.as_str());
        out.append(": ");
        proof {
            broadcast use vstd::seq::axiom_seq_index_decreases;

            assert(decreases_to!(*fields => fields@));
            assert(decreases_to!(fields@ => fields@[i as int]));
            assert(decreases_to!(fields@[i as int] => fields@[i as int].value));
        }
        write_value(out, &fields[i].value);
        write_fields_from(out, fields, i + 1);
    }
}

/// Append the properties from position `i` on: `name: value`, separated by
/// commas.
fn write_props_from(out: &mut String, props: &Vec<(String, Value)>, i: usize)
    ensures
        final(out)@ == old(out)@ + spec_display_props_from(props@, i as int),
    decreases *props, props@.len() - i,
{
    if i < props.len() {
        if i > 0 {
            out.append(", ");
        }
        out.append(props[i].0.as_str());
        out.append(": ");
        proof {
            broadcast use vstd::seq::axiom_seq_index_decreases;

            assert(decreases_to!(*props => props@));
            assert(decreases_to!(props@ => props@[i as int]));
            assert(decreases_to!(props@[i as int] => props@[i as int].1));
        }
        write_value(out, &props[i].1);
        write_props_from(out, props, i + 1);
    }
}

/// Append the labels from position `i` on, separated by colons.
fn write_labels_from(out: &mut String, labels: &Vec<String>, i: usize)
    ensures
        final(out)@ == old(out)@ + spec_display_labels_from(labels@, i as int),
    decreases labels@.len() - i,
{
    if i < labels.len() {
        if i > 0 {
            out.append(":");
        }
        out.append(labels[i].as_str());
        write_labels_from(out, labels, i + 1);
    }
}

/// Append the labels of a node or edge, separated by colons.
pub fn write_labels(out: &mut String, labels: &Vec<String>)
    ensures
        final(out)@ == old(out)@ + spec_display_labels_from(labels@, 0),
{
    write_labels_from(out, labels, 0);
}

/// Append the property block: empty without properties, else
/// ` {name: value, ...}`.
fn write_prop_block(out: &mut String, props: &Vec<(String, Value)>)
    ensures
        final(out)@ == old(out)@ + spec_display_prop_block(props@),
    decreases *props, props@.len() + 1,
{
    if props.len() > 0 {
        out.append(" {");
        write_props_from(out, props, 0);
        out.append("}");
    }
}

/// Append the display form of a node: `(:Label {k: v, ...})`.
pub fn write_node(out: &mut String, n: &Node)
    ensures
        final(out)@ == old(out)@ + spec_display_node(*n),
    decreases *n, 0int,
{
    proof {
        assert(decreases_to!(*n => n.properties));
        assert(decreases_to!(n.properties => n.properties@));
    }
    out.append("(:");
    write_labels_from(out, &n.labels, 0);
    write_prop_block(out, &n.properties);
    out.append(")");
}

/// Append the display form of an edge: `[:Label {k: v, ...}]` and its
/// arrow.
pub fn write_edge(out: &mut String, e: &Edge)
    ensures
        final(out)@ == old(out)@ + spec_display_edge(*e),
    decreases *e, 0int,
{
    proof {
        assert(decreases_to!(*e => e.properties));
        assert(decreases_to!(e.properties => e.properties@));
    }
    out.append("[:");
    write_labels_from(out, &e.labels, 0);
    write_prop_block(out, &e.properties);
    out.append("]");
    if e.undirected {
        out.append("-");
    } else {
        out.append("->");
    }
}

/// Append the display form of a path from node `i` on.
fn write_path_from(out: &mut String, p: &Path, i: usize)
    ensures
        final(out)@ == old(out)@ + spec_display_path_from(*p, i as int),
    decreases *p, p.nodes@.len() - i,
{
    if i < p.nodes.len() {
        proof {
            broadcast use vstd::seq::axiom_seq_index_decreases;

            assert(decreases_to!(*p => p.nodes));
            assert(decreases_to!(p.nodes => p.nodes@));
            assert(decreases_to!(p.nodes@ => p.nodes@[i as int]));
            assert(decreases_to!(*p => p.edges));
            assert(decreases_to!(p.edges => p.edges@));
        }
        if i > 0 && i - 1 < p.edges.len() {
            proof {
                assert(decreases_to!(p.edges@ => p.edges@[i as int - 1]));
            }
            out.append("-");
            write_edge(out, &p.edges[i - 1]);
            out.append("-");
        }
        write_node(out, &p.nodes[i]);
        write_path_from(out, p, i + 1);
    }
}

/// Append the display form of a path: its nodes joined by their edges.
pub fn write_path(out: &mut String, p: &Path)
    ensures
        final(out)@ == old(out)@ + spec_display_path_from(*p, 0),
    decreases *p, p.nodes@.len() + 1,
{
    write_path_from(out, p, 0);
}

/// Append the record's display form: `{name: value, ...}`.
pub fn write_record(out: &mut String, r: &Record)
    ensures
        final(out)@ == old(out)@ + "{"@ + spec_display_fields_from(r.fields@, 0) + "}"@,
    decreases *r, 0int,
{
    proof {
        assert(decreases_to!(*r => r.fields));
        assert(decreases_to!(r.fields => r.fields@));
    }
    out.append("{");
    write_fields_from(out, &r.fields, 0);
    out.append("}");
}

impl Value {
    /// The canonical display form of this value.
    pub fn display_string(&self) -> (r: String)
        ensures
            r@ == spec_display_value(*self),
    {
        let mut out = String::new();
        write_value(&mut out, self);
        out
    }
}

} // verus!
