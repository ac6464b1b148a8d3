//! The text of the output document: a JSON array with one object for each
//! exported record, written without white space.
//!
//! The members of an object stand in the order of their names: `date`, `from`,
//! `from_me`, `id`, `text`, `to`.  A missing text or identifier is written as
//! `null`.

use vstd::prelude::*;
use vstd::string::*;
use crate::handles::text_of;
use crate::messages::{records_view, OutputRecord, RecordView};
use crate::outside::json_string_literal;

verus! {

/// The decimal digit `d`, for `d` from 0 to 9.
pub open spec fn digit(d: int) -> Seq<char> {
    if d == 0 {
        "0"@
    } else if d == 1 {
        "1"@
    } else if d == 2 {
        "2"@
    } else if d == 3 {
        "3"@
    } else if d == 4 {
        "4"@
    } else if d == 5 {
        "5"@
    } else if d == 6 {
        "6"@
    } else if d == 7 {
        "7"@
    } else if d == 8 {
        "8"@
    } else {
        "9"@
    }
}

/// A natural number in decimal, without leading zeros.
pub open spec fn decimal_of_nat(n: nat) -> Seq<char>
    decreases n,
{
    if n < 10 {
        digit(n as int)
    } else {
        decimal_of_nat(n / 10) + digit((n % 10) as int)
    }
}

/// An integer in decimal, with a minus sign where it is negative.
pub open spec fn decimal(n: int) -> Seq<char> {
    if n < 0 {
        "-"@ + decimal_of_nat((-n) as nat)
    } else {
        decimal_of_nat(n as nat)
    }
}

/// The digit of value `n` in lower-case hexadecimal, for `n` from 0 to 15.
pub open spec fn hex_digit(n: int) -> char {
    seq!['0', '1', '2', '3', '4', '5', '6', '7', '8', '9', 'a', 'b', 'c', 'd', 'e', 'f'][n]
}

/// How one character stands inside a JSON string.
///
/// The quotation mark and the backslash get a backslash in front.  The control
/// characters below the space are written as an escape: the short forms for
/// backspace, form feed, line feed, carriage return and tab, and four
/// hexadecimal digits after `\u` for the others.  Every other character stands
/// for itself.
pub open spec fn escaped_char(c: char) -> Seq<char> {
    if c == '"' {
        seq!['\\', '"']
    } else if c == '\\' {
        seq!['\\', '\\']
    } else if c == '\u{8}' {
        seq!['\\', 'b']
    } else if c == '\u{c}' {
        seq!['\\', 'f']
    } else if c == '\n' {
        seq!['\\', 'n']
    } else if c == '\r' {
        seq!['\\', 'r']
    } else if c == '\t' {
        seq!['\\', 't']
    } else if (c as int) < 0x20 {
        seq!['\\', 'u', '0', '0', hex_digit((c as int) / 16), hex_digit((c as int) % 16)]
    } else {
        seq![c]
    }
}

/// The characters of `s` as they stand inside a JSON string.
pub open spec fn escaped(s: Seq<char>) -> Seq<char>
    decreases s.len(),
{
    if s.len() == 0 {
        Seq::empty()
    } else {
        escaped(s.drop_last()) + escaped_char(s.last())
    }
}

/// The JSON string that holds `s`: its escaped characters between quotation
/// marks.
pub open spec fn json_string(s: Seq<char>) -> Seq<char> {
    seq!['"'] + escaped(s) + seq!['"']
}

/// The JSON value of an optional string: the string, or `null`.
pub open spec fn json_optional_string(s: Option<Seq<char>>) -> Seq<char> {
    match s {
        Some(s) => json_string(s),
        None => "null"@,
    }
}

/// The JSON value of a truth value.
pub open spec fn json_bool(b: bool) -> Seq<char> {
    if b {
        "true"@
    } else {
        "false"@
    }
}

/// The JSON object of one record.
pub open spec fn json_record(record: RecordView) -> Seq<char> {
    "{\"date\":"@ + decimal(record.date) + ",\"from\":"@ + json_optional_string(record.from)
        + ",\"from_me\":"@ + json_bool(record.from_me) + ",\"id\":"@ + decimal(record.id)
        + ",\"text\":"@ + json_optional_string(record.text) + ",\"to\":"@ + json_optional_string(
        record.to,
    ) + "}"@
}

/// The JSON objects of the records, with a comma between each two.
pub open spec fn json_records(records: Seq<RecordView>) -> Seq<char>
    decreases records.len(),
{
    if records.len() == 0 {
        Seq::empty()
    } else if records.len() == 1 {
        json_record(records[0])
    } else {
        json_records(records.drop_last()) + ","@ + json_record(records.last())
    }
}

/// The output document: the records as a JSON array, in order.
pub open spec fn json_document(records: Seq<RecordView>) -> Seq<char> {
    "["@ + json_records(records) + "]"@
}

/// One decimal digit as text.
fn digit_str(d: u64) -> (s: &'static str)
    requires
        d < 10,
    ensures
        s@ == digit(d as int),
{
    if d == 0 {
        "0"
    } else if d == 1 {
        "1"
    } else if d == 2 {
        "2"
    } else if d == 3 {
        "3"
    } else if d == 4 {
        "4"
    } else if d == 5 {
        "5"
    } else if d == 6 {
        "6"
    } else if d == 7 {
        "7"
    } else if d == 8 {
        "8"
    } else {
        "9"
    }
}

/// Writes a natural number in decimal.
fn decimal_of_u64(n: u64) -> (text: String)
    ensures
        text@ == decimal_of_nat(n as nat),
    decreases n,
{
    if n < 10 {
        String::from_str(digit_str(n))
    } else {
        decimal_of_u64(n / 10).concat(digit_str(n % 10))
    }
}

/// Writes an integer in decimal.
pub fn decimal_text(n: i64) -> (text: String)
    ensures
        text@ == decimal(n as int),
{
    if n < 0 {
        let magnitude: u64 = (-(n + 1)) as u64 + 1;
        String::from_str("-").concat(decimal_of_u64(magnitude).as_str())
    } else {
        decimal_of_u64(n as u64)
    }
}

/// Writes an optional string as a JSON value.
pub fn optional_string_text(s: &Option<String>) -> (text: String)
    ensures
        text@ == json_optional_string(text_of(*s)),
{
    match s {
        Some(s) => json_string_literal(s.as_str()).unwrap(),
        None => String::from_str("null"),
    }
}

/// Writes one record as a JSON object.
pub fn record_text(record: &OutputRecord) -> (text: String)
    ensures
        text@ == json_record(record@),
{
    let mut text = String::from_str("{\"date\":");
    text.append(decimal_text(record.date).as_str());
    text.append(",\"from\":");
    text.append(optional_string_text(&record.from).as_str());
    text.append(",\"from_me\":");
    text.append(
        if record.from_me {
            "true"
        } else {
            "false"
        },
    );
    text.append(",\"id\":");
    text.append(decimal_text(record.id).as_str());
    text.append(",\"text\":");
    text.append(optional_string_text(&record.text).as_str());
    text.append(",\"to\":");
    text.append(optional_string_text(&record.to).as_str());
    text.append("}");
    text
}

/// Writes the output document for the records: a JSON array, `[]` where there
/// is no record.
pub fn document_text(records: &Vec<OutputRecord>) -> (text: String)
    ensures
        text@ == json_document(records_view(records@)),
{
    let mut text = String::from_str("[");
    let mut i: usize = 0;
    while i < records.len()
        invariant
            i <= records.len(),
            text@ == "["@ + json_records(records_view(records@).take(i as int)),
        decreases records.len() - i,
    {
        let ghost upto = records_view(records@).take(i + 1);
        assert(upto.drop_last() =~= records_view(records@).take(i as int));
        assert(upto.last() == records@[i as int]@);
        if i > 0 {
            text.append(",");
        }
        text.append(record_text(&records[i]).as_str());
        assert(text@ =~= "["@ + json_records(upto));
        i += 1;
    }
    assert(records_view(records@).take(records.len() as int) =~= records_view(records@));
    text.append("]");
    text
}

} // verus!
