//! Turning one Python log record into one native event.

use vstd::prelude::*;
use crate::fields::{extracted, find_kv_args, KVSource};
use crate::flatten::{
    debug_text, failure_view, failures_of, flat_text, flatten_fields, FieldValue, FlatFields,
};
use crate::level::{get_level, level_of, Level};
use crate::target::{target_of, translate_target};

verus! {

/// The attributes of a Python `LogRecord` that dispatch reads, as plain values.
/// `lineno` is the text of the record's line number; `attributes` is the
/// record's `__dict__` in insertion order, its values left as they are.
pub struct ForeignRecord<V> {
    pub levelno: u8,
    pub message: String,
    pub pathname: String,
    pub lineno: String,
    pub name: String,
    pub attributes: Vec<(String, V)>,
}

/// Why a record could not be dispatched.
#[derive(Clone, Copy, Debug, PartialEq, Eq, Structural)]
pub enum RecordError {
    /// The line number is not the decimal text of a `u32`.
    InvalidLineNumber,
}

/// The one native event that a record becomes.
pub struct NativeEvent<F> {
    pub level: Level,
    pub target: String,
    pub message: String,
    pub file: String,
    pub line: u32,
    pub fields: Option<F>,
}

pub open spec fn is_digit(c: char) -> bool {
    '0' <= c <= '9'
}

pub open spec fn all_digits(s: Seq<char>) -> bool {
    forall|i: int| 0 <= i < s.len() ==> is_digit(#[trigger] s[i])
}

/// The number that a string of decimal digits writes.
pub open spec fn digits_value(s: Seq<char>) -> int
    decreases s.len(),
{
    if s.len() == 0 {
        0
    } else {
        digits_value(s.drop_last()) * 10 + (s.last() as int - '0' as int)
    }
}

/// The digits of a number's text: without its leading `+`, if any.
pub open spec fn unsigned_digits(s: Seq<char>) -> Seq<char> {
    if s.len() > 0 && s[0] == '+' {
        s.drop_first()
    } else {
        s
    }
}

/// The line number that the text `s` gives, as `u32`'s `from_str` reads it: an
/// optional `+`, then at least one decimal digit, with a value that fits.
pub open spec fn parsed_line(s: Seq<char>) -> Option<u32> {
    let d = unsigned_digits(s);
    if d.len() > 0 && all_digits(d) && digits_value(d) <= u32::MAX {
        Some(digits_value(d) as u32)
    } else {
        None
    }
}

proof fn lemma_digits_value_prefix(s: Seq<char>, k: int)
    requires
        all_digits(s),
        0 <= k <= s.len(),
    ensures
        0 <= digits_value(s.subrange(0, k)) <= digits_value(s),
    decreases s.len(),
{
    if k < s.len() {
        let t = s.drop_last();
        assert(all_digits(t)) by {
            assert forall|i: int| 0 <= i < t.len() implies is_digit(#[trigger] t[i]) by {
                assert(t[i] == s[i]);
            }
        }
        assert(is_digit(s[s.len() - 1]));
        lemma_digits_value_prefix(t, k);
        lemma_digits_value_prefix(t, t.len() as int);
        assert(t.subrange(0, k) =~= s.subrange(0, k));
        assert(t.subrange(0, t.len() as int) =~= t);
    } else {
        assert(s.subrange(0, k) =~= s);
        if s.len() > 0 {
            lemma_digits_value_prefix(s.drop_last(), s.len() - 1);
            assert(s.drop_last().subrange(0, s.len() - 1) =~= s.drop_last());
            assert(is_digit(s[s.len() - 1]));
        }
    }
}

/// Reads a record's line number the way `str::parse::<u32>` does.
pub fn parse_line_number(text: &str) -> (r: Option<u32>)
    ensures
        r == parsed_line(text@),
{
    let n = text.unicode_len();
    let start: usize = if n > 0 && text.get_char(0) == '+' {
        1
    } else {
        0
    };
    let ghost d = unsigned_digits(text@);
    assert(d =~= text@.subrange(start as int, n as int));
    if start == n {
        return None;
    }
    let mut i: usize = start;
    while i < n
        invariant
            start <= i <= n,
            n == text@.len(),
            d == text@.subrange(start as int, n as int),
            d == unsigned_digits(text@),
            forall|j: int| start <= j < i ==> is_digit(#[trigger] text@[j]),
        decreases n - i,
    {
        if !('0' <= text.get_char(i) && text.get_char(i) <= '9') {
            assert(!is_digit(d[i - start]));
            assert(!all_digits(d));
            return None;
        }
        i = i + 1;
    }
    assert(all_digits(d)) by {
        assert forall|j: int| 0 <= j < d.len() implies is_digit(#[trigger] d[j]) by {
            assert(d[j] == text@[start + j]);
        }
    }
    let mut value: u64 = 0;
    let mut i: usize = start;
    while i < n
        invariant
            start <= i <= n,
            n == text@.len(),
            d == text@.subrange(start as int, n as int),
            d == unsigned_digits(text@),
            all_digits(d),
            value == digits_value(d.subrange(0, i - start)),
            value <= u32::MAX,
        decreases n - i,
    {
        let c = text.get_char(i);
        let ghost upto = d.subrange(0, i - start + 1);
        assert(upto.drop_last() =~= d.subrange(0, i - start));
        assert(upto.last() == c);
        assert(is_digit(d[i - start]));
        let digit = (c as u32 - '0' as u32) as u64;
        value = value * 10 + digit;
        assert(value == digits_value(upto));
        if value > 0xFFFF_FFFF {
            proof {
                lemma_digits_value_prefix(d, i - start + 1);
                assert(digits_value(d) > u32::MAX);
            }
            return None;
        }
        i = i + 1;
    }
    assert(d.subrange(0, n - start) =~= d);
    Some(value as u32)
}

/// Dispatches one record under the configured `root` target: its level, target,
/// message, file and line and, when `with_fields` is set, the user fields found
/// after its built-in attributes. Fails exactly when the line number is not a
/// `u32`.
pub fn handle_record<V>(root: &str, record: ForeignRecord<V>, with_fields: bool) -> (r: Result<
    NativeEvent<KVSource<V>>,
    RecordError,
>)
    ensures
        parsed_line(record.lineno@) is None <==> r is Err,
        r is Err ==> r->Err_0 == RecordError::InvalidLineNumber,
        r is Ok ==> ({
            let e = r->Ok_0;
            &&& e.level == level_of(record.levelno)
            &&& e.target@ == target_of(root@, record.name@)
            &&& e.message@ == record.message@
            &&& e.file@ == record.pathname@
            &&& parsed_line(record.lineno@) == Some(e.line)
            &&& (!with_fields || extracted(record.attributes@) is None) ==> e.fields is None
            &&& (with_fields && extracted(record.attributes@) is Some) ==> (e.fields is Some
                && e.fields->Some_0.0@ == extracted(record.attributes@)->Some_0)
        }),
{
    let ForeignRecord { levelno, message, pathname, lineno, name, attributes } = record;
    let line = match parse_line_number(lineno.as_str()) {
        Some(line) => line,
        None => {
            return Err(RecordError::InvalidLineNumber);
        },
    };
    let target = translate_target(root, name.as_str());
    let level = get_level(levelno);
    let fields = if with_fields {
        find_kv_args(attributes)
    } else {
        None
    };
    Ok(NativeEvent { level, target, message, file: pathname, line, fields })
}

/// Gives a dispatched event its user fields as one JSON object text. The
/// event's fields carry each value's conversion to JSON; an event without user
/// fields gets no annotation.
pub fn flatten_event(event: NativeEvent<KVSource<FieldValue>>) -> (r: NativeEvent<FlatFields>)
    ensures
        r.level == event.level,
        r.target@ == event.target@,
        r.message@ == event.message@,
        r.file@ == event.file@,
        r.line == event.line,
        event.fields is None ==> r.fields is None,
        event.fields is Some ==> ({
            let fields = event.fields->Some_0.0@;
            let flat = r.fields->Some_0;
            &&& r.fields is Some
            &&& flat.text@ == flat_text(fields)
            &&& flat.failures@.map_values(|f| failure_view(f)) == failures_of(fields)
            &&& forall|i: int|
                0 <= i < fields.len() && (#[trigger] fields[i]).1.converted is Err
                    ==> debug_text(fields[i].1.repr@).len() > 0
        }),
{
    let NativeEvent { level, target, message, file, line, fields } = event;
    let flat = match fields {
        None => None,
        Some(KVSource(fields)) => Some(flatten_fields(fields)),
    };
    NativeEvent { level, target, message, file, line, fields: flat }
}

} // verus!
