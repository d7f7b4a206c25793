//! Flattening of a record's user fields into one JSON object text, for sinks
//! that take a single text payload per record.
//!
//! Each field arrives with the outcome of its conversion to a JSON value. A field
//! that could not be converted is kept as a JSON string holding the quoted
//! debug text of the Python value, and the failure is reported beside the text.

use vstd::prelude::*;

verus! {

#[verifier::external_type_specification]
#[verifier::external_body]
pub struct ExJsonValue(serde_json::Value);

#[verifier::external_type_specification]
#[verifier::external_body]
#[verifier::reject_recursive_types(K)]
#[verifier::reject_recursive_types(V)]
pub struct ExJsonMap<K, V>(serde_json::Map<K, V>);

/// A JSON object's map, as serde_json keeps it.
pub type JsonMap = serde_json::Map<String, serde_json::Value>;

/// What a `serde_json::Map` holds, key by key.
pub uninterp spec fn json_entries(m: JsonMap) -> Map<Seq<char>, serde_json::Value>;

/// The JSON string value holding `s`.
pub uninterp spec fn json_string(s: Seq<char>) -> serde_json::Value;

/// The compact JSON text of the object with these entries, if serde_json
/// serialises it.
pub uninterp spec fn json_object_text(entries: Map<Seq<char>, serde_json::Value>) -> Option<
    Seq<char>,
>;

/// The `Debug` text of a string: its characters, escaped, between double quotes.
pub uninterp spec fn debug_text(s: Seq<char>) -> Seq<char>;

/// Relies on `serde_json::Map::new`: the new map is empty.
#[verifier::external_body]
fn new_json_map() -> (r: JsonMap)
    ensures
        json_entries(r).dom() == Set::<Seq<char>>::empty(),
{
    serde_json::Map::new()
}

/// Relies on `serde_json::Map::insert`: `k` then maps to `v`, replacing any
/// earlier value; the other keys keep theirs.
#[verifier::external_body]
fn json_map_insert(
    m: &mut JsonMap,
    k: String,
    v: serde_json::Value,
)
    ensures
        json_entries(*final(m)) == json_entries(*old(m)).insert(k@, v),
{
    m.insert(k, v);
}

/// Relies on the `serde_json::Value::String` constructor.
#[verifier::external_body]
fn json_string_value(s: String) -> (r: serde_json::Value)
    ensures
        r == json_string(s@),
{
    serde_json::Value::String(s)
}

/// Relies on `serde_json::to_string` applied to `Value::Object`.
#[verifier::external_body]
fn json_object_to_text(m: JsonMap) -> (r: Option<String>)
    ensures
        r is None ==> json_object_text(json_entries(m)) is None,
        r is Some ==> json_object_text(json_entries(m)) == Some(r->Some_0@),
{
    serde_json::to_string(&serde_json::Value::Object(m)).ok()
}

/// Relies on `Debug` for `str`, which writes the escaped text between double
/// quotes, so the result is never empty.
#[verifier::external_body]
fn quoted_debug(s: &str) -> (r: String)
    ensures
        r@ == debug_text(s@),
        r@.len() >= 2,
{
    format!("{:?}", s)
}

/// A user field's value after its conversion to JSON: the JSON value, or why it
/// could not be converted; `repr` is the `Debug` text of the original value,
/// used when the conversion failed.
pub struct FieldValue {
    pub converted: Result<serde_json::Value, String>,
    pub repr: String,
}

/// A field whose value could not be converted, and why.
pub struct ConversionFailure {
    pub key: String,
    pub reason: String,
}

/// The flattened fields of one record: the JSON object text, and the failed
/// conversions to report at error level.
pub struct FlatFields {
    pub text: String,
    pub failures: Vec<ConversionFailure>,
}

/// The JSON value that a field contributes: its converted value, or else the
/// JSON string of its quoted debug text.
pub open spec fn field_value(f: FieldValue) -> serde_json::Value {
    match f.converted {
        Ok(v) => v,
        Err(_) => json_string(debug_text(f.repr@)),
    }
}

/// The entries of the object built from `fields`; a later field replaces an
/// earlier one of the same key.
pub open spec fn fields_entries(fields: Seq<(String, FieldValue)>) -> Map<Seq<char>, serde_json::Value>
    decreases fields.len(),
{
    if fields.len() == 0 {
        Map::empty()
    } else {
        fields_entries(fields.drop_last()).insert(fields.last().0@, field_value(fields.last().1))
    }
}

/// Key and reason of each failed conversion, in field order.
pub open spec fn failures_of(fields: Seq<(String, FieldValue)>) -> Seq<(Seq<char>, Seq<char>)>
    decreases fields.len(),
{
    if fields.len() == 0 {
        Seq::empty()
    } else {
        let rest = failures_of(fields.drop_last());
        match fields.last().1.converted {
            Ok(_) => rest,
            Err(e) => rest.push((fields.last().0@, e@)),
        }
    }
}

/// The annotation text of `fields`: the object's JSON text, or empty text if
/// serialisation failed.
pub open spec fn flat_text(fields: Seq<(String, FieldValue)>) -> Seq<char> {
    match json_object_text(fields_entries(fields)) {
        Some(t) => t,
        None => Seq::empty(),
    }
}

/// Key and reason of a reported failure.
pub open spec fn failure_view(f: ConversionFailure) -> (Seq<char>, Seq<char>) {
    (f.key@, f.reason@)
}

/// Flattens a record's fields into one JSON object text. No field is dropped: a
/// failed conversion contributes the quoted debug text of its value (never
/// empty) and is listed among the failures.
pub fn flatten_fields(fields: Vec<(String, FieldValue)>) -> (r: FlatFields)
    ensures
        r.text@ == flat_text(fields@),
        r.failures@.map_values(|f: ConversionFailure| failure_view(f)) == failures_of(fields@),
        forall|i: int|
            0 <= i < fields@.len() && (#[trigger] fields@[i]).1.converted is Err ==> debug_text(
                fields@[i].1.repr@,
            ).len() > 0,
{
    let ghost all = fields@;
    let n = fields.len();
    let mut rest = fields;
    let mut map = new_json_map();
    assert(json_entries(map) =~= Map::empty());
    let mut failures: Vec<ConversionFailure> = Vec::new();
    let mut i: usize = 0;
    assert(all.subrange(0, 0).len() == 0);
    assert(all.subrange(0, n as int) =~= all);
    while i < n
        invariant
            n == all.len(),
            i <= n,
            rest@ == all.subrange(i as int, n as int),
            json_entries(map) == fields_entries(all.subrange(0, i as int)),
            failures@.map_values(|f: ConversionFailure| failure_view(f)) == failures_of(
                all.subrange(0, i as int),
            ),
            forall|j: int|
                0 <= j < i && (#[trigger] all[j]).1.converted is Err ==> debug_text(
                    all[j].1.repr@,
                ).len() > 0,
        decreases n - i,
    {
        let ghost before = all.subrange(0, i as int);
        let ghost upto = all.subrange(0, i + 1);
        assert(upto.drop_last() =~= before);
        let f = rest.remove(0);
        assert(f == all[i as int]);
        assert(rest@ =~= all.subrange(i + 1, n as int));
        let (key, FieldValue { converted, repr }) = f;
        match converted {
            Ok(v) => {
                json_map_insert(&mut map, key, v);
            },
            Err(reason) => {
                let fallback = quoted_debug(repr.as_str());
                let ghost old_failures = failures@;
                failures.push(ConversionFailure { key: key.clone(), reason });
                assert(failures@.map_values(|f: ConversionFailure| failure_view(f)) =~= old_failures.map_values(
                    |f: ConversionFailure| failure_view(f),
                ).push((key@, all[i as int].1.converted->Err_0@)));
                json_map_insert(&mut map, key, json_string_value(fallback));
            },
        }
        i = i + 1;
    }
    assert(all.subrange(0, n as int) =~= all);
    let text = match json_object_to_text(map) {
        Some(t) => t,
        None => String::new(),
    };
    FlatFields { text, failures }
}

/// A field whose conversion failed, and which no later field of the same key
/// overrides, stands in the object as the JSON string of its quoted debug text,
/// and its key and reason are among the reported failures.
pub proof fn lemma_failed_field_falls_back(fields: Seq<(String, FieldValue)>, i: int)
    requires
        0 <= i < fields.len(),
        fields[i].1.converted is Err,
        forall|j: int| i < j < fields.len() ==> (#[trigger] fields[j]).0@ != fields[i].0@,
    ensures
        fields_entries(fields).contains_key(fields[i].0@),
        fields_entries(fields)[fields[i].0@] == json_string(debug_text(fields[i].1.repr@)),
        failures_of(fields).contains((fields[i].0@, fields[i].1.converted->Err_0@)),
    decreases fields.len(),
{
    let last = fields.len() - 1;
    if i < last {
        let shorter = fields.drop_last();
        assert(shorter[i] == fields[i]);
        assert forall|j: int| i < j < shorter.len() implies (#[trigger] shorter[j]).0@
            != shorter[i].0@ by {
            assert(shorter[j] == fields[j]);
        }
        assert(fields[last].0@ != fields[i].0@);
        lemma_failed_field_falls_back(shorter, i);
        let rest = failures_of(shorter);
        let k = choose|k: int| 0 <= k < rest.len() && rest[k] == (
            fields[i].0@,
            fields[i].1.converted->Err_0@,
        );
        match fields.last().1.converted {
            Ok(_) => {},
            Err(e) => {
                assert(failures_of(fields)[k] == rest[k]);
            },
        }
    } else {
        assert(failures_of(fields).last() == (fields[i].0@, fields[i].1.converted->Err_0@));
    }
}

} // verus!
