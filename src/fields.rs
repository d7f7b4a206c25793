//! Separation of user-supplied fields from the built-in attributes of a Python
//! `LogRecord`.
//!
//! Python builds every record's attributes before any `extra` attribute is set,
//! and dictionaries keep insertion order. Walking the attributes backwards and
//! stopping at the first built-in name therefore yields the user's fields. This
//! is a heuristic: a user field named like a built-in one (say `lineno`) ends
//! the walk early, and the fields set before it are lost; a built-in attribute
//! that a later Python adds after the user's fields would be taken for one.

use vstd::prelude::*;
use crate::text::text_eq;

verus! {

/// Whether `name` is one of the attributes that `logging.makeRecord` always sets.
pub open spec fn is_reserved_name(name: Seq<char>) -> bool {
    name == "name"@ || name == "msg"@ || name == "args"@ || name == "levelname"@
        || name == "levelno"@ || name == "pathname"@ || name == "filename"@
        || name == "module"@ || name == "exc_info"@ || name == "exc_text"@
        || name == "stack_info"@ || name == "lineno"@ || name == "funcName"@
        || name == "created"@ || name == "msecs"@ || name == "relativeCreated"@
        || name == "thread"@ || name == "threadName"@ || name == "processName"@
        || name == "process"@ || name == "taskName"@
}

/// Whether `name` is a built-in `LogRecord` attribute.
pub fn is_reserved(name: &str) -> (r: bool)
    ensures
        r == is_reserved_name(name@),
{
    text_eq(name, "name") || text_eq(name, "msg") || text_eq(name, "args")
        || text_eq(name, "levelname") || text_eq(name, "levelno")
        || text_eq(name, "pathname") || text_eq(name, "filename")
        || text_eq(name, "module") || text_eq(name, "exc_info")
        || text_eq(name, "exc_text") || text_eq(name, "stack_info")
        || text_eq(name, "lineno") || text_eq(name, "funcName")
        || text_eq(name, "created") || text_eq(name, "msecs")
        || text_eq(name, "relativeCreated") || text_eq(name, "thread")
        || text_eq(name, "threadName") || text_eq(name, "processName")
        || text_eq(name, "process") || text_eq(name, "taskName")
}

/// Index at which the user's fields begin: just after the last built-in
/// attribute, or 0 when there is none.
pub open spec fn user_fields_start<V>(attrs: Seq<(String, V)>) -> int
    decreases attrs.len(),
{
    if attrs.len() == 0 {
        0
    } else if is_reserved_name(attrs.last().0@) {
        attrs.len() as int
    } else {
        user_fields_start(attrs.drop_last())
    }
}

/// The user's fields of a record whose attributes, in insertion order, are
/// `attrs`: `None` when there are none.
pub open spec fn extracted<V>(attrs: Seq<(String, V)>) -> Option<Seq<(String, V)>> {
    let k = user_fields_start(attrs);
    if k < attrs.len() {
        Some(attrs.subrange(k, attrs.len() as int))
    } else {
        None
    }
}

/// The user-supplied fields of a record, kept in insertion order.
pub struct KVSource<V>(pub Vec<(String, V)>);

/// Takes the user-supplied fields out of a record's attributes (given in
/// insertion order): the attributes after the last built-in one, or `None`
/// when there are none.
pub fn find_kv_args<V>(attributes: Vec<(String, V)>) -> (r: Option<KVSource<V>>)
    ensures
        extracted(attributes@) is None ==> r is None,
        extracted(attributes@) is Some ==> r is Some && r->Some_0.0@ == extracted(
            attributes@,
        )->Some_0,
{
    let mut attributes = attributes;
    let ghost attrs = attributes@;
    let n = attributes.len();
    let mut i: usize = n;
    assert(attrs.subrange(0, n as int) =~= attrs);
    while i > 0 && !is_reserved(attributes[i - 1].0.as_str())
        invariant
            attributes@ == attrs,
            n == attrs.len(),
            i <= n,
            user_fields_start(attrs) == user_fields_start(attrs.subrange(0, i as int)),
        decreases i,
    {
        let ghost shorter = attrs.subrange(0, i - 1);
        assert(attrs.subrange(0, i as int).drop_last() =~= shorter);
        i = i - 1;
    }
    proof {
        if i == 0 {
            assert(attrs.subrange(0, 0).len() == 0);
        } else {
            assert(attrs.subrange(0, i as int).last() == attrs[i - 1]);
        }
    }
    if i == n {
        None
    } else {
        let fields = attributes.split_off(i);
        Some(KVSource(fields))
    }
}

/// A record that holds built-in attributes only gives no fields.
pub proof fn lemma_only_reserved_gives_none<V>(attrs: Seq<(String, V)>)
    requires
        forall|i: int| 0 <= i < attrs.len() ==> is_reserved_name(#[trigger] attrs[i].0@),
    ensures
        extracted(attrs) is None,
{
    if attrs.len() > 0 {
        assert(is_reserved_name(attrs[attrs.len() - 1].0@));
    }
}

/// The fields that follow the built-in attributes, none of them named like a
/// built-in one, are extracted exactly, in their order.
pub proof fn lemma_user_suffix_extracted<V>(builtin: Seq<(String, V)>, user: Seq<(String, V)>)
    requires
        builtin.len() > 0,
        is_reserved_name(builtin.last().0@),
        user.len() > 0,
        forall|i: int| 0 <= i < user.len() ==> !is_reserved_name(#[trigger] user[i].0@),
    ensures
        user_fields_start(builtin + user) == builtin.len(),
        extracted(builtin + user) == Some(user),
{
    lemma_suffix_start(builtin, user);
    assert((builtin + user).subrange(builtin.len() as int, (builtin + user).len() as int) =~= user);
}

proof fn lemma_suffix_start<V>(builtin: Seq<(String, V)>, user: Seq<(String, V)>)
    requires
        builtin.len() > 0,
        is_reserved_name(builtin.last().0@),
        forall|i: int| 0 <= i < user.len() ==> !is_reserved_name(#[trigger] user[i].0@),
    ensures
        user_fields_start(builtin + user) == builtin.len(),
    decreases user.len(),
{
    if user.len() == 0 {
        assert(builtin + user =~= builtin);
    } else {
        assert((builtin + user).drop_last() =~= builtin + user.drop_last());
        assert(!is_reserved_name(user[user.len() - 1].0@));
        lemma_suffix_start(builtin, user.drop_last());
    }
}

/// Every extracted field stands after the last attribute named like a built-in
/// one: a user field called, say, `lineno` cuts off the fields set before it.
pub proof fn lemma_extraction_stops_at_reserved<V>(attrs: Seq<(String, V)>, j: int)
    requires
        0 <= j < attrs.len(),
        is_reserved_name(attrs[j].0@),
    ensures
        user_fields_start(attrs) > j,
        extracted(attrs) is Some ==> extracted(attrs)->Some_0.len() < attrs.len() - j,
    decreases attrs.len(),
{
    if j < attrs.len() - 1 {
        if !is_reserved_name(attrs.last().0@) {
            assert(attrs.drop_last()[j] == attrs[j]);
            lemma_extraction_stops_at_reserved(attrs.drop_last(), j);
        }
    }
}

} // verus!
