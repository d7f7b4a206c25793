//! Translation of Python logger names into native targets.

use vstd::prelude::*;
use crate::text::text_eq;

verus! {

/// `name` with every `.` replaced by `::`.
pub open spec fn dots_to_colons(name: Seq<char>) -> Seq<char>
    decreases name.len(),
{
    if name.len() == 0 {
        Seq::empty()
    } else if name.last() == '.' {
        dots_to_colons(name.drop_last()) + seq![':', ':']
    } else {
        dots_to_colons(name.drop_last()).push(name.last())
    }
}

/// The target of a logger `name` under the configured `root`: the root itself for
/// the anonymous logger (empty name or `root`), else `root::` followed by the name
/// with its dots turned into `::`.
pub open spec fn target_of(root: Seq<char>, name: Seq<char>) -> Seq<char> {
    if name.len() == 0 || name == "root"@ {
        root
    } else {
        root + seq![':', ':'] + dots_to_colons(name)
    }
}

/// Builds the native target of the Python logger `logger_name` under `root`.
pub fn translate_target(root: &str, logger_name: &str) -> (r: String)
    ensures
        r@ == target_of(root@, logger_name@),
{
    let n = logger_name.unicode_len();
    if n == 0 || text_eq(logger_name, "root") {
        return root.to_owned();
    }
    proof {
        reveal_strlit("::");
    }
    let mut out = root.to_owned();
    out.append("::");
    let ghost prefix = root@ + seq![':', ':'];
    assert(logger_name@.subrange(0, 0) =~= Seq::<char>::empty());
    assert(out@ =~= prefix + dots_to_colons(logger_name@.subrange(0, 0)));
    let mut i: usize = 0;
    while i < n
        invariant
            n == logger_name@.len(),
            i <= n,
            out@ == prefix + dots_to_colons(logger_name@.subrange(0, i as int)),
        decreases n - i,
    {
        let ghost before = logger_name@.subrange(0, i as int);
        let ghost after = logger_name@.subrange(0, i + 1);
        assert(after.drop_last() =~= before);
        assert(after.last() == logger_name@[i as int]);
        if logger_name.get_char(i) == '.' {
            proof {
                reveal_strlit("::");
            }
            out.append("::");
            assert(dots_to_colons(after) == dots_to_colons(before) + seq![':', ':']);
        } else {
            let one = logger_name.substring_char(i, i + 1);
            assert(one@ =~= seq![logger_name@[i as int]]);
            out.append(one);
            assert(dots_to_colons(after) == dots_to_colons(before).push(logger_name@[i as int]));
        }
        i = i + 1;
        assert(out@ =~= prefix + dots_to_colons(after));
    }
    assert(logger_name@.subrange(0, n as int) =~= logger_name@);
    out
}

/// A name without dots keeps its characters: it only moves under `root::`.
pub proof fn lemma_dots_to_colons_plain(name: Seq<char>)
    requires
        forall|i: int| 0 <= i < name.len() ==> name[i] != '.',
    ensures
        dots_to_colons(name) == name,
    decreases name.len(),
{
    if name.len() > 0 {
        lemma_dots_to_colons_plain(name.drop_last());
        assert(name.drop_last().push(name.last()) =~= name);
    }
}

/// A named logger without dots lands directly under the root: `root::name`.
pub proof fn lemma_target_of_plain_name(root: Seq<char>, name: Seq<char>)
    requires
        name.len() > 0,
        name != "root"@,
        forall|i: int| 0 <= i < name.len() ==> name[i] != '.',
    ensures
        target_of(root, name) == root + seq![':', ':'] + name,
{
    lemma_dots_to_colons_plain(name);
}

} // verus!
