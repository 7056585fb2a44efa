//! The commands that the launcher offers to its presentation layer, as far
//! as their TypeScript bindings need them.

use vstd::prelude::*;

use crate::text::{
    chars_of, lemma_text_le_total, lemma_text_le_transitive, precedes_or_equals, text_le,
};

verus! {

/// The arguments of the attribute that marks a command.
#[derive(Debug)]
pub struct MacroArgs {
    pub export_to: Option<String>,
    pub export_to_path: Option<String>,
    pub import_from: Option<String>,
}

impl Default for MacroArgs {
    fn default() -> (args: Self)
        ensures
            args.export_to is None,
            args.export_to_path is None,
            args.import_from is None,
    {
        MacroArgs { export_to: None, export_to_path: None, import_from: None }
    }
}

/// One command, described for its TypeScript binding.
#[derive(Clone, Copy, Debug)]
pub struct ApiInfo {
    pub fn_name: &'static str,
    pub ts_fn_name: &'static str,
    pub param_names: &'static [&'static str],
    pub param_defs: &'static [&'static str],
    pub return_ts_promise: &'static str,
    pub import_types: &'static [&'static str],
    pub import_from: Option<&'static str>,
}

/// `sorted` with `info` put in after every command whose name stands
/// before its own or is its own.
pub open spec fn insert_by_name(sorted: Seq<ApiInfo>, info: ApiInfo) -> Seq<ApiInfo>
    decreases sorted.len(),
{
    if sorted.len() == 0 {
        seq![info]
    } else if text_le(sorted.last().fn_name@, info.fn_name@) {
        sorted.push(info)
    } else {
        insert_by_name(sorted.drop_last(), info).push(sorted.last())
    }
}

/// The commands in the order of their names; commands of one name keep
/// the order they had.
pub open spec fn sorted_by_name(infos: Seq<ApiInfo>) -> Seq<ApiInfo>
    decreases infos.len(),
{
    if infos.len() == 0 {
        Seq::empty()
    } else {
        insert_by_name(sorted_by_name(infos.drop_last()), infos.last())
    }
}

/// The names never fall along the list.
pub open spec fn is_sorted_by_name(infos: Seq<ApiInfo>) -> bool {
    forall|i: int, j: int|
        0 <= i < j < infos.len() ==> text_le((#[trigger] infos[i]).fn_name@, (#[trigger] infos[j]).fn_name@)
}

/// Putting a command into a sorted list keeps the list sorted and adds
/// just that command.
pub proof fn lemma_insert_by_name(sorted: Seq<ApiInfo>, info: ApiInfo)
    requires
        is_sorted_by_name(sorted),
    ensures
        is_sorted_by_name(insert_by_name(sorted, info)),
        insert_by_name(sorted, info).to_multiset() == sorted.to_multiset().insert(info),
        insert_by_name(sorted, info).len() == sorted.len() + 1,
    decreases sorted.len(),
{
    broadcast use vstd::seq_lib::group_to_multiset_ensures;

    let out = insert_by_name(sorted, info);
    if sorted.len() == 0 {
        assert(seq![info] =~= Seq::<ApiInfo>::empty().push(info));
    } else if text_le(sorted.last().fn_name@, info.fn_name@) {
        assert forall|i: int, j: int| 0 <= i < j < out.len() implies text_le(
            (#[trigger] out[i]).fn_name@,
            (#[trigger] out[j]).fn_name@,
        ) by {
            if j == sorted.len() {
                if i < sorted.len() - 1 {
                    assert(text_le(sorted[i].fn_name@, sorted[sorted.len() - 1].fn_name@));
                    lemma_text_le_transitive(
                        sorted[i].fn_name@,
                        sorted.last().fn_name@,
                        info.fn_name@,
                    );
                }
            } else {
                assert(out[i] == sorted[i] && out[j] == sorted[j]);
            }
        }
    } else {
        let shorter = sorted.drop_last();
        assert forall|i: int, j: int| 0 <= i < j < shorter.len() implies text_le(
            (#[trigger] shorter[i]).fn_name@,
            (#[trigger] shorter[j]).fn_name@,
        ) by {
            assert(shorter[i] == sorted[i] && shorter[j] == sorted[j]);
        }
        lemma_insert_by_name(shorter, info);
        let inner = insert_by_name(shorter, info);
        assert(sorted =~= shorter.push(sorted.last()));
        assert(inner.to_multiset().insert(sorted.last()) =~= sorted.to_multiset().insert(info));
        lemma_text_le_total(sorted.last().fn_name@, info.fn_name@);
        assert forall|i: int, j: int| 0 <= i < j < out.len() implies text_le(
            (#[trigger] out[i]).fn_name@,
            (#[trigger] out[j]).fn_name@,
        ) by {
            if j == inner.len() {
                assert(inner.to_multiset().count(inner[i]) > 0);
                if inner[i] != info {
                    assert(shorter.to_multiset().count(inner[i]) > 0);
                    assert(shorter.contains(inner[i]));
                    let w = choose|w: int| 0 <= w < shorter.len() && shorter[w] == inner[i];
                    assert(text_le(sorted[w].fn_name@, sorted[sorted.len() - 1].fn_name@));
                }
            } else {
                assert(out[i] == inner[i] && out[j] == inner[j]);
            }
        }
    }
}

/// The sorted list holds the commands of the given one, each as often,
/// and its names never fall.
pub proof fn law_sorted_by_name(infos: Seq<ApiInfo>)
    ensures
        is_sorted_by_name(sorted_by_name(infos)),
        sorted_by_name(infos).to_multiset() == infos.to_multiset(),
        sorted_by_name(infos).len() == infos.len(),
    decreases infos.len(),
{
    broadcast use vstd::seq_lib::group_to_multiset_ensures;

    if infos.len() > 0 {
        law_sorted_by_name(infos.drop_last());
        lemma_insert_by_name(sorted_by_name(infos.drop_last()), infos.last());
        assert(infos =~= infos.drop_last().push(infos.last()));
    }
}

/// Puts `info` into the sorted `sorted`.
fn insert_sorted(sorted: &mut Vec<ApiInfo>, info: ApiInfo)
    ensures
        final(sorted)@ == insert_by_name(old(sorted)@, info),
{
    let ghost before = sorted@;
    let name = chars_of(info.fn_name);
    let mut pos: usize = sorted.len();
    proof {
        assert(before.take(pos as int) =~= before);
        assert(before.skip(pos as int) =~= Seq::<ApiInfo>::empty());
        assert(insert_by_name(before, info) =~= insert_by_name(before.take(pos as int), info)
            + before.skip(pos as int));
    }
    while pos > 0 && !precedes_or_equals(chars_of(sorted[pos - 1].fn_name).as_slice(), name.as_slice())
        invariant
            pos <= sorted@.len(),
            before == sorted@,
            name@ == info.fn_name@,
            insert_by_name(before, info) == insert_by_name(before.take(pos as int), info)
                + before.skip(pos as int),
        decreases pos,
    {
        proof {
            let head = before.take(pos as int);
            assert(head.last() == before[pos - 1]);
            assert(head.drop_last() =~= before.take(pos - 1));
            assert(insert_by_name(head.drop_last(), info).push(head.last()) + before.skip(
                pos as int,
            ) =~= insert_by_name(before.take(pos - 1), info) + before.skip(pos - 1));
        }
        pos -= 1;
    }
    proof {
        let head = before.take(pos as int);
        if pos > 0 {
            assert(head.last() == before[pos - 1]);
        }
        assert(insert_by_name(head, info) == head.push(info));
        assert(head.push(info) + before.skip(pos as int) =~= before.insert(pos as int, info));
    }
    sorted.insert(pos, info);
}

/// Sorts the commands by their names, in the order of dictionaries;
/// commands of one name keep the order they had.
pub fn sort_api_infos(api_infos: &mut Vec<ApiInfo>)
    ensures
        final(api_infos)@ == sorted_by_name(old(api_infos)@),
{
    let ghost before = api_infos@;
    let mut sorted: Vec<ApiInfo> = Vec::new();
    let mut i: usize = 0;
    assert(sorted@ =~= sorted_by_name(before.take(0)));
    while i < api_infos.len()
        invariant
            i <= api_infos@.len(),
            before == api_infos@,
            sorted@ == sorted_by_name(before.take(i as int)),
        decreases api_infos@.len() - i,
    {
        proof {
            assert(before.take(i + 1).drop_last() =~= before.take(i as int));
            assert(before.take(i + 1).last() == api_infos@[i as int]);
        }
        insert_sorted(&mut sorted, api_infos[i]);
        i += 1;
    }
    assert(before.take(api_infos@.len() as int) =~= before);
    *api_infos = sorted;
}

} // verus!
