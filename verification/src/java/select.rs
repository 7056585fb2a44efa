//! Ordering the Java runtimes that were found, and choosing among them.

use vstd::prelude::*;

use crate::java::validation::{is_version_compatible, parse_java_version, version_within};
use crate::java::{installations_of, opt_installation, InstallationView, JavaInstallation};

verus! {

/// Some installation of `list` is at `path`.
pub open spec fn has_path(list: Seq<InstallationView>, path: Seq<char>) -> bool {
    exists|i: int| 0 <= i < list.len() && (#[trigger] list[i]).path == path
}

/// The installations of `found` with each path once: of several at one
/// path the first stays.
pub open spec fn first_by_path(found: Seq<InstallationView>) -> Seq<InstallationView>
    decreases found.len(),
{
    if found.len() == 0 {
        Seq::empty()
    } else {
        let rest = first_by_path(found.drop_last());
        if has_path(rest, found.last().path) {
            rest
        } else {
            rest.push(found.last())
        }
    }
}

/// `sorted` with `java` put in after every installation of a major version
/// at least as high as its own.
pub open spec fn insert_by_major(sorted: Seq<InstallationView>, java: InstallationView) -> Seq<
    InstallationView,
>
    decreases sorted.len(),
{
    if sorted.len() == 0 {
        seq![java]
    } else if sorted.last().major() >= java.major() {
        sorted.push(java)
    } else {
        insert_by_major(sorted.drop_last(), java).push(sorted.last())
    }
}

/// The installations of `list`, the highest major version first; those of
/// one major version keep the order they had.
pub open spec fn newest_first(list: Seq<InstallationView>) -> Seq<InstallationView>
    decreases list.len(),
{
    if list.len() == 0 {
        Seq::empty()
    } else {
        insert_by_major(newest_first(list.drop_last()), list.last())
    }
}

/// The major versions never rise along `list`.
pub open spec fn is_newest_first(list: Seq<InstallationView>) -> bool {
    forall|i: int, j: int|
        0 <= i < j < list.len() ==> (#[trigger] list[i]).major() >= (#[trigger] list[j]).major()
}

/// Putting an installation into an ordered list keeps it ordered and adds
/// just that installation.
pub proof fn lemma_insert_by_major(sorted: Seq<InstallationView>, java: InstallationView)
    requires
        is_newest_first(sorted),
    ensures
        is_newest_first(insert_by_major(sorted, java)),
        insert_by_major(sorted, java).to_multiset() == sorted.to_multiset().insert(java),
        insert_by_major(sorted, java).len() == sorted.len() + 1,
    decreases sorted.len(),
{
    broadcast use vstd::seq_lib::group_to_multiset_ensures;

    let out = insert_by_major(sorted, java);
    if sorted.len() == 0 {
        assert(seq![java] =~= Seq::<InstallationView>::empty().push(java));
    } else if sorted.last().major() >= java.major() {
        assert forall|i: int, j: int| 0 <= i < j < out.len() implies (#[trigger] out[i]).major() >= (
        #[trigger] out[j]).major() by {
            if j == sorted.len() {
                assert(sorted[i].major() >= sorted.last().major() || i == sorted.len() - 1);
            } else {
                assert(out[i] == sorted[i] && out[j] == sorted[j]);
            }
        }
    } else {
        let shorter = sorted.drop_last();
        assert forall|i: int, j: int| 0 <= i < j < shorter.len() implies (
        #[trigger] shorter[i]).major() >= (#[trigger] shorter[j]).major() by {
            assert(shorter[i] == sorted[i] && shorter[j] == sorted[j]);
        }
        lemma_insert_by_major(shorter, java);
        let inner = insert_by_major(shorter, java);
        assert(sorted =~= shorter.push(sorted.last()));
        assert(inner.to_multiset().insert(sorted.last()) =~= sorted.to_multiset().insert(java));
        assert forall|i: int, j: int| 0 <= i < j < out.len() implies (#[trigger] out[i]).major() >= (
        #[trigger] out[j]).major() by {
            if j == inner.len() {
                // every installation of `inner` is `java` or one of `shorter`
                assert(inner.to_multiset().count(inner[i]) > 0);
                if inner[i] != java {
                    assert(shorter.to_multiset().count(inner[i]) > 0);
                    assert(shorter.contains(inner[i]));
                    let w = choose|w: int| 0 <= w < shorter.len() && shorter[w] == inner[i];
                    assert(sorted[w].major() >= sorted[sorted.len() - 1].major());
                }
            } else {
                assert(out[i] == inner[i] && out[j] == inner[j]);
            }
        }
    }
}

/// The ordered list holds the installations of the given one, each as
/// often, and its major versions never rise.
pub proof fn law_newest_first_orders(list: Seq<InstallationView>)
    ensures
        is_newest_first(newest_first(list)),
        newest_first(list).to_multiset() == list.to_multiset(),
        newest_first(list).len() == list.len(),
    decreases list.len(),
{
    broadcast use vstd::seq_lib::group_to_multiset_ensures;

    if list.len() > 0 {
        law_newest_first_orders(list.drop_last());
        lemma_insert_by_major(newest_first(list.drop_last()), list.last());
        assert(list =~= list.drop_last().push(list.last()));
    }
}

/// After the duplicates are dropped no path occurs twice, every path that
/// was found is still there, and nothing was added.
pub proof fn law_first_by_path(found: Seq<InstallationView>)
    ensures
        forall|i: int, j: int|
            0 <= i < j < first_by_path(found).len() ==> (#[trigger] first_by_path(found)[i]).path != (
            #[trigger] first_by_path(found)[j]).path,
        forall|i: int| 0 <= i < found.len() ==> has_path(first_by_path(found), (#[trigger] found[i]).path),
        forall|i: int|
            0 <= i < first_by_path(found).len() ==> found.contains(#[trigger] first_by_path(found)[i]),
    decreases found.len(),
{
    if found.len() > 0 {
        let shorter = found.drop_last();
        let rest = first_by_path(shorter);
        let out = first_by_path(found);
        law_first_by_path(shorter);
        assert forall|i: int| 0 <= i < found.len() implies has_path(out, (#[trigger] found[i]).path) by {
            if i < shorter.len() {
                assert(shorter[i] == found[i]);
                let w = choose|w: int| 0 <= w < rest.len() && (#[trigger] rest[w]).path == found[i].path;
                assert(out[w].path == found[i].path);
            } else if has_path(rest, found.last().path) {
            } else {
                assert(out[out.len() - 1].path == found[i].path);
            }
        }
        assert forall|i: int| 0 <= i < out.len() implies found.contains(#[trigger] out[i]) by {
            if i < rest.len() {
                assert(shorter.contains(rest[i]));
                let w = choose|w: int| 0 <= w < shorter.len() && shorter[w] == rest[i];
                assert(found[w] == out[i]);
            } else {
                assert(found[found.len() - 1] == out[i]);
            }
        }
        assert forall|i: int, j: int| 0 <= i < j < out.len() implies (#[trigger] out[i]).path != (
        #[trigger] out[j]).path by {
            if j < rest.len() {
                assert(out[i] == rest[i] && out[j] == rest[j]);
            } else {
                assert(out[i] == rest[i]);
            }
        }
    }
}

/// Whether some installation of `list` is at `path`.
fn holds_path(list: &Vec<JavaInstallation>, path: &String) -> (found: bool)
    ensures
        found == has_path(installations_of(list@), path@),
{
    let mut i: usize = 0;
    while i < list.len()
        invariant
            i <= list@.len(),
            forall|k: int| 0 <= k < i ==> (#[trigger] installations_of(list@)[k]).path != path@,
        decreases list@.len() - i,
    {
        if list[i].path == *path {
            assert(installations_of(list@)[i as int].path == path@);
            return true;
        }
        i += 1;
    }
    false
}

/// Puts `java` into the ordered `sorted`, after every installation of a
/// major version at least as high.
fn insert_ordered(sorted: &mut Vec<JavaInstallation>, java: JavaInstallation)
    ensures
        installations_of(final(sorted)@) == insert_by_major(installations_of(old(sorted)@), java@),
{
    let ghost before = installations_of(sorted@);
    let major = parse_java_version(java.version.as_str());
    let mut pos: usize = sorted.len();
    proof {
        assert(before.take(pos as int) =~= before);
        assert(before.skip(pos as int) =~= Seq::<InstallationView>::empty());
        assert(insert_by_major(before, java@) =~= insert_by_major(before.take(pos as int), java@)
            + before.skip(pos as int));
    }
    while pos > 0 && parse_java_version(sorted[pos - 1].version.as_str()) < major
        invariant
            pos <= sorted@.len(),
            before == installations_of(sorted@),
            major == java@.major(),
            insert_by_major(before, java@) == insert_by_major(before.take(pos as int), java@)
                + before.skip(pos as int),
        decreases pos,
    {
        proof {
            let head = before.take(pos as int);
            assert(head.last() == before[pos - 1]);
            assert(head.last().major() < java@.major());
            assert(head.drop_last() =~= before.take(pos - 1));
            assert(insert_by_major(head, java@) == insert_by_major(head.drop_last(), java@).push(
                head.last(),
            ));
            assert(insert_by_major(head.drop_last(), java@).push(head.last()) + before.skip(
                pos as int,
            ) =~= insert_by_major(before.take(pos - 1), java@) + before.skip(pos - 1));
        }
        pos -= 1;
    }
    proof {
        let head = before.take(pos as int);
        if pos > 0 {
            assert(head.last() == before[pos - 1]);
        }
        assert(insert_by_major(head, java@) == head.push(java@));
        assert(head.push(java@) + before.skip(pos as int) =~= before.insert(pos as int, java@));
    }
    let ghost java_view = java@;
    sorted.insert(pos, java);
    assert(installations_of(sorted@) =~= before.insert(pos as int, java_view));
}

/// The installations of `found` with each path once, the highest major
/// version first.
fn distinct_newest_first(found: &Vec<JavaInstallation>) -> (list: Vec<JavaInstallation>)
    ensures
        installations_of(list@) == newest_first(first_by_path(installations_of(found@))),
{
    let ghost all = installations_of(found@);
    let mut distinct: Vec<JavaInstallation> = Vec::new();
    let mut i: usize = 0;
    assert(installations_of(distinct@) =~= first_by_path(all.take(0)));
    while i < found.len()
        invariant
            i <= found@.len(),
            all == installations_of(found@),
            installations_of(distinct@) == first_by_path(all.take(i as int)),
        decreases found@.len() - i,
    {
        proof {
            assert(all.take(i + 1).drop_last() =~= all.take(i as int));
            assert(all.take(i + 1).last() == found@[i as int]@);
        }
        if !holds_path(&distinct, &found[i].path) {
            let ghost prior = installations_of(distinct@);
            distinct.push(found[i].clone());
            assert(installations_of(distinct@) =~= prior.push(found@[i as int]@));
        }
        i += 1;
    }
    assert(all.take(found@.len() as int) =~= all);
    let ghost kept = installations_of(distinct@);
    let mut sorted: Vec<JavaInstallation> = Vec::new();
    let mut k: usize = 0;
    assert(installations_of(sorted@) =~= newest_first(kept.take(0)));
    while k < distinct.len()
        invariant
            k <= distinct@.len(),
            kept == installations_of(distinct@),
            installations_of(sorted@) == newest_first(kept.take(k as int)),
        decreases distinct@.len() - k,
    {
        proof {
            assert(kept.take(k + 1).drop_last() =~= kept.take(k as int));
            assert(kept.take(k + 1).last() == distinct@[k as int]@);
        }
        insert_ordered(&mut sorted, distinct[k].clone());
        k += 1;
    }
    assert(kept.take(distinct@.len() as int) =~= kept);
    sorted
}

/// The Java runtimes of the system, from the candidates that answered: each
/// path once (the first found stays), the highest major version first, and
/// those of one major version in the order they were found.
pub fn detect_java_installations(found: Vec<JavaInstallation>) -> (installations: Vec<
    JavaInstallation,
>)
    ensures
        installations_of(installations@) == newest_first(
            first_by_path(installations_of(found@)),
        ),
{
    distinct_newest_first(&found)
}

/// The Java runtimes of the system together with those that the launcher
/// installed itself: each path once, the system's first, the highest major
/// version first.
pub fn detect_all_java_installations(
    system: Vec<JavaInstallation>,
    own: Vec<JavaInstallation>,
) -> (installations: Vec<JavaInstallation>)
    ensures
        installations_of(installations@) == newest_first(
            first_by_path(installations_of(system@) + installations_of(own@)),
        ),
{
    let mut all = system;
    let mut own = own;
    let ghost first = installations_of(all@);
    let ghost second = installations_of(own@);
    all.append(&mut own);
    assert(installations_of(all@) =~= first + second);
    distinct_newest_first(&all)
}

/// The first installation of `list` whose major version lies within the
/// bounds.
pub open spec fn first_within(
    list: Seq<InstallationView>,
    required: Option<u64>,
    max: Option<u32>,
) -> Option<InstallationView>
    decreases list.len(),
{
    if list.len() == 0 {
        None
    } else if version_within(list[0].major(), required, max) {
        Some(list[0])
    } else {
        first_within(list.drop_first(), required, max)
    }
}

/// The first of `installations` whose major version is at least the
/// required one, if one is required, and at most the highest allowed, if
/// there is one. With the list in the order of detection this is the newest
/// runtime that fits.
pub fn get_compatible_java(
    installations: &Vec<JavaInstallation>,
    required_major_version: Option<u64>,
    max_major_version: Option<u32>,
) -> (java: Option<JavaInstallation>)
    ensures
        opt_installation(java) == first_within(
            installations_of(installations@),
            required_major_version,
            max_major_version,
        ),
{
    let ghost all = installations_of(installations@);
    let mut i: usize = 0;
    assert(all.skip(0) =~= all);
    while i < installations.len()
        invariant
            i <= installations@.len(),
            all == installations_of(installations@),
            first_within(all, required_major_version, max_major_version) == first_within(
                all.skip(i as int),
                required_major_version,
                max_major_version,
            ),
        decreases installations@.len() - i,
    {
        proof {
            assert(all.skip(i as int)[0] == installations@[i as int]@);
            assert(all.skip(i as int).drop_first() =~= all.skip(i + 1));
        }
        let major = parse_java_version(installations[i].version.as_str());
        if is_version_compatible(major, required_major_version, max_major_version) {
            return Some(installations[i].clone());
        }
        i += 1;
    }
    None
}

/// The runtime to recommend: the first of `installations` whose major
/// version is at least the required one, or simply the first where none
/// is required.
pub fn get_recommended_java(
    installations: &Vec<JavaInstallation>,
    required_major_version: Option<u64>,
) -> (java: Option<JavaInstallation>)
    ensures
        opt_installation(java) == first_within(
            installations_of(installations@),
            required_major_version,
            None,
        ),
{
    get_compatible_java(installations, required_major_version, None)
}

/// Whether the runtime that was found at a path, if one was, has a major
/// version within the bounds.
pub fn is_java_compatible(
    java: Option<&JavaInstallation>,
    required_major_version: Option<u64>,
    max_major_version: Option<u32>,
) -> (ok: bool)
    ensures
        ok == match java {
            Some(j) => version_within(j@.major(), required_major_version, max_major_version),
            None => false,
        },
{
    match java {
        Some(j) => {
            let major = parse_java_version(j.version.as_str());
            is_version_compatible(major, required_major_version, max_major_version)
        },
        None => false,
    }
}

} // verus!
