//! The user's Java settings: paths added by hand, the preferred runtime,
//! and the time of the last detection.

use vstd::prelude::*;

use crate::text::clone_text;

verus! {

/// The user's Java settings.
#[derive(Debug)]
pub struct JavaConfig {
    pub user_defined_paths: Vec<String>,
    pub preferred_java_path: Option<String>,
    pub last_detection_time: u64,
}

/// The mathematical content of a `JavaConfig`.
pub struct JavaConfigView {
    pub user_defined_paths: Seq<Seq<char>>,
    pub preferred_java_path: Option<Seq<char>>,
    pub last_detection_time: u64,
}

impl View for JavaConfig {
    type V = JavaConfigView;

    open spec fn view(&self) -> JavaConfigView {
        JavaConfigView {
            user_defined_paths: self.user_defined_paths.deep_view(),
            preferred_java_path: self.preferred_java_path.deep_view(),
            last_detection_time: self.last_detection_time,
        }
    }
}

impl Default for JavaConfig {
    fn default() -> (config: Self)
        ensures
            config@ == (JavaConfigView {
                user_defined_paths: Seq::empty(),
                preferred_java_path: None,
                last_detection_time: 0,
            }),
    {
        let config = JavaConfig {
            user_defined_paths: Vec::new(),
            preferred_java_path: None,
            last_detection_time: 0,
        };
        assert(config@.user_defined_paths =~= Seq::<Seq<char>>::empty());
        config
    }
}

/// Adds `path` to the paths that the user defined, unless it is one of
/// them already.
pub fn add_user_defined_path(config: &mut JavaConfig, path: String)
    ensures
        final(config)@ == (JavaConfigView {
            user_defined_paths: if old(config)@.user_defined_paths.contains(path@) {
                old(config)@.user_defined_paths
            } else {
                old(config)@.user_defined_paths.push(path@)
            },
            ..old(config)@
        }),
{
    let ghost before = config@.user_defined_paths;
    let mut i: usize = 0;
    while i < config.user_defined_paths.len()
        invariant
            i <= config.user_defined_paths@.len(),
            before == config@.user_defined_paths,
            *config == *old(config),
            forall|k: int| 0 <= k < i ==> before[k] != path@,
        decreases config.user_defined_paths@.len() - i,
    {
        if config.user_defined_paths[i] == path {
            assert(before[i as int] == path@);
            return;
        }
        i += 1;
    }
    config.user_defined_paths.push(path);
    assert(config@.user_defined_paths =~= before.push(path@));
}

/// Removes `path` from the paths that the user defined, wherever it
/// occurs. The others keep their order.
pub fn remove_user_defined_path(config: &mut JavaConfig, path: &str)
    ensures
        final(config)@ == (JavaConfigView {
            user_defined_paths: old(config)@.user_defined_paths.filter(|p: Seq<char>| p != path@),
            ..old(config)@
        }),
{
    let ghost before = config@.user_defined_paths;
    let ghost keep = |p: Seq<char>| p != path@;
    let key = path.to_string();
    let mut kept: usize = 0;
    let ghost mut seen: int = 0;
    proof {
        reveal(Seq::filter);
        assert(before.take(0).filter(keep) =~= Seq::<Seq<char>>::empty());
        assert(before.skip(0) =~= before);
    }
    while kept < config.user_defined_paths.len()
        invariant
            0 <= seen <= before.len(),
            key@ == path@,
            keep == |p: Seq<char>| p != path@,
            kept == before.take(seen).filter(keep).len(),
            config@.user_defined_paths == before.take(seen).filter(keep) + before.skip(seen),
            config.preferred_java_path == old(config).preferred_java_path,
            config.last_detection_time == old(config).last_detection_time,
        decreases before.len() - seen,
    {
        let ghost current = config@.user_defined_paths;
        assert(current.len() == kept + (before.len() - seen));
        assert(current[kept as int] == before.skip(seen)[0]);
        proof {
            reveal(Seq::filter);
            assert(before.take(seen + 1).drop_last() =~= before.take(seen));
            assert(before.take(seen + 1).last() == before[seen]);
        }
        let same = config.user_defined_paths[kept] == key;
        assert(same == !keep(before[seen]));
        if same {
            let _ = config.user_defined_paths.remove(kept);
            proof {
                assert(config@.user_defined_paths =~= current.remove(kept as int));
                assert(config@.user_defined_paths =~= before.take(seen + 1).filter(keep)
                    + before.skip(seen + 1));
                seen = seen + 1;
            }
        } else {
            kept += 1;
            proof {
                assert(config@.user_defined_paths =~= before.take(seen + 1).filter(keep)
                    + before.skip(seen + 1));
                seen = seen + 1;
            }
        }
    }
    proof {
        assert(before.take(seen) =~= before);
        assert(before.skip(seen) =~= Seq::<Seq<char>>::empty());
    }
}

/// Sets, or clears, the path of the preferred runtime.
pub fn set_preferred_java_path(config: &mut JavaConfig, path: Option<String>)
    ensures
        final(config)@ == (JavaConfigView {
            preferred_java_path: path.deep_view(),
            ..old(config)@
        }),
{
    config.preferred_java_path = path;
}

/// The path of the preferred runtime, if one is set.
pub fn get_preferred_java_path(config: &JavaConfig) -> (path: Option<String>)
    ensures
        path.deep_view() == config@.preferred_java_path,
{
    clone_text(&config.preferred_java_path)
}

/// Records that a detection ran at the time `now`, in seconds since the
/// Unix epoch.
pub fn update_last_detection_time(config: &mut JavaConfig, now: u64)
    ensures
        final(config)@ == (JavaConfigView { last_detection_time: now, ..old(config)@ }),
{
    config.last_detection_time = now;
}

} // verus!
