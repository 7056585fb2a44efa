//! Choosing the Java runtime for a launch.
//!
//! The places are tried in this order, and the first runtime that answers
//! and whose major version lies within the bounds is taken: the path that
//! the instance sets for itself, the path of the launcher's settings, the
//! path that the user prefers, and then every runtime that detection
//! finds, the newest first. Each place is looked at only when the ones
//! before it gave nothing.

use vstd::prelude::*;

use crate::java::select::{first_within, get_compatible_java, is_java_compatible};
use crate::java::validation::version_within;
use crate::java::{installations_of, opt_installation, InstallationView, JavaInstallation};

verus! {

/// The places a runtime is looked for, in their order.
#[derive(Clone, Copy, Debug, PartialEq, Eq, Structural)]
pub enum JavaSource {
    /// The path that the instance sets for itself.
    InstanceOverride,
    /// The path of the launcher's settings.
    GlobalPath,
    /// The path that the user prefers.
    Preferred,
}

/// What the caller does next.
#[derive(Debug)]
pub enum ResolveStep {
    /// Look at the runtime at `path` and report what is found there.
    Probe { source: JavaSource, path: String },
    /// Read the preferred path from the Java settings and report it.
    ReadPreferred,
    /// Detect all runtimes and report them.
    DetectAll,
    /// The search is over: this is the runtime to use, if any.
    Done(Option<JavaInstallation>),
}

/// The mathematical content of a `ResolveStep`.
pub enum StepView {
    Probe { source: JavaSource, path: Seq<char> },
    ReadPreferred,
    DetectAll,
    Done(Option<InstallationView>),
}

impl View for ResolveStep {
    type V = StepView;

    open spec fn view(&self) -> StepView {
        match *self {
            ResolveStep::Probe { source, path } => StepView::Probe { source, path: path@ },
            ResolveStep::ReadPreferred => StepView::ReadPreferred,
            ResolveStep::DetectAll => StepView::DetectAll,
            ResolveStep::Done(java) => StepView::Done(opt_installation(java)),
        }
    }
}

/// A path is set: it is there and not empty.
pub open spec fn is_set(path: Option<Seq<char>>) -> bool {
    path matches Some(p) && p.len() > 0
}

/// The step that looks at the settings' path, or goes on to the preferred
/// one where none is set.
pub open spec fn global_step(global_java_path: Option<Seq<char>>) -> StepView {
    if is_set(global_java_path) {
        StepView::Probe { source: JavaSource::GlobalPath, path: global_java_path->0 }
    } else {
        StepView::ReadPreferred
    }
}

/// The step after the place `source` gave nothing.
pub open spec fn step_after(source: JavaSource, global_java_path: Option<Seq<char>>) -> StepView {
    match source {
        JavaSource::InstanceOverride => global_step(global_java_path),
        JavaSource::GlobalPath => StepView::ReadPreferred,
        JavaSource::Preferred => StepView::DetectAll,
    }
}

/// The step for the settings' path.
fn try_global(global_java_path: Option<&str>) -> (step: ResolveStep)
    ensures
        step@ == global_step(crate::text::opt_text(global_java_path)),
{
    match global_java_path {
        Some(path) => {
            if path.unicode_len() > 0 {
                ResolveStep::Probe { source: JavaSource::GlobalPath, path: path.to_string() }
            } else {
                ResolveStep::ReadPreferred
            }
        },
        None => ResolveStep::ReadPreferred,
    }
}

/// The first step of the search: the instance's own path if one is set,
/// else the settings' path if one is set, else the preferred path.
pub fn first_step(instance_java_override: Option<&str>, global_java_path: Option<&str>) -> (step:
    ResolveStep)
    ensures
        step@ == if is_set(crate::text::opt_text(instance_java_override)) {
            StepView::Probe { source: JavaSource::InstanceOverride, path: instance_java_override->0@ }
        } else {
            global_step(crate::text::opt_text(global_java_path))
        },
{
    match instance_java_override {
        Some(path) => {
            if path.unicode_len() > 0 {
                ResolveStep::Probe { source: JavaSource::InstanceOverride, path: path.to_string() }
            } else {
                try_global(global_java_path)
            }
        },
        None => try_global(global_java_path),
    }
}

/// The step after the runtime at the path of `source` was looked at. A
/// runtime that answered and lies within the bounds ends the search;
/// otherwise the next place is tried.
pub fn after_probe(
    source: JavaSource,
    found: Option<JavaInstallation>,
    global_java_path: Option<&str>,
    required_major_version: Option<u64>,
    max_major_version: Option<u32>,
) -> (step: ResolveStep)
    ensures
        step@ == match found {
            Some(java) if version_within(
                java@.major(),
                required_major_version,
                max_major_version,
            ) => StepView::Done(Some(java@)),
            _ => step_after(source, crate::text::opt_text(global_java_path)),
        },
{
    if is_java_compatible(found.as_ref(), required_major_version, max_major_version) {
        return ResolveStep::Done(found);
    }
    match source {
        JavaSource::InstanceOverride => try_global(global_java_path),
        JavaSource::GlobalPath => ResolveStep::ReadPreferred,
        JavaSource::Preferred => ResolveStep::DetectAll,
    }
}

/// The step after the preferred path was read: look at it if there is one,
/// else detect.
pub fn after_preferred(preferred: Option<String>) -> (step: ResolveStep)
    ensures
        step@ == match preferred {
            Some(path) => StepView::Probe { source: JavaSource::Preferred, path: path@ },
            None => StepView::DetectAll,
        },
{
    match preferred {
        Some(path) => ResolveStep::Probe { source: JavaSource::Preferred, path },
        None => ResolveStep::DetectAll,
    }
}

/// The end of the search: the first detected runtime within the bounds.
pub fn after_detection(
    installations: &Vec<JavaInstallation>,
    required_major_version: Option<u64>,
    max_major_version: Option<u32>,
) -> (step: ResolveStep)
    ensures
        step@ == StepView::Done(
            first_within(
                installations_of(installations@),
                required_major_version,
                max_major_version,
            ),
        ),
{
    ResolveStep::Done(
        get_compatible_java(installations, required_major_version, max_major_version),
    )
}

} // verus!
