//! The sink assembler: a verbosity count and a destination set become an
//! ordered sink list — one console sink whose severity floor the verbosity
//! tunes, then one maximally verbose file sink per canonical path — and a
//! two-stage setup pipeline that falls back to a console-only sink list at
//! the `Warn` floor when installing the primary list fails.
//!
//! Opening the files and installing the sinks as the process-wide logging
//! backend is I/O and is carried out by the embedding binary; it reports
//! each installation attempt back to [`SetupPipeline::report`], which
//! decides what, if anything, to install next. The pipeline hands out at
//! most one installation per phase and none once it is done: installation
//! is one-shot, never repeated.

use vstd::prelude::*;
use crate::aggregate::DestinationSet;

verus! {

/// The minimum importance a sink lets through.
#[derive(Clone, Copy, PartialEq, Eq, Structural, Debug)]
pub enum Severity {
    Warn,
    Info,
    Debug,
}

/// The console sink's severity floor for a verbosity occurrence count:
/// silent flags warn, one flag informs, more flags debug.
pub open spec fn console_floor_spec(verbosity: int) -> Severity {
    if verbosity == 0 {
        Severity::Warn
    } else if verbosity == 1 {
        Severity::Info
    } else {
        Severity::Debug
    }
}

/// The console sink's severity floor for a verbosity occurrence count.
pub fn console_floor(verbosity_count: u64) -> (s: Severity)
    ensures
        s == console_floor_spec(verbosity_count as int),
{
    if verbosity_count == 0 {
        Severity::Warn
    } else if verbosity_count == 1 {
        Severity::Info
    } else {
        Severity::Debug
    }
}

/// One sink of the assembled list.
pub enum Sink {
    /// The console sink with its verbosity-derived floor.
    Console { floor: Severity },
    /// A file sink for one canonical destination path.
    File { path: String, floor: Severity },
}

/// A sink at the level of the model: the path as a character sequence.
pub ghost enum SinkModel {
    Console { floor: Severity },
    File { path: Seq<char>, floor: Severity },
}

impl View for Sink {
    type V = SinkModel;

    open spec fn view(&self) -> SinkModel {
        match self {
            Sink::Console { floor } => SinkModel::Console { floor: *floor },
            Sink::File { path, floor } => SinkModel::File { path: path@, floor: *floor },
        }
    }
}

impl DeepView for Sink {
    type V = SinkModel;

    open spec fn deep_view(&self) -> SinkModel {
        self.view()
    }
}

/// The assembled sink list for a verbosity count and a destination set: the
/// console sink first, then one `Debug`-floor file sink per destination, in
/// the set's order.
pub open spec fn assembled_sinks(verbosity: int, ds: Seq<Seq<char>>) -> Seq<SinkModel> {
    seq![SinkModel::Console { floor: console_floor_spec(verbosity) }] + Seq::new(
        ds.len(),
        |i: int| SinkModel::File { path: ds[i], floor: Severity::Debug },
    )
}

/// The console-only sink list the pipeline falls back to: one console sink
/// at the `Warn` floor.
pub open spec fn console_only_warn() -> Seq<SinkModel> {
    seq![SinkModel::Console { floor: Severity::Warn }]
}

/// Builds the primary sink list: one console sink whose floor the verbosity
/// count derives, then one file sink per destination with a fixed `Debug`
/// floor — file sinks are always maximally verbose, only the console floor
/// is user-tunable.
pub fn assemble_plan(verbosity_count: u64, destinations: &DestinationSet) -> (v: Vec<Sink>)
    ensures
        v.deep_view() == assembled_sinks(verbosity_count as int, destinations@),
{
    let ghost goal = assembled_sinks(verbosity_count as int, destinations@);
    let mut v: Vec<Sink> = Vec::new();
    v.push(Sink::Console { floor: console_floor(verbosity_count) });
    let n = destinations.len();
    let mut i: usize = 0;
    while i < n
        invariant
            i <= n == destinations@.len(),
            goal == assembled_sinks(verbosity_count as int, destinations@),
            goal.len() == n + 1,
            v@.len() == i + 1,
            forall|j: int| 0 <= j < v@.len() ==> #[trigger] v@[j]@ == goal[j],
        decreases n - i,
    {
        v.push(Sink::File { path: destinations.path_at(i).clone(), floor: Severity::Debug });
        i = i + 1;
    }
    proof {
        assert forall|j: int| 0 <= j < v@.len() implies #[trigger] v.deep_view()[j] == v@[j]@ by {}
        assert(v.deep_view() =~~= goal);
    }
    v
}

/// Builds the fallback sink list: the console sink alone, at the `Warn`
/// floor.
pub fn fallback_plan() -> (v: Vec<Sink>)
    ensures
        v.deep_view() == console_only_warn(),
{
    let mut v: Vec<Sink> = Vec::new();
    v.push(Sink::Console { floor: Severity::Warn });
    proof {
        assert forall|j: int| 0 <= j < v@.len() implies #[trigger] v.deep_view()[j] == v@[j]@ by {}
        assert(v.deep_view() =~~= console_only_warn());
    }
    v
}

/// Where one logging-setup run stands.
#[derive(Clone, Copy, PartialEq, Eq, Structural, Debug)]
pub enum SetupPhase {
    /// The primary sink list is being installed.
    Primary,
    /// The primary installation failed; the fallback list is being
    /// installed.
    Fallback,
    /// A backend is installed; nothing further may be installed.
    Done,
    /// Even the fallback could not be installed.
    Failed,
}

/// The phase after an installation attempt is reported.
pub open spec fn next_phase_spec(phase: SetupPhase, installed: bool) -> SetupPhase {
    match phase {
        SetupPhase::Primary => if installed {
            SetupPhase::Done
        } else {
            SetupPhase::Fallback
        },
        SetupPhase::Fallback => if installed {
            SetupPhase::Done
        } else {
            SetupPhase::Failed
        },
        SetupPhase::Done => SetupPhase::Done,
        SetupPhase::Failed => SetupPhase::Failed,
    }
}

/// What to install after an installation attempt is reported: only a failed
/// primary attempt asks for anything more, namely the console-only fallback.
pub open spec fn retry_plan_spec(phase: SetupPhase, installed: bool) -> Option<Seq<SinkModel>> {
    if phase is Primary && !installed {
        Option::Some(console_only_warn())
    } else {
        Option::None
    }
}

/// The two-stage setup pipeline: install the primary sink list; on failure
/// install the strictly simpler console-only list; surface failure only if
/// that also fails. Once a backend is installed the pipeline never asks for
/// another installation.
pub struct SetupPipeline {
    phase: SetupPhase,
}

impl SetupPipeline {
    /// Where the run stands.
    pub closed spec fn phase(&self) -> SetupPhase {
        self.phase
    }

    /// A fresh run, about to install the primary sink list.
    pub fn new() -> (p: SetupPipeline)
        ensures
            p.phase() is Primary,
    {
        SetupPipeline { phase: SetupPhase::Primary }
    }

    /// Where the run stands.
    pub fn current_phase(&self) -> (ph: SetupPhase)
        ensures
            ph == self.phase(),
    {
        self.phase
    }

    /// Reports whether the current installation attempt succeeded, and
    /// hands back the sink list to try next: the console-only fallback
    /// after a failed primary attempt, nothing otherwise.
    pub fn report(&mut self, installed: bool) -> (r: Option<Vec<Sink>>)
        ensures
            final(self).phase() == next_phase_spec(old(self).phase(), installed),
            (r is Some) == (retry_plan_spec(old(self).phase(), installed) is Some),
            r matches Some(v) ==> v.deep_view() == console_only_warn(),
    {
        match self.phase {
            SetupPhase::Primary => {
                if installed {
                    self.phase = SetupPhase::Done;
                    None
                } else {
                    self.phase = SetupPhase::Fallback;
                    Some(fallback_plan())
                }
            },
            SetupPhase::Fallback => {
                self.phase = if installed {
                    SetupPhase::Done
                } else {
                    SetupPhase::Failed
                };
                None
            },
            SetupPhase::Done => None,
            SetupPhase::Failed => None,
        }
    }
}

/// Fallback guarantee: when primary sink assembly or installation fails,
/// the one thing installed next is the console-only sink list at the `Warn`
/// floor — the failure never propagates as another error — and once a
/// backend is installed, or the fallback has failed too, nothing is ever
/// installed again.
pub proof fn lemma_fallback_guarantee()
    ensures
        retry_plan_spec(SetupPhase::Primary, false) == Option::Some(console_only_warn()),
        console_only_warn() == seq![SinkModel::Console { floor: Severity::Warn }],
        forall|ph: SetupPhase, ok: bool|
            !(ph is Primary && !ok) ==> retry_plan_spec(ph, ok) is None,
        next_phase_spec(SetupPhase::Primary, false) is Fallback,
        next_phase_spec(SetupPhase::Fallback, true) is Done,
        next_phase_spec(SetupPhase::Fallback, false) is Failed,
        forall|ok: bool| next_phase_spec(SetupPhase::Done, ok) is Done,
        forall|ok: bool| next_phase_spec(SetupPhase::Failed, ok) is Failed,
{
}

} // verus!
