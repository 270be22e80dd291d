//! Where a command stands while it waits for an answer.

use crate::text::opt_text;
use crate::worker::jobs::{Export, ExportView};
use crate::worker::state::{Reload, ReloadView};
use crate::worker::toolchains::id_texts;
use crate::worker::turn::{done, finish, Next, Out, Turn, TurnView};
use vstd::prelude::*;
use vstd::string::*;

verus! {

/// What a command waits for.
#[allow(inconsistent_fields)]
#[derive(Debug)]
pub enum Phase {
    /// The answer to its first request.
    First,
    /// What is known of the job that is exported.
    Export { export: Export },
    /// A page of the history of the job that is exported.
    ExportPages { export: Export },
    /// The writing of an export.
    ExportWritten { path: String },
    /// The check of the toolchain at a place.
    Verify { ids: Vec<Option<String>>, at: usize },
    /// A new set of the latest toolchains.
    LatestMade { sdk_id: String, ndk_id: String },
    /// That the new set becomes the active one.
    LatestActive { set_id: String },
    /// The targets that can be chosen.
    LoadTargets,
    /// The default target.
    UseTarget { set_id: Option<String> },
    /// That a project takes over the defaults.
    UseApply { set_id: Option<String>, target_id: Option<String> },
    /// The launch of an application whose id is known.
    Launching,
    /// The turn to work on the state on disk.
    Locked,
    /// The archive.
    Archived,
    /// The configuration.
    Config,
    /// The services, one after the other.
    Reloading { reload: Reload },
    /// Nothing any more.
    Over,
}

/// What a `Phase` holds, mathematically.
#[allow(inconsistent_fields)]
#[verifier::ext_equal]
pub enum PhaseView {
    First,
    Export { export: ExportView },
    ExportPages { export: ExportView },
    ExportWritten { path: Seq<char> },
    Verify { ids: Seq<Option<Seq<char>>>, at: int },
    LatestMade { sdk_id: Seq<char>, ndk_id: Seq<char> },
    LatestActive { set: Seq<char> },
    LoadTargets,
    UseTarget { set_id: Option<Seq<char>> },
    UseApply { set_id: Option<Seq<char>>, target_id: Option<Seq<char>> },
    Launching,
    Locked,
    Archived,
    Config,
    Reloading { reload: ReloadView },
    Over,
}

impl View for Phase {
    type V = PhaseView;

    open spec fn view(&self) -> PhaseView {
        match *self {
            Phase::First => PhaseView::First,
            Phase::Export { export } => PhaseView::Export { export: export@ },
            Phase::ExportPages { export } => PhaseView::ExportPages { export: export@ },
            Phase::ExportWritten { path } => PhaseView::ExportWritten { path: path@ },
            Phase::Verify { ids, at } => PhaseView::Verify { ids: id_texts(ids@), at: at as int },
            Phase::LatestMade { sdk_id, ndk_id } => PhaseView::LatestMade {
                sdk_id: sdk_id@,
                ndk_id: ndk_id@,
            },
            Phase::LatestActive { set_id } => PhaseView::LatestActive { set: set_id@ },
            Phase::LoadTargets => PhaseView::LoadTargets,
            Phase::UseTarget { set_id } => PhaseView::UseTarget { set_id: opt_text(set_id) },
            Phase::UseApply { set_id, target_id } => PhaseView::UseApply {
                set_id: opt_text(set_id),
                target_id: opt_text(target_id),
            },
            Phase::Launching => PhaseView::Launching,
            Phase::Locked => PhaseView::Locked,
            Phase::Archived => PhaseView::Archived,
            Phase::Config => PhaseView::Config,
            Phase::Reloading { reload } => PhaseView::Reloading { reload: reload@ },
            Phase::Over => PhaseView::Over,
        }
    }
}

/// A turn, and where it leaves the command.
#[verifier::ext_equal]
pub struct StepView {
    pub phase: PhaseView,
    pub turn: TurnView,
}

/// The turn is the last one.
pub open spec fn is_last(turn: TurnView) -> bool {
    turn.next is Done || turn.next is Error
}

/// A turn that leaves the command in a phase, unless it is the last one.
pub open spec fn at(phase: PhaseView, turn: TurnView) -> StepView {
    StepView {
        phase: if is_last(turn) {
            PhaseView::Over
        } else {
            phase
        },
        turn,
    }
}

/// A turn behind which there is nothing to wait for.
pub open spec fn over(turn: TurnView) -> StepView {
    StepView { phase: PhaseView::Over, turn }
}

/// An answer that the command does not wait for: it ends there.
pub open spec fn lost() -> StepView {
    over(done(Seq::empty()))
}

/// A turn that leaves the command in a phase, unless it is the last one.
pub fn settle(phase: Phase, turn: Turn) -> (r: (Phase, Turn))
    ensures
        (StepView { phase: r.0@, turn: r.1@ }) == at(phase@, turn@),
{
    match &turn.next {
        Next::Done => (Phase::Over, turn),
        Next::Error { .. } => (Phase::Over, turn),
        _ => (phase, turn),
    }
}

/// A turn behind which there is nothing to wait for.
pub fn over_turn(turn: Turn) -> (r: (Phase, Turn))
    ensures
        (StepView { phase: r.0@, turn: r.1@ }) == over(turn@),
{
    (Phase::Over, turn)
}

/// An answer that the command does not wait for: it ends there.
pub fn lose() -> (r: (Phase, Turn))
    ensures
        (StepView { phase: r.0@, turn: r.1@ }) == lost(),
{
    (Phase::Over, finish(Out::new()))
}

/// What is seen of a phase is what it holds, each part in its place.
pub proof fn law_phase_is_seen_whole(phase: Phase)
    ensures
        match phase {
            Phase::First => phase@ is First,
            Phase::Export { export } => {
                &&& phase@ is Export
                &&& phase@->Export_export == export@
            },
            Phase::ExportPages { export } => {
                &&& phase@ is ExportPages
                &&& phase@->ExportPages_export == export@
            },
            Phase::ExportWritten { path } => {
                &&& phase@ is ExportWritten
                &&& phase@->ExportWritten_path == path@
            },
            Phase::Verify { ids, at } => {
                &&& phase@ is Verify
                &&& phase@->Verify_ids == id_texts(ids@)
                &&& phase@->Verify_at == at as int
            },
            Phase::LatestMade { sdk_id, ndk_id } => {
                &&& phase@ is LatestMade
                &&& phase@->LatestMade_sdk_id == sdk_id@
                &&& phase@->LatestMade_ndk_id == ndk_id@
            },
            Phase::LatestActive { set_id } => {
                &&& phase@ is LatestActive
                &&& phase@->LatestActive_set == set_id@
            },
            Phase::LoadTargets => phase@ is LoadTargets,
            Phase::UseTarget { set_id } => {
                &&& phase@ is UseTarget
                &&& phase@->UseTarget_set_id == opt_text(set_id)
            },
            Phase::UseApply { set_id, target_id } => {
                &&& phase@ is UseApply
                &&& phase@->UseApply_set_id == opt_text(set_id)
                &&& phase@->UseApply_target_id == opt_text(target_id)
            },
            Phase::Launching => phase@ is Launching,
            Phase::Locked => phase@ is Locked,
            Phase::Archived => phase@ is Archived,
            Phase::Config => phase@ is Config,
            Phase::Reloading { reload } => {
                &&& phase@ is Reloading
                &&& phase@->Reloading_reload == reload@
            },
            Phase::Over => phase@ is Over,
        },
{
}

} // verus!
