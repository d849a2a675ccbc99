//! The auxiliary source controller: splices a secondary video source into
//! the live pipeline, and takes it out again.
//!
//! Each transition is a plan of pipeline steps that the caller carries out
//! in order, then reports whether they all took effect. A plan pauses the
//! pipeline before it touches the routing and resumes it last, so that the
//! routing never switches while the pipeline flows. A transition that failed
//! leaves the controller in the state it had.

use vstd::prelude::*;

verus! {

/// Whether the auxiliary source feeds the picture, and from where.
#[derive(Clone, Debug)]
pub enum AuxState {
    /// The auxiliary branch is present but locked out of the pipeline.
    Idle,
    /// The auxiliary branch is the active video feed, read from this location.
    Playing(String),
}

/// The mathematical value of an `AuxState`.
pub enum AuxStateView {
    Idle,
    Playing(Seq<char>),
}

impl View for AuxState {
    type V = AuxStateView;

    open spec fn view(&self) -> AuxStateView {
        match self {
            AuxState::Idle => AuxStateView::Idle,
            AuxState::Playing(l) => AuxStateView::Playing(l@),
        }
    }
}

/// One operation on the live pipeline.
#[derive(Clone, Debug)]
pub enum PipelineStep {
    /// Bring the pipeline to a quiescent state.
    Pause,
    /// Set the auxiliary branch's source location.
    SetLocation(String),
    /// Let the auxiliary branch take part in the pipeline's scheduling.
    Unlock,
    /// Lock the auxiliary branch out of the pipeline's scheduling.
    Lock,
    /// Route the primary (synthetic) source to the picture.
    SelectPrimary,
    /// Route the auxiliary branch to the picture.
    SelectAuxiliary,
    /// Let the pipeline flow again.
    Resume,
}

/// The mathematical value of a `PipelineStep`.
pub enum StepView {
    Pause,
    SetLocation(Seq<char>),
    Unlock,
    Lock,
    SelectPrimary,
    SelectAuxiliary,
    Resume,
}

impl View for PipelineStep {
    type V = StepView;

    open spec fn view(&self) -> StepView {
        match self {
            PipelineStep::Pause => StepView::Pause,
            PipelineStep::SetLocation(l) => StepView::SetLocation(l@),
            PipelineStep::Unlock => StepView::Unlock,
            PipelineStep::Lock => StepView::Lock,
            PipelineStep::SelectPrimary => StepView::SelectPrimary,
            PipelineStep::SelectAuxiliary => StepView::SelectAuxiliary,
            PipelineStep::Resume => StepView::Resume,
        }
    }
}

/// The steps that make the auxiliary source at `location` the picture.
pub open spec fn set_source_plan(location: Seq<char>) -> Seq<StepView> {
    seq![
        StepView::Pause,
        StepView::SetLocation(location),
        StepView::Unlock,
        StepView::SelectAuxiliary,
        StepView::Resume,
    ]
}

/// The steps that give the picture back to the primary source.
pub open spec fn disable_plan() -> Seq<StepView> {
    seq![StepView::Pause, StepView::SelectPrimary, StepView::Lock, StepView::Resume]
}

/// A routing step.
pub open spec fn is_routing(s: StepView) -> bool {
    s is SelectPrimary || s is SelectAuxiliary
}

/// A plan pauses first and resumes last, and routes only in between.
pub open spec fn routes_only_while_paused(p: Seq<StepView>) -> bool {
    &&& p.len() >= 2
    &&& p[0] is Pause
    &&& p.last() is Resume
    &&& forall|i: int| 0 <= i < p.len() && #[trigger] is_routing(p[i]) ==> 0 < i < p.len() - 1
}

/// The state after a `set_file_source` plan was carried out (`applied`) or failed.
pub open spec fn after_set_source(s: AuxStateView, location: Seq<char>, applied: bool) -> AuxStateView {
    if applied {
        AuxStateView::Playing(location)
    } else {
        s
    }
}

/// The state after a `disable_background_video` plan was carried out
/// (`applied`) or failed.
pub open spec fn after_disable(s: AuxStateView, applied: bool) -> AuxStateView {
    if applied {
        AuxStateView::Idle
    } else {
        s
    }
}

/// From `Idle`, a source that was set is `Playing` at its location; from
/// any state, disabling gives `Idle`; setting a source while one plays moves
/// straight to the new location, by a plan that never routes the primary
/// source nor locks the auxiliary branch, so no `Idle` is seen in between.
/// Both plans route only while the pipeline is paused.
pub proof fn lemma_aux_transitions(s: AuxStateView, location: Seq<char>)
    ensures
        s is Idle ==> after_set_source(s, location, true) == AuxStateView::Playing(location),
        s is Playing ==> after_set_source(s, location, true) == AuxStateView::Playing(location),
        after_disable(s, true) is Idle,
        forall|i: int|
            0 <= i < set_source_plan(location).len() ==> !(set_source_plan(location)[i] is SelectPrimary)
                && !(set_source_plan(location)[i] is Lock),
        routes_only_while_paused(set_source_plan(location)),
        routes_only_while_paused(disable_plan()),
{
    let p = set_source_plan(location);
    assert forall|i: int| 0 <= i < p.len() && #[trigger] is_routing(p[i]) implies 0 < i < p.len()
        - 1 by {
        if i == 0 || i == 4 {
            assert(!is_routing(p[i]));
        }
    }
    let d = disable_plan();
    assert forall|i: int| 0 <= i < d.len() && #[trigger] is_routing(d[i]) implies 0 < i < d.len()
        - 1 by {
        if i == 0 || i == 3 {
            assert(!is_routing(d[i]));
        }
    }
}

/// Owns the auxiliary source's state. Calls on one controller must be
/// serialized by its owner.
pub struct BackgroundController {
    state: AuxState,
}

impl View for BackgroundController {
    type V = AuxStateView;

    closed spec fn view(&self) -> AuxStateView {
        self.state@
    }
}

impl BackgroundController {
    /// A controller whose auxiliary branch is idle.
    pub fn new() -> (r: Self)
        ensures
            r@ is Idle,
    {
        BackgroundController { state: AuxState::Idle }
    }

    /// The current state.
    pub fn current(&self) -> (r: &AuxState)
        ensures
            r@ == self@,
    {
        &self.state
    }

    /// The steps that make the file at `location` the picture: pause, set
    /// the location, unlock the auxiliary branch, route it, resume.
    pub fn set_file_source(&self, location: &str) -> (r: Vec<PipelineStep>)
        ensures
            r@.map_values(|s: PipelineStep| s@) == set_source_plan(location@),
    {
        let r = vec![
            PipelineStep::Pause,
            PipelineStep::SetLocation(String::from_str(location)),
            PipelineStep::Unlock,
            PipelineStep::SelectAuxiliary,
            PipelineStep::Resume,
        ];
        assert(r@.map_values(|s: PipelineStep| s@) =~= set_source_plan(location@));
        r
    }

    /// The steps that take the auxiliary source out: pause, route the
    /// primary source, lock the auxiliary branch, resume.
    pub fn disable_background_video(&self) -> (r: Vec<PipelineStep>)
        ensures
            r@.map_values(|s: PipelineStep| s@) == disable_plan(),
    {
        let r = vec![
            PipelineStep::Pause,
            PipelineStep::SelectPrimary,
            PipelineStep::Lock,
            PipelineStep::Resume,
        ];
        assert(r@.map_values(|s: PipelineStep| s@) =~= disable_plan());
        r
    }

    /// Records whether the plan of `set_file_source(location)` took effect.
    pub fn finish_set_source(&mut self, location: &str, applied: bool)
        ensures
            final(self)@ == after_set_source(old(self)@, location@, applied),
    {
        if applied {
            self.state = AuxState::Playing(String::from_str(location));
        }
    }

    /// Records whether the plan of `disable_background_video` took effect.
    pub fn finish_disable(&mut self, applied: bool)
        ensures
            final(self)@ == after_disable(old(self)@, applied),
    {
        if applied {
            self.state = AuxState::Idle;
        }
    }
}

} // verus!
