//! The state of a running show, as the backend hands it out.
use vstd::prelude::*;

verus! {

/// The types of the program around the backend. Their values are carried, never looked into.
pub trait Backend {
    /// Access to the show model.
    type ModelHandle: Clone;

    /// Access to the asset processor.
    type AssetProcessorHandle: Clone;

    /// Access to the cue controller.
    type ControllerHandle: Clone;

    /// The levels that the audio engine measures.
    type SharedLevel: Clone;

    /// Whether and where the project is saved.
    type ProjectStatus: Clone;

    /// The show model.
    type ShowModel: Clone;

    /// What a cue is known by.
    type CueId: Copy;

    /// How far a cue has played.
    type Position: Copy;

    /// The rest of an active cue.
    type CueDetails: Clone;

    /// The rest of the show state.
    type ShowDetails: Clone;

    /// Events other than a state sync.
    type OtherEvent: Clone;
}

/// A cue that is playing, paused or loaded.
pub struct ActiveCue<B: Backend> {
    pub position: B::Position,
    pub details: B::CueDetails,
}

/// The state of the show.
pub struct ShowState<B: Backend> {
    /// The active cues by their ids.
    pub active_cues: Vec<(B::CueId, ActiveCue<B>)>,
    pub details: B::ShowDetails,
}

impl<B: Backend> ShowState<B> {
    /// No cue is listed twice.
    pub open spec fn well_formed(&self) -> bool {
        forall|i: int, j: int|
            0 <= i < j < self.active_cues@.len() ==> #[trigger] self.active_cues@[i].0
                != #[trigger] self.active_cues@[j].0
    }
}

/// Everything that a client needs to show the project.
pub struct FullShowState<B: Backend> {
    pub project_status: B::ProjectStatus,
    pub show_model: B::ShowModel,
    pub show_state: ShowState<B>,
}

/// How far one active cue has played.
pub struct CueState<B: Backend> {
    pub id: B::CueId,
    pub position: B::Position,
}

/// How far the active cues have played.
pub struct SyncData<B: Backend> {
    /// The bit pattern of the latency, a floating-point number. All zeros stand for 0.
    pub latency_bits: u64,
    pub cues: Vec<CueState<B>>,
}

/// What the backend tells its clients.
pub enum BackendEvent<B: Backend> {
    /// The positions of the active cues.
    SyncState(SyncData<B>),
    /// Any other event.
    Other(B::OtherEvent),
}

impl<B: Backend> ActiveCue<B> {
    /// `self` is a clone of `original`.
    pub open spec fn is_clone_of(self, original: Self) -> bool {
        &&& self.position == original.position
        &&& cloned(original.details, self.details)
    }
}

impl<B: Backend> ShowState<B> {
    /// `self` is a clone of `original`.
    pub open spec fn is_clone_of(self, original: Self) -> bool {
        &&& self.active_cues@.len() == original.active_cues@.len()
        &&& forall|i: int|
            0 <= i < original.active_cues@.len() ==> (#[trigger] self.active_cues@[i]).0
                == original.active_cues@[i].0 && self.active_cues@[i].1.is_clone_of(
                original.active_cues@[i].1,
            )
        &&& cloned(original.details, self.details)
    }
}

impl<B: Backend> FullShowState<B> {
    /// `self` is a clone of `original`.
    pub open spec fn is_clone_of(self, original: Self) -> bool {
        &&& cloned(original.project_status, self.project_status)
        &&& cloned(original.show_model, self.show_model)
        &&& self.show_state.is_clone_of(original.show_state)
    }
}

impl<B: Backend> SyncData<B> {
    /// `self` is a clone of `original`.
    pub open spec fn is_clone_of(self, original: Self) -> bool {
        &&& self.latency_bits == original.latency_bits
        &&& self.cues@ == original.cues@
    }
}

impl<B: Backend> BackendEvent<B> {
    /// `self` is a clone of `original`.
    pub open spec fn is_clone_of(self, original: Self) -> bool {
        match (original, self) {
            (BackendEvent::SyncState(a), BackendEvent::SyncState(b)) => b.is_clone_of(a),
            (BackendEvent::Other(a), BackendEvent::Other(b)) => cloned(a, b),
            _ => false,
        }
    }
}

/// A clone of a show state lists as many active cues, each with the same id and position and a
/// clone of its details, in the same order.
pub proof fn cloned_states_list_the_same_cues<B: Backend>(
    state: ShowState<B>,
    copy: ShowState<B>,
    i: int,
)
    requires
        copy.is_clone_of(state),
    ensures
        copy.active_cues@.len() == state.active_cues@.len(),
        0 <= i < state.active_cues@.len() ==> copy.active_cues@[i].0 == state.active_cues@[i].0
            && copy.active_cues@[i].1.position == state.active_cues@[i].1.position && cloned(
            state.active_cues@[i].1.details,
            copy.active_cues@[i].1.details,
        ),
        cloned(state.details, copy.details),
{
}

/// A clone of a full state holds a clone of the project's status and of the show model, and all
/// active cues.
pub proof fn cloned_full_states_hold_the_same<B: Backend>(
    full: FullShowState<B>,
    copy: FullShowState<B>,
    i: int,
)
    requires
        copy.is_clone_of(full),
    ensures
        cloned(full.project_status, copy.project_status),
        cloned(full.show_model, copy.show_model),
        cloned(full.show_state.details, copy.show_state.details),
        copy.show_state.active_cues@.len() == full.show_state.active_cues@.len(),
        0 <= i < full.show_state.active_cues@.len() ==> copy.show_state.active_cues@[i].0
            == full.show_state.active_cues@[i].0 && copy.show_state.active_cues@[i].1.position
            == full.show_state.active_cues@[i].1.position && cloned(
            full.show_state.active_cues@[i].1.details,
            copy.show_state.active_cues@[i].1.details,
        ),
{
    cloned_states_list_the_same_cues(full.show_state, copy.show_state, i);
}

/// A clone of an event is of the same kind; of a sync it has the same latency and the same cues,
/// in the same order.
pub proof fn cloned_events_tell_the_same<B: Backend>(
    event: BackendEvent<B>,
    copy: BackendEvent<B>,
    i: int,
)
    requires
        copy.is_clone_of(event),
    ensures
        event is SyncState <==> copy is SyncState,
        event matches BackendEvent::Other(told) ==> (copy matches BackendEvent::Other(retold)
            && cloned(told, retold)),
        event matches BackendEvent::SyncState(data) ==> (copy matches BackendEvent::SyncState(
            again,
        ) && again.latency_bits == data.latency_bits && again.cues@.len() == data.cues@.len() && (0
            <= i < data.cues@.len() ==> again.cues@[i].id == data.cues@[i].id
            && again.cues@[i].position == data.cues@[i].position)),
{
}

impl<B: Backend> Clone for ActiveCue<B> {
    fn clone(&self) -> (r: Self)
        ensures
            r.is_clone_of(*self),
            r.position == self.position,
            cloned(self.details, r.details),
    {
        ActiveCue { position: self.position, details: self.details.clone() }
    }
}

impl<B: Backend> Clone for ShowState<B> {
    fn clone(&self) -> (r: Self)
        ensures
            r.is_clone_of(*self),
            r.active_cues@.len() == self.active_cues@.len(),
            forall|i: int|
                0 <= i < self.active_cues@.len() ==> (#[trigger] r.active_cues@[i]).0
                    == self.active_cues@[i].0 && r.active_cues@[i].1.position
                    == self.active_cues@[i].1.position && cloned(
                    self.active_cues@[i].1.details,
                    r.active_cues@[i].1.details,
                ),
            cloned(self.details, r.details),
    {
        let mut active_cues: Vec<(B::CueId, ActiveCue<B>)> = Vec::new();
        let mut i: usize = 0;
        while i < self.active_cues.len()
            invariant
                i <= self.active_cues@.len(),
                active_cues@.len() == i,
                forall|j: int|
                    0 <= j < i ==> (#[trigger] active_cues@[j]).0 == self.active_cues@[j].0
                        && active_cues@[j].1.is_clone_of(self.active_cues@[j].1),
            decreases self.active_cues@.len() - i,
        {
            let entry = &self.active_cues[i];
            active_cues.push((entry.0, entry.1.clone()));
            i += 1;
        }
        ShowState { active_cues, details: self.details.clone() }
    }
}

impl<B: Backend> Clone for FullShowState<B> {
    fn clone(&self) -> (r: Self)
        ensures
            r.is_clone_of(*self),
            cloned(self.project_status, r.project_status),
            cloned(self.show_model, r.show_model),
            cloned(self.show_state.details, r.show_state.details),
            r.show_state.active_cues@.len() == self.show_state.active_cues@.len(),
            forall|i: int|
                0 <= i < self.show_state.active_cues@.len() ==> (
                #[trigger] r.show_state.active_cues@[i]).0 == self.show_state.active_cues@[i].0
                    && r.show_state.active_cues@[i].1.position
                    == self.show_state.active_cues@[i].1.position && cloned(
                    self.show_state.active_cues@[i].1.details,
                    r.show_state.active_cues@[i].1.details,
                ),
    {
        FullShowState {
            project_status: self.project_status.clone(),
            show_model: self.show_model.clone(),
            show_state: self.show_state.clone(),
        }
    }
}

impl<B: Backend> Clone for CueState<B> {
    fn clone(&self) -> (r: Self)
        ensures
            r == *self,
    {
        CueState { id: self.id, position: self.position }
    }
}

impl<B: Backend> Clone for SyncData<B> {
    fn clone(&self) -> (r: Self)
        ensures
            r.is_clone_of(*self),
            r.latency_bits == self.latency_bits,
            r.cues@ == self.cues@,
    {
        let mut cues: Vec<CueState<B>> = Vec::new();
        let mut i: usize = 0;
        while i < self.cues.len()
            invariant
                i <= self.cues@.len(),
                cues@ == self.cues@.take(i as int),
            decreases self.cues@.len() - i,
        {
            cues.push(self.cues[i].clone());
            i += 1;
        }
        assert(cues@ =~= self.cues@);
        SyncData { latency_bits: self.latency_bits, cues }
    }
}

impl<B: Backend> Clone for BackendEvent<B> {
    fn clone(&self) -> (r: Self)
        ensures
            r.is_clone_of(*self),
            self matches BackendEvent::SyncState(data) ==> (r matches BackendEvent::SyncState(again)
                && again.latency_bits == data.latency_bits && again.cues@ == data.cues@),
            self matches BackendEvent::Other(told) ==> (r matches BackendEvent::Other(retold)
                && cloned(*told, retold)),
    {
        match self {
            BackendEvent::SyncState(data) => BackendEvent::SyncState(data.clone()),
            BackendEvent::Other(event) => BackendEvent::Other(event.clone()),
        }
    }
}

} // verus!
