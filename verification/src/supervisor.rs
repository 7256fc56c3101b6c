//! The process supervisor: at most one live worker at a time.
//!
//! A [`Supervisor`] owns the worker slot, the loaded-model bookkeeping and
//! the model catalog, and decides every state transition.  The outside work —
//! spawning the worker, terminating it, writing to its input pipe — happens
//! beyond the library: the caller asks the supervisor for a decision, performs
//! the work, and hands the outcome back.  The slot is a single `Option`, and
//! a worker is only ever installed from the idle state, so no sequence of
//! operations can make two live workers exist at once.
//!
//! The supervisor is generic over the handle type `H` the caller uses for a
//! spawned worker; the library never looks inside a handle.

use vstd::prelude::*;
use crate::catalog::{Catalog, FsEntry, ModelRecord, ModelRecordGhost, spec_scan, index_of_id,
    has_id};
use crate::events::{Notification, NotificationGhost};

verus! {

/// A precondition violation of a supervisor operation.
#[derive(Clone, Copy, PartialEq, Eq, Structural, Debug)]
pub enum SupervisorError {
    /// `start` was asked for while a worker is live.
    AlreadyRunning,
    /// `stop` or `send` was asked for while no worker is live.
    NotRunning,
    /// `start` was asked for an identifier the catalog does not hold.
    UnknownModel,
    /// `run_prompt` found no worker, no override and no loaded model.
    NoModelAvailable,
}

/// The supervisor's composite state: the worker slot, the loaded-model
/// bookkeeping, and the catalog.  Callers needing exclusion across
/// concurrent invocations guard the whole value with one lock.
pub struct Supervisor<H> {
    worker: Option<H>,
    loaded: Option<String>,
    catalog: Catalog,
}

/// Mathematical image of a [`Supervisor`].
pub struct SupervisorGhost<H> {
    pub worker: Option<H>,
    pub loaded: Option<Seq<char>>,
    pub catalog: Seq<ModelRecordGhost>,
}

impl<H> View for Supervisor<H> {
    type V = SupervisorGhost<H>;

    closed spec fn view(&self) -> SupervisorGhost<H> {
        SupervisorGhost {
            worker: self.worker,
            loaded: self.loaded.deep_view(),
            catalog: self.catalog@,
        }
    }
}

/// How many live workers a state holds.
pub open spec fn live_workers<H>(s: SupervisorGhost<H>) -> nat {
    if s.worker is Some {
        1nat
    } else {
        0nat
    }
}

/// What `start` decides before any process is spawned: refused while a
/// worker is live, refused for an unknown identifier, and otherwise the
/// record to launch.
pub open spec fn spec_start_request<H>(s: SupervisorGhost<H>, id: Seq<char>) -> Result<
    ModelRecordGhost,
    SupervisorError,
> {
    if s.worker is Some {
        Err(SupervisorError::AlreadyRunning)
    } else if !has_id(s.catalog, id) {
        Err(SupervisorError::UnknownModel)
    } else {
        Ok(s.catalog[index_of_id(s.catalog, id)])
    }
}

/// Installing a freshly spawned worker into the idle state.
pub open spec fn spec_commit<H>(s: SupervisorGhost<H>, h: H) -> SupervisorGhost<H> {
    SupervisorGhost { worker: Some(h), ..s }
}

/// What `stop` does: refused while idle; otherwise the slot is cleared and
/// the handle is surrendered for termination.
pub open spec fn spec_stop<H>(s: SupervisorGhost<H>) -> (SupervisorGhost<H>, Result<
    H,
    SupervisorError,
>) {
    match s.worker {
        Some(h) => (SupervisorGhost { worker: None, ..s }, Ok(h)),
        None => (s, Err(SupervisorError::NotRunning)),
    }
}

/// What `run_prompt` decides: forward the prompt to a live worker; else
/// launch the override model, else the last-loaded model, else report that
/// no model is available.
pub enum PromptPlan {
    /// A worker is live: write this text to its input pipe.
    Send { text: String },
    /// No worker is live: start this model.  The prompt itself is not
    /// forwarded to the freshly started worker; a caller wanting first-prompt
    /// delivery sends it after observing the started state.
    Launch { model_id: String },
    /// No worker, no override, no loaded model.
    Unavailable,
}

/// Mathematical image of a [`PromptPlan`].
pub enum PromptPlanGhost {
    Send { text: Seq<char> },
    Launch { model_id: Seq<char> },
    Unavailable,
}

impl View for PromptPlan {
    type V = PromptPlanGhost;

    open spec fn view(&self) -> PromptPlanGhost {
        match self {
            PromptPlan::Send { text } => PromptPlanGhost::Send { text: text@ },
            PromptPlan::Launch { model_id } => PromptPlanGhost::Launch { model_id: model_id@ },
            PromptPlan::Unavailable => PromptPlanGhost::Unavailable,
        }
    }
}

/// The plan `run_prompt` picks in a given state.
pub open spec fn spec_prompt_plan<H>(
    s: SupervisorGhost<H>,
    prompt: Seq<char>,
    model: Option<Seq<char>>,
) -> PromptPlanGhost {
    if s.worker is Some {
        PromptPlanGhost::Send { text: prompt }
    } else {
        match model {
            Some(m) => PromptPlanGhost::Launch { model_id: m },
            None => match s.loaded {
                Some(l) => PromptPlanGhost::Launch { model_id: l },
                None => PromptPlanGhost::Unavailable,
            },
        }
    }
}

impl<H> Supervisor<H> {
    /// A fresh supervisor: idle, nothing loaded, empty catalog.
    pub fn new() -> (s: Supervisor<H>)
        ensures
            s@.worker is None,
            s@.loaded is None,
            s@.catalog == Seq::<ModelRecordGhost>::empty(),
    {
        Supervisor { worker: None, loaded: None, catalog: Catalog::new() }
    }

    /// Replaces the catalog wholesale with what the given directory listing
    /// yields; the worker slot and the loaded-model bookkeeping are kept.
    pub fn rescan(&mut self, entries: &Vec<FsEntry>)
        ensures
            final(self)@.catalog == spec_scan(entries.deep_view()),
            final(self)@.worker == old(self)@.worker,
            final(self)@.loaded == old(self)@.loaded,
    {
        self.catalog = Catalog::scan(entries);
    }

    /// Hands out a copy of the current catalog snapshot.
    pub fn list_models(&self) -> (r: Vec<ModelRecord>)
        ensures
            r.deep_view() == self@.catalog,
    {
        self.catalog.list()
    }

    /// Marks the record carrying `id` as loaded and records `id` as the
    /// loaded model; an unknown identifier changes nothing.  No process is
    /// started.
    pub fn load_model(&mut self, id: &String)
        ensures
            final(self)@.worker == old(self)@.worker,
            !has_id(old(self)@.catalog, id@) ==> final(self)@ == old(self)@,
            has_id(old(self)@.catalog, id@) ==> final(self)@.loaded == Some(id@)
                && final(self)@.catalog == old(self)@.catalog.update(
                index_of_id(old(self)@.catalog, id@),
                (ModelRecordGhost {
                    loaded: true,
                    ..old(self)@.catalog[index_of_id(old(self)@.catalog, id@)]
                }),
            ),
    {
        let found = self.catalog.set_mark(id, true);
        if found {
            self.loaded = Some(id.clone());
        }
    }

    /// Clears the loaded mark of the loaded model, if any, and forgets it.
    pub fn clear_loaded(&mut self)
        ensures
            final(self)@.worker == old(self)@.worker,
            final(self)@.loaded is None,
            match old(self)@.loaded {
                Some(l) => if has_id(old(self)@.catalog, l) {
                    final(self)@.catalog == old(self)@.catalog.update(
                        index_of_id(old(self)@.catalog, l),
                        (ModelRecordGhost {
                            loaded: false,
                            ..old(self)@.catalog[index_of_id(old(self)@.catalog, l)]
                        }),
                    )
                } else {
                    final(self)@.catalog == old(self)@.catalog
                },
                None => final(self)@.catalog == old(self)@.catalog,
            },
    {
        match self.loaded.take() {
            Some(id) => {
                let _ = self.catalog.set_mark(&id, false);
            },
            None => {},
        }
    }

    /// Whether a worker is live.
    pub fn is_running(&self) -> (r: bool)
        ensures
            r == (self@.worker is Some),
    {
        self.worker.is_some()
    }

    /// The identifier recorded as loaded, if any.
    pub fn loaded_model(&self) -> (r: Option<String>)
        ensures
            r.deep_view() == self@.loaded,
    {
        match &self.loaded {
            Some(id) => Some(id.clone()),
            None => None,
        }
    }

    /// Decides a `start`: refused with `AlreadyRunning` while a worker is
    /// live (the live worker is untouched — this method reads only), refused
    /// with `UnknownModel` for an identifier the catalog does not hold, and
    /// otherwise the record to resolve and spawn.  The caller spawns the
    /// worker and installs its handle with [`Supervisor::start_commit`].
    pub fn start_request(&self, id: &String) -> (r: Result<ModelRecord, SupervisorError>)
        ensures
            match r {
                Ok(rec) => spec_start_request(self@, id@) == Ok::<ModelRecordGhost,
                    SupervisorError,
                >(rec@),
                Err(e) => spec_start_request(self@, id@) == Err::<ModelRecordGhost,
                    SupervisorError,
                >(e),
            },
    {
        if self.worker.is_some() {
            return Err(SupervisorError::AlreadyRunning);
        }
        match self.catalog.get(id) {
            Some(rec) => Ok(rec),
            None => Err(SupervisorError::UnknownModel),
        }
    }

    /// Installs the handle of a worker the caller has just spawned, and
    /// produces the started notification the caller emits — one per start.
    /// Only the idle state accepts a handle, so a live worker is never
    /// overwritten.  The loaded-model bookkeeping is untouched: starting a
    /// model does not mark it loaded.
    pub fn start_commit(&mut self, worker: H) -> (n: Notification)
        requires
            old(self)@.worker is None,
        ensures
            final(self)@ == spec_commit(old(self)@, worker),
            n@ == (NotificationGhost::RunStateChanged { running: true }),
    {
        self.worker = Some(worker);
        Notification::RunStateChanged { running: true }
    }

    /// Decides a `stop`: refused with `NotRunning` while idle; otherwise the
    /// slot is cleared and the handle is returned for the caller to
    /// terminate and reap.  The slot is cleared as soon as termination is
    /// decided, so a handle to a process being signalled is never retained.
    pub fn stop(&mut self) -> (r: Result<H, SupervisorError>)
        ensures
            final(self)@ == spec_stop(old(self)@).0,
            r == spec_stop(old(self)@).1,
    {
        match self.worker.take() {
            Some(h) => Ok(h),
            None => Err(SupervisorError::NotRunning),
        }
    }

    /// Decides a `send`: refused with `NotRunning` while idle; otherwise the
    /// caller may write to the returned handle's input pipe.
    pub fn send_check(&self) -> (r: Result<&H, SupervisorError>)
        ensures
            match r {
                Ok(h) => self@.worker == Some(*h),
                Err(e) => self@.worker is None && e == SupervisorError::NotRunning,
            },
    {
        match &self.worker {
            Some(h) => Ok(h),
            None => Err(SupervisorError::NotRunning),
        }
    }

    /// Decides a `run_prompt`: forward the text to a live worker; otherwise
    /// start the override model if one was given, else the last-loaded
    /// model, else report `Unavailable`.  No implicit forwarding of the
    /// prompt happens on the launch path.
    pub fn prompt_plan(&self, prompt: String, model: Option<String>) -> (p: PromptPlan)
        ensures
            p@ == spec_prompt_plan(self@, prompt@, model.deep_view()),
    {
        if self.worker.is_some() {
            return PromptPlan::Send { text: prompt };
        }
        match model {
            Some(m) => PromptPlan::Launch { model_id: m },
            None => match &self.loaded {
                Some(l) => PromptPlan::Launch { model_id: l.clone() },
                None => PromptPlan::Unavailable,
            },
        }
    }
}

/// No state ever holds more than one live worker: the slot is a single
/// `Option`, and [`Supervisor::start_commit`] — the one transition that
/// fills it — requires the idle state.
pub proof fn lemma_at_most_one_worker<H>(s: SupervisorGhost<H>)
    ensures
        live_workers(s) <= 1,
{
}

/// One lifecycle operation of the worker slot, as the exec methods perform
/// it: a `start` that spawned `H` and committed it, or a `stop`.
pub enum WorkerOp<H> {
    Start { handle: H },
    Stop,
}

/// The state one lifecycle operation leaves behind.  A `start` against a
/// live worker is refused ([`SupervisorError::AlreadyRunning`]) and changes
/// nothing; a `stop` while idle is refused ([`SupervisorError::NotRunning`])
/// and changes nothing.
pub open spec fn spec_apply_op<H>(s: SupervisorGhost<H>, op: WorkerOp<H>) -> SupervisorGhost<H> {
    match op {
        WorkerOp::Start { handle } => if s.worker is None {
            spec_commit(s, handle)
        } else {
            s
        },
        WorkerOp::Stop => spec_stop(s).0,
    }
}

/// The state a whole sequence of lifecycle operations leaves behind.
pub open spec fn spec_apply_ops<H>(s: SupervisorGhost<H>, ops: Seq<WorkerOp<H>>) -> SupervisorGhost<
    H,
>
    decreases ops.len(),
{
    if ops.len() == 0 {
        s
    } else {
        spec_apply_op(spec_apply_ops(s, ops.drop_last()), ops.last())
    }
}

/// For every sequence of start and stop operations, from any state, the
/// supervisor never comes to hold two simultaneously live workers.
pub proof fn lemma_single_worker_for_all_sequences<H>(
    s: SupervisorGhost<H>,
    ops: Seq<WorkerOp<H>>,
)
    ensures
        live_workers(spec_apply_ops(s, ops)) <= 1,
{
}

/// `start` decided while a worker is live always fails with
/// `AlreadyRunning`, whatever the identifier; the decision reads the state
/// only, so the live worker is untouched.
pub proof fn lemma_start_while_running_fails<H>(s: SupervisorGhost<H>, id: Seq<char>)
    requires
        s.worker is Some,
    ensures
        spec_start_request(s, id) == Err::<ModelRecordGhost, SupervisorError>(
            SupervisorError::AlreadyRunning,
        ),
{
}

/// `stop` decided while idle always fails with `NotRunning` and leaves the
/// state unchanged.
pub proof fn lemma_stop_while_idle_fails<H>(s: SupervisorGhost<H>)
    requires
        s.worker is None,
    ensures
        spec_stop(s).1 == Err::<H, SupervisorError>(SupervisorError::NotRunning),
        spec_stop(s).0 == s,
{
}

/// After a successful `stop`, a `start` of any model the catalog holds —
/// the same one or a different one — succeeds: stopping leaves nothing
/// behind that could refuse a later start.
pub proof fn lemma_stop_enables_start<H>(s: SupervisorGhost<H>, id: Seq<char>)
    requires
        s.worker is Some,
        has_id(s.catalog, id),
    ensures
        spec_stop(s).1 is Ok,
        spec_start_request(spec_stop(s).0, id) is Ok,
{
}

} // verus!
