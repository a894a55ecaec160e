use vstd::prelude::*;

use crate::errors::Failure;
use crate::metadata::CoverInfo;
use crate::registry::{is_known_collection, spec_is_known, CollectionDescriptor};
use crate::selection::{select_sample, AssetRef, SAMPLE_COUNT, SAMPLE_THRESHOLD};

verus! {

/// Where a run stands: which answer the orchestrator is waiting for.
#[derive(Clone, Copy, Debug, PartialEq, Eq, Structural)]
pub enum Phase {
    /// Nothing has happened yet.
    Start,
    /// The registry listing was requested.
    AwaitRegistry,
    /// The membership query was issued.
    AwaitMembers,
    /// The current sample item's metadata was requested.
    AwaitMetadata,
    /// The current sample item's cover bytes were requested.
    AwaitContent,
    /// The run is over, fatally or with a full batch report.
    Finished,
}

/// How one sampled asset fared.
#[derive(Clone, Copy, Debug, PartialEq, Eq, Structural)]
pub enum ItemOutcome {
    /// Its cover was downloaded and written.
    Fetched,
    /// A file under its name already stood in the output directory and was
    /// left untouched.
    AlreadyPresent,
    /// Its metadata could not be resolved to a cover location.
    ResolveFailed(Failure),
    /// Its cover could not be fetched or stored.
    FetchFailed(Failure),
}

/// The recorded outcome for one sampled asset.
#[derive(Clone, Debug, PartialEq, Eq)]
pub struct ItemReport {
    pub asset_id: String,
    pub outcome: ItemOutcome,
}

/// What the caller observed when asked to fetch and store one cover.
#[derive(Clone, Copy, Debug, PartialEq, Eq, Structural)]
pub enum StoreOutcome {
    /// The bytes were fetched and written to a new file.
    Stored,
    /// The target file already existed; nothing was written.
    AlreadyPresent,
    /// The gateway credential is absent from the environment.
    CredentialMissing,
    /// The gateway did not hand the bytes over.
    GatewayUnavailable,
    /// Writing the file or making the directory failed.
    WriteFailed,
}

/// What the orchestrator hears back, one event per action it asked for.
#[derive(Debug, PartialEq, Eq)]
pub enum Event {
    /// Start the run.
    Begin,
    /// The registry listing, already read into descriptors, or the failure
    /// that kept it from arriving.
    Registry(Result<Vec<CollectionDescriptor>, Failure>),
    /// The collection's member list, already read into references, or the
    /// failure that kept it from arriving.
    Members(Result<Vec<AssetRef>, Failure>),
    /// The current item's resolved cover, or the failure resolving it.
    Resolved(Result<CoverInfo, Failure>),
    /// How storing the current item's cover went.
    Content(StoreOutcome),
}

/// What the orchestrator asks the caller to do next.
#[derive(Debug, PartialEq, Eq)]
pub enum Action {
    /// Fetch the registry listing and answer with `Event::Registry`.
    FetchRegistry,
    /// Query the members of this collection and answer with `Event::Members`.
    FetchMembers(String),
    /// Fetch this asset's metadata, resolve it, and answer with
    /// `Event::Resolved`.
    FetchMetadata(String),
    /// Fetch the cover at `location`, store it under `name`, and answer with
    /// `Event::Content`.
    FetchContent { location: String, name: String },
    /// The run is over; no answer is expected.
    Stop,
}

/// The whole workflow as a state machine. The caller performs each returned
/// [`Action`], hands the observed [`Event`] back to [`Workflow::step`], and
/// repeats until `Action::Stop`; every decision in between is made here.
pub struct Workflow {
    /// The collection identifier under scrutiny.
    pub identifier: String,
    /// Where the run stands.
    pub phase: Phase,
    /// Sampled assets not yet attempted, in sample order.
    pub pending: Vec<AssetRef>,
    /// The sampled asset being resolved or fetched right now.
    pub current: Option<AssetRef>,
    /// One entry per attempted sample item, in sample order.
    pub report: Vec<ItemReport>,
    /// The failure that ended the run before the batch, where one did.
    pub fatal: Option<Failure>,
}

/// The per-item outcome a store observation stands for.
pub open spec fn outcome_of_store(o: StoreOutcome) -> ItemOutcome {
    match o {
        StoreOutcome::Stored => ItemOutcome::Fetched,
        StoreOutcome::AlreadyPresent => ItemOutcome::AlreadyPresent,
        StoreOutcome::CredentialMissing => ItemOutcome::FetchFailed(Failure::CredentialMissing),
        StoreOutcome::GatewayUnavailable => ItemOutcome::FetchFailed(Failure::GatewayUnavailable),
        StoreOutcome::WriteFailed => ItemOutcome::FetchFailed(Failure::WriteFailed),
    }
}

/// The batch bookkeeping did not move.
pub open spec fn unchanged_batch(pre: Workflow, post: Workflow) -> bool {
    &&& post.identifier == pre.identifier
    &&& post.report@ == pre.report@
    &&& post.pending@ == pre.pending@
    &&& post.current == pre.current
}

/// The run ended with `f` before any batch work moved.
pub open spec fn halted(pre: Workflow, post: Workflow, f: Failure) -> bool {
    &&& post.phase is Finished
    &&& post.fatal == Some(f)
    &&& post.identifier == pre.identifier
    &&& post.report@ == pre.report@
    &&& post.pending@ == pre.pending@
    &&& post.current is None
}

/// The current item was recorded with `outcome` and the batch moved on: to
/// the next pending item, or to a finished run when none is left. Whatever
/// the outcome was, nothing becomes fatal and no other item is touched.
pub open spec fn advanced(
    pre: Workflow,
    post: Workflow,
    action: Action,
    outcome: ItemOutcome,
) -> bool {
    &&& pre.current matches Some(cur) && post.report@ == pre.report@.push(
        ItemReport { asset_id: cur.asset_id, outcome },
    )
    &&& post.identifier == pre.identifier
    &&& post.fatal is None
    &&& if pre.pending@.len() > 0 {
        &&& post.phase is AwaitMetadata
        &&& (post.current matches Some(c) && c == pre.pending@[0])
        &&& post.pending@ == pre.pending@.skip(1)
        &&& (action matches Action::FetchMetadata(id) && id == pre.pending@[0].asset_id)
    } else {
        &&& post.phase is Finished
        &&& post.current is None
        &&& post.pending@ == pre.pending@
        &&& action is Stop
    }
}

/// The transition relation of the orchestrator: what one step does for every
/// phase and the event answering it.
pub open spec fn step_ok(pre: Workflow, event: Event, post: Workflow, action: Action) -> bool {
    match (pre.phase, event) {
        (Phase::Start, Event::Begin) => {
            &&& unchanged_batch(pre, post)
            &&& post.phase is AwaitRegistry
            &&& post.fatal is None
            &&& action is FetchRegistry
        },
        (Phase::AwaitRegistry, Event::Registry(res)) => match res {
            Ok(registry) => if spec_is_known(registry@, pre.identifier@) {
                &&& unchanged_batch(pre, post)
                &&& post.phase is AwaitMembers
                &&& post.fatal is None
                &&& (action matches Action::FetchMembers(id) && id == pre.identifier)
            } else {
                halted(pre, post, Failure::UnknownCollection) && action is Stop
            },
            Err(f) => halted(pre, post, f) && action is Stop,
        },
        (Phase::AwaitMembers, Event::Members(res)) => match res {
            Ok(members) => if members@.len() <= SAMPLE_THRESHOLD as int {
                halted(pre, post, Failure::InsufficientAssets(members@.len() as usize))
                    && action is Stop
            } else {
                &&& post.phase is AwaitMetadata
                &&& post.fatal is None
                &&& post.identifier == pre.identifier
                &&& post.report@ == pre.report@
                &&& (post.current matches Some(cur) && cur.asset_id == members@[1].asset_id)
                &&& post.pending@.len() == SAMPLE_COUNT - 1
                &&& (forall|j: int|
                    0 <= j < SAMPLE_COUNT - 1 ==> post.pending@[j].asset_id == members@[j
                        + 2].asset_id)
                &&& (action matches Action::FetchMetadata(id) && id == members@[1].asset_id)
            },
            Err(f) => halted(pre, post, f) && action is Stop,
        },
        (Phase::AwaitMetadata, Event::Resolved(res)) => match res {
            Ok(cover) => {
                &&& unchanged_batch(pre, post)
                &&& post.phase is AwaitContent
                &&& post.fatal is None
                &&& (action matches Action::FetchContent { location, name } && location
                    == cover.location && name == cover.name)
            },
            Err(f) => advanced(pre, post, action, ItemOutcome::ResolveFailed(f)),
        },
        (Phase::AwaitContent, Event::Content(o)) => advanced(pre, post, action, outcome_of_store(o)),
        _ => false,
    }
}

impl Workflow {
    /// No batch work has happened.
    pub open spec fn no_batch(self) -> bool {
        &&& self.report@.len() == 0
        &&& self.pending@.len() == 0
        &&& self.current is None
        &&& self.fatal is None
    }

    /// The batch is under way: one item in hand, and report entries plus
    /// items still to come always account for the whole sample.
    pub open spec fn mid_batch(self) -> bool {
        &&& self.current is Some
        &&& self.fatal is None
        &&& self.report@.len() + self.pending@.len() + 1 == SAMPLE_COUNT as int
    }

    /// The state invariant: what holds of every reachable state.
    pub open spec fn wf(self) -> bool {
        match self.phase {
            Phase::Start => self.no_batch(),
            Phase::AwaitRegistry => self.no_batch(),
            Phase::AwaitMembers => self.no_batch(),
            Phase::AwaitMetadata => self.mid_batch(),
            Phase::AwaitContent => self.mid_batch(),
            Phase::Finished => self.current is None && (self.fatal is Some || (self.report@.len()
                == SAMPLE_COUNT as int && self.pending@.len() == 0)),
        }
    }

    /// The event kind that answers the action this phase is waiting on.
    pub open spec fn expects(self, event: Event) -> bool {
        match (self.phase, event) {
            (Phase::Start, Event::Begin) => true,
            (Phase::AwaitRegistry, Event::Registry(_)) => true,
            (Phase::AwaitMembers, Event::Members(_)) => true,
            (Phase::AwaitMetadata, Event::Resolved(_)) => true,
            (Phase::AwaitContent, Event::Content(_)) => true,
            _ => false,
        }
    }

    /// A fresh run for one collection identifier.
    pub fn new(identifier: String) -> (w: Workflow)
        ensures
            w.wf(),
            w.phase is Start,
            w.identifier == identifier,
            w.report@.len() == 0,
            w.fatal is None,
    {
        Workflow {
            identifier,
            phase: Phase::Start,
            pending: Vec::new(),
            current: None,
            report: Vec::new(),
            fatal: None,
        }
    }

    /// Ends the run with a fatal failure before any batch work.
    fn halt(&mut self, f: Failure) -> (action: Action)
        requires
            old(self).current is None,
        ensures
            final(self).wf(),
            halted(*old(self), *final(self), f),
            action is Stop,
    {
        self.phase = Phase::Finished;
        self.fatal = Some(f);
        Action::Stop
    }

    /// Records the current item's outcome and moves the batch on.
    fn advance(&mut self, outcome: ItemOutcome) -> (action: Action)
        requires
            old(self).wf(),
            old(self).phase is AwaitMetadata || old(self).phase is AwaitContent,
        ensures
            final(self).wf(),
            advanced(*old(self), *final(self), action, outcome),
    {
        let cur = self.current.take().unwrap();
        self.report.push(ItemReport { asset_id: cur.asset_id, outcome });
        if self.pending.len() > 0 {
            let ghost pending0 = self.pending@;
            let next = self.pending.remove(0);
            proof {
                assert(self.pending@ =~= pending0.skip(1));
            }
            let id = next.asset_id.clone();
            self.current = Some(next);
            self.phase = Phase::AwaitMetadata;
            Action::FetchMetadata(id)
        } else {
            self.phase = Phase::Finished;
            Action::Stop
        }
    }

    /// One orchestrator step: takes the event answering the pending action
    /// and returns the next action. Exactly the transition relation
    /// [`step_ok`] holds between the old and new state.
    pub fn step(&mut self, event: Event) -> (action: Action)
        requires
            old(self).wf(),
            old(self).expects(event),
        ensures
            final(self).wf(),
            step_ok(*old(self), event, *final(self), action),
    {
        match event {
            Event::Begin => {
                self.phase = Phase::AwaitRegistry;
                Action::FetchRegistry
            },
            Event::Registry(res) => match res {
                Ok(registry) => {
                    if is_known_collection(&registry, self.identifier.as_str()) {
                        self.phase = Phase::AwaitMembers;
                        Action::FetchMembers(self.identifier.clone())
                    } else {
                        self.halt(Failure::UnknownCollection)
                    }
                },
                Err(f) => self.halt(f),
            },
            Event::Members(res) => match res {
                Ok(members) => match select_sample(&members) {
                    Ok(sample) => {
                        let mut sample = sample;
                        let ghost sample0 = sample@;
                        let first = sample.remove(0);
                        proof {
                            assert(sample@ =~= sample0.skip(1));
                        }
                        let id = first.asset_id.clone();
                        self.current = Some(first);
                        self.pending = sample;
                        self.phase = Phase::AwaitMetadata;
                        Action::FetchMetadata(id)
                    },
                    Err(f) => self.halt(f),
                },
                Err(f) => self.halt(f),
            },
            Event::Resolved(res) => match res {
                Ok(cover) => {
                    self.phase = Phase::AwaitContent;
                    Action::FetchContent { location: cover.location, name: cover.name }
                },
                Err(f) => self.advance(ItemOutcome::ResolveFailed(f)),
            },
            Event::Content(o) => {
                let outcome = match o {
                    StoreOutcome::Stored => ItemOutcome::Fetched,
                    StoreOutcome::AlreadyPresent => ItemOutcome::AlreadyPresent,
                    StoreOutcome::CredentialMissing => ItemOutcome::FetchFailed(
                        Failure::CredentialMissing,
                    ),
                    StoreOutcome::GatewayUnavailable => ItemOutcome::FetchFailed(
                        Failure::GatewayUnavailable,
                    ),
                    StoreOutcome::WriteFailed => ItemOutcome::FetchFailed(Failure::WriteFailed),
                };
                self.advance(outcome)
            },
        }
    }
}

/// What the process reports when the run is over: nonzero only where the
/// identifier was not recognized as a known collection. Every other ending —
/// an unreachable or malformed service, a too-small collection, per-item
/// failures — leaves the exit clean, with its diagnostics on the error
/// stream.
pub open spec fn spec_exit_code(fatal: Option<Failure>) -> i32 {
    match fatal {
        Some(Failure::UnknownCollection) => 1,
        _ => 0,
    }
}

/// The exit status a finished run maps to.
pub fn exit_code(w: &Workflow) -> (c: i32)
    ensures
        c == spec_exit_code(w.fatal),
{
    match w.fatal {
        Some(Failure::UnknownCollection) => 1,
        _ => 0,
    }
}

/// What to do about a target file before writing a downloaded cover.
#[derive(Clone, Copy, Debug, PartialEq, Eq, Structural)]
pub enum StorePlan {
    /// A file already stands at the target path: it counts as completely
    /// downloaded and must not be written again.
    KeepExisting,
    /// Nothing stands at the target path: write the fetched bytes there.
    WriteNew,
}

/// The storing rule for one fetched cover: an existing file is never
/// overwritten, a missing one is written.
pub fn store_plan(file_exists: bool) -> (p: StorePlan)
    ensures
        p == (if file_exists {
            StorePlan::KeepExisting
        } else {
            StorePlan::WriteNew
        }),
{
    if file_exists {
        StorePlan::KeepExisting
    } else {
        StorePlan::WriteNew
    }
}

/// Law: while the batch is under way, one item's outcome — success or any
/// per-item failure — never turns fatal, always grows the report by exactly
/// its own entry, and leaves the run either at the next item or finished
/// with the whole sample reported.
pub proof fn lemma_per_item_outcome_never_fatal(
    pre: Workflow,
    event: Event,
    post: Workflow,
    action: Action,
)
    requires
        pre.wf(),
        pre.phase is AwaitMetadata || pre.phase is AwaitContent,
        (pre.phase is AwaitMetadata && event matches Event::Resolved(Err(_))) || (
        pre.phase is AwaitContent && event matches Event::Content(_)),
        step_ok(pre, event, post, action),
    ensures
        post.fatal is None,
        post.report@.len() == pre.report@.len() + 1,
        post.phase is AwaitMetadata || post.phase is Finished,
        post.phase is Finished ==> post.report@.len() == SAMPLE_COUNT as int,
{
}

/// Law: a run that finishes without a fatal failure reports every sampled
/// asset: its report carries exactly one entry per sample position.
pub proof fn lemma_finished_run_reports_whole_sample(w: Workflow)
    requires
        w.wf(),
        w.phase is Finished,
        w.fatal is None,
    ensures
        w.report@.len() == SAMPLE_COUNT as int,
{
}

/// Law: an identifier the registry does not carry under the target chain
/// halts the run at the registry check: nothing is queried afterwards and no
/// batch work happens.
pub proof fn lemma_unknown_collection_halts(
    pre: Workflow,
    registry: Vec<CollectionDescriptor>,
    post: Workflow,
    action: Action,
)
    requires
        pre.wf(),
        pre.phase is AwaitRegistry,
        !spec_is_known(registry@, pre.identifier@),
        step_ok(pre, Event::Registry(Ok(registry)), post, action),
    ensures
        post.phase is Finished,
        post.fatal == Some(Failure::UnknownCollection),
        post.report@.len() == 0,
        action is Stop,
{
}

} // verus!
