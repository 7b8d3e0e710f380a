//! Creating and tearing down segments.
//!
//! Creating a segment alternates OS work with decisions: open a fresh name
//! exclusively, size the object, map it, register it, hand it out. The
//! decisions are a machine here: [`Creation::step`] takes what the OS
//! reported and says what to do next. The caller performs each action and
//! feeds back the outcome, until the machine publishes a segment or fails.
//! Every OS resource the machine learns of is either still held by it,
//! rolled back by it, or handed to the registry.

use vstd::prelude::*;
use vstd::multiset::Multiset;
use crate::registry::{SegmentRecord, SegmentRegistry};

verus! {

broadcast use vstd::seq_lib::lemma_multiset_commutative;

/// How many fresh names one creation may try before giving up.
pub const MAX_ATTEMPTS: u32 = 8;

/// Why a segment could not be created.
#[derive(PartialEq, Eq, Structural, Clone, Copy, Debug)]
pub enum ShmError {
    /// A segment of zero bytes was asked for.
    InvalidSize,
    /// Every name tried was already taken.
    AllocationExhausted,
    /// The OS refused to create, size or map the segment.
    OsFailure,
    /// The registry's lock was poisoned by an earlier panic.
    LockPoisoned,
}

/// One step of releasing OS resources.
#[derive(Debug, PartialEq, Eq)]
pub enum Release {
    /// Unmap `size` bytes at `address`.
    Unmap { address: usize, size: usize },
    /// Close an OS descriptor.
    CloseDescriptor(i32),
    /// Remove a named object from the OS namespace.
    Unlink(String),
}

/// The release steps for a segment object named `name`, open as `descriptor`
/// and, when `mapping` holds an address and a length, mapped there: unmap
/// first, then close the descriptor (a negative one was never open), then
/// unlink the name.
pub open spec fn cleanup_steps(name: String, descriptor: i32, mapping: Option<(usize, usize)>) -> Seq<Release> {
    (match mapping {
        Some((address, size)) => seq![Release::Unmap { address, size }],
        None => Seq::empty(),
    }) + (if descriptor >= 0 {
        seq![Release::CloseDescriptor(descriptor)]
    } else {
        Seq::empty()
    }) + seq![Release::Unlink(name)]
}

/// The release steps that tear a registered segment down.
pub open spec fn teardown_steps(record: SegmentRecord) -> Seq<Release> {
    cleanup_steps(record.name, record.descriptor, Some((record.address, record.size)))
}

/// Lists the release steps of [`cleanup_steps`].
pub fn cleanup_plan(name: String, descriptor: i32, mapping: Option<(usize, usize)>) -> (r: Vec<Release>)
    ensures
        r@ == cleanup_steps(name, descriptor, mapping),
{
    let mut steps: Vec<Release> = Vec::new();
    match mapping {
        Some((address, size)) => steps.push(Release::Unmap { address, size }),
        None => {},
    }
    if descriptor >= 0 {
        steps.push(Release::CloseDescriptor(descriptor));
    }
    steps.push(Release::Unlink(name));
    assert(steps@ =~= cleanup_steps(name, descriptor, mapping));
    steps
}

/// Takes the segment named `name` out of the registry and lists the steps
/// that tear it down. `None` when no live segment has that name: it was
/// never created or is torn down already, and there is nothing to do.
pub fn close_segment(registry: &mut SegmentRegistry, name: &str) -> (r: Option<Vec<Release>>)
    requires
        old(registry).wf(),
    ensures
        final(registry).wf(),
        final(registry)@ == old(registry)@.remove(name@),
        match r {
            Some(steps) => {
                &&& old(registry)@.contains_key(name@)
                &&& old(registry)@[name@].name@ == name@
                &&& steps@ == teardown_steps(old(registry)@[name@])
            },
            None => !old(registry)@.contains_key(name@),
        },
{
    match registry.remove(name) {
        Some(record) => {
            let steps = cleanup_plan(record.name, record.descriptor, Some((record.address, record.size)));
            Some(steps)
        },
        None => {
            assert(old(registry)@.remove(name@) =~= old(registry)@);
            None
        },
    }
}

/// Closing a segment twice: the second close finds nothing, lists no
/// teardown and leaves the registry as the first close left it. So an
/// explicit close and the release of the buffer that wraps the segment can
/// come in either order, and the segment is torn down once.
pub proof fn lemma_second_close_is_no_op(live: Map<Seq<char>, SegmentRecord>, name: Seq<char>)
    ensures
        !live.remove(name).contains_key(name),
        live.remove(name).remove(name) == live.remove(name),
{
    assert(live.remove(name).remove(name) =~= live.remove(name));
}

/// Where a creation stands.
#[derive(Debug, PartialEq, Eq)]
pub enum CreatePhase {
    /// A fresh name is being opened; `attempts` names have been tried,
    /// this one included.
    Opening { attempts: u32 },
    /// The object `name` exists, open as `descriptor`, with no length yet.
    Opened { name: String, descriptor: i32 },
    /// The object has its length and is not mapped yet.
    Sized { name: String, descriptor: i32 },
    /// The object is mapped at `address` and not registered yet.
    Mapped { name: String, descriptor: i32, address: usize },
    /// The segment is registered and handed out; the registry owns it.
    Live,
    /// The creation failed and holds nothing.
    Failed(ShmError),
}

/// What the OS, or the registry, reported of the last action.
#[derive(Debug, PartialEq, Eq)]
pub enum OsEvent {
    /// A fresh name was opened exclusively.
    Opened { name: String, descriptor: i32 },
    /// The fresh name was taken already.
    NameTaken,
    /// Opening failed for another reason.
    OpenFailed,
    /// The object got its length.
    Resized,
    /// Setting the length failed.
    ResizeFailed,
    /// The object was mapped at `address`.
    Mapped { address: usize },
    /// Mapping failed.
    MapFailed,
    /// The record went into the registry.
    Registered,
    /// The registry holds that name already.
    NameInUse,
    /// The registry's lock is poisoned.
    RegistryPoisoned,
}

/// What to do next.
#[derive(Debug, PartialEq, Eq)]
pub enum CreateAction {
    /// Generate a fresh name and open it exclusively, owner read/write only.
    OpenFresh,
    /// Give the object its length.
    Resize { descriptor: i32, size: usize },
    /// Map the object read-write.
    MapObject { descriptor: i32, size: usize },
    /// Put the record into the registry.
    Register(SegmentRecord),
    /// Hand the segment out: a buffer over `size` bytes at `address`,
    /// released by closing `name`.
    Publish { name: String, address: usize, size: usize },
    /// Release what is held (the steps of [`cleanup_steps`]), then fail
    /// with `error`.
    Rollback { name: String, descriptor: i32, mapping: Option<(usize, usize)>, error: ShmError },
    /// Fail with the error; nothing is held.
    Fail(ShmError),
    /// The creation is over; nothing to do.
    Nothing,
}

/// One request for a segment of `size` bytes.
#[derive(Debug, PartialEq, Eq)]
pub struct Creation {
    pub size: usize,
    pub phase: CreatePhase,
}

/// The state a creation of `size > 0` bytes starts in, about to open its
/// first name.
pub open spec fn initial(size: usize) -> Creation {
    Creation { size, phase: CreatePhase::Opening { attempts: 1 } }
}

/// The phase that follows `e`.
pub open spec fn next_phase(c: Creation, e: OsEvent) -> CreatePhase {
    match c.phase {
        CreatePhase::Opening { attempts } => match e {
            OsEvent::Opened { name, descriptor } => CreatePhase::Opened { name, descriptor },
            OsEvent::NameTaken => if attempts < MAX_ATTEMPTS {
                CreatePhase::Opening { attempts: (attempts + 1) as u32 }
            } else {
                CreatePhase::Failed(ShmError::AllocationExhausted)
            },
            _ => CreatePhase::Failed(ShmError::OsFailure),
        },
        CreatePhase::Opened { name, descriptor } => match e {
            OsEvent::Resized => CreatePhase::Sized { name, descriptor },
            _ => CreatePhase::Failed(ShmError::OsFailure),
        },
        CreatePhase::Sized { name, descriptor } => match e {
            OsEvent::Mapped { address } => CreatePhase::Mapped { name, descriptor, address },
            _ => CreatePhase::Failed(ShmError::OsFailure),
        },
        CreatePhase::Mapped { name, descriptor, address } => match e {
            OsEvent::Registered => CreatePhase::Live,
            OsEvent::RegistryPoisoned => CreatePhase::Failed(ShmError::LockPoisoned),
            _ => CreatePhase::Failed(ShmError::OsFailure),
        },
        CreatePhase::Live => CreatePhase::Live,
        CreatePhase::Failed(error) => CreatePhase::Failed(error),
    }
}

/// The state that follows `e`.
pub open spec fn next_creation(c: Creation, e: OsEvent) -> Creation {
    Creation { size: c.size, phase: next_phase(c, e) }
}

/// The action that follows `e`. A name collision is retried with a fresh
/// name until [`MAX_ATTEMPTS`] names were tried; any other failure after an
/// object exists rolls back all that is held.
pub open spec fn next_action(c: Creation, e: OsEvent) -> CreateAction {
    match c.phase {
        CreatePhase::Opening { attempts } => match e {
            OsEvent::Opened { name, descriptor } => CreateAction::Resize { descriptor, size: c.size },
            OsEvent::NameTaken => if attempts < MAX_ATTEMPTS {
                CreateAction::OpenFresh
            } else {
                CreateAction::Fail(ShmError::AllocationExhausted)
            },
            _ => CreateAction::Fail(ShmError::OsFailure),
        },
        CreatePhase::Opened { name, descriptor } => match e {
            OsEvent::Resized => CreateAction::MapObject { descriptor, size: c.size },
            _ => CreateAction::Rollback { name, descriptor, mapping: None, error: ShmError::OsFailure },
        },
        CreatePhase::Sized { name, descriptor } => match e {
            OsEvent::Mapped { address } => CreateAction::Register(
                SegmentRecord { name, address, size: c.size, descriptor },
            ),
            _ => CreateAction::Rollback { name, descriptor, mapping: None, error: ShmError::OsFailure },
        },
        CreatePhase::Mapped { name, descriptor, address } => match e {
            OsEvent::Registered => CreateAction::Publish { name, address, size: c.size },
            OsEvent::RegistryPoisoned => CreateAction::Rollback {
                name,
                descriptor,
                mapping: Some((address, c.size)),
                error: ShmError::LockPoisoned,
            },
            _ => CreateAction::Rollback {
                name,
                descriptor,
                mapping: Some((address, c.size)),
                error: ShmError::OsFailure,
            },
        },
        CreatePhase::Live => CreateAction::Nothing,
        CreatePhase::Failed(_) => CreateAction::Nothing,
    }
}

/// The release steps for what a creation holds: the object once it is open,
/// and its mapping once it is mapped.
pub open spec fn held(c: Creation) -> Seq<Release> {
    match c.phase {
        CreatePhase::Opened { name, descriptor } => cleanup_steps(name, descriptor, None),
        CreatePhase::Sized { name, descriptor } => cleanup_steps(name, descriptor, None),
        CreatePhase::Mapped { name, descriptor, address } => cleanup_steps(
            name,
            descriptor,
            Some((address, c.size)),
        ),
        _ => Seq::empty(),
    }
}

/// The release steps for what `e` gives a creation: a new object, or a
/// mapping. An event the phase does not expect gives nothing.
pub open spec fn acquired(c: Creation, e: OsEvent) -> Seq<Release> {
    match (c.phase, e) {
        (CreatePhase::Opening { .. }, OsEvent::Opened { name, descriptor }) => cleanup_steps(name, descriptor, None),
        (CreatePhase::Sized { .. }, OsEvent::Mapped { address }) => seq![Release::Unmap { address, size: c.size }],
        _ => Seq::empty(),
    }
}

/// The release steps an action performs.
pub open spec fn released(a: CreateAction) -> Seq<Release> {
    match a {
        CreateAction::Rollback { name, descriptor, mapping, .. } => cleanup_steps(name, descriptor, mapping),
        _ => Seq::empty(),
    }
}

/// The release steps whose duty passes to the registry with `e`: all that
/// is held, once the registry reports the record in.
pub open spec fn handed_over(c: Creation, e: OsEvent) -> Seq<Release> {
    match (c.phase, e) {
        (CreatePhase::Mapped { .. }, OsEvent::Registered) => held(c),
        _ => Seq::empty(),
    }
}

/// The state after a sequence of events.
pub open spec fn run(c: Creation, events: Seq<OsEvent>) -> Creation
    decreases events.len(),
{
    if events.len() == 0 {
        c
    } else {
        run(next_creation(c, events[0]), events.drop_first())
    }
}

/// All that a sequence of events gave the creation, in release steps.
pub open spec fn run_acquired(c: Creation, events: Seq<OsEvent>) -> Seq<Release>
    decreases events.len(),
{
    if events.len() == 0 {
        Seq::empty()
    } else {
        acquired(c, events[0]) + run_acquired(next_creation(c, events[0]), events.drop_first())
    }
}

/// All release steps that the actions of a sequence of events performed.
pub open spec fn run_released(c: Creation, events: Seq<OsEvent>) -> Seq<Release>
    decreases events.len(),
{
    if events.len() == 0 {
        Seq::empty()
    } else {
        released(next_action(c, events[0])) + run_released(next_creation(c, events[0]), events.drop_first())
    }
}

/// All release steps handed to the registry along a sequence of events.
pub open spec fn run_handed_over(c: Creation, events: Seq<OsEvent>) -> Seq<Release>
    decreases events.len(),
{
    if events.len() == 0 {
        Seq::empty()
    } else {
        handed_over(c, events[0]) + run_handed_over(next_creation(c, events[0]), events.drop_first())
    }
}

proof fn lemma_step_ledger(c: Creation, e: OsEvent)
    ensures
        held(next_creation(c, e)).to_multiset().add(released(next_action(c, e)).to_multiset()).add(
            handed_over(c, e).to_multiset(),
        ) == held(c).to_multiset().add(acquired(c, e).to_multiset()),
{
    broadcast use vstd::multiset::group_multiset_axioms;
    broadcast use vstd::seq_lib::group_to_multiset_ensures;

    let empty = Seq::<Release>::empty();
    assert(empty.to_multiset() =~= Multiset::empty());
    match (c.phase, e) {
        (CreatePhase::Sized { name, descriptor }, OsEvent::Mapped { address }) => {
            let close = if descriptor >= 0 { seq![Release::CloseDescriptor(descriptor)] } else { empty };
            let unmap = seq![Release::Unmap { address, size: c.size }];
            let rest = close + seq![Release::Unlink(name)];
            assert(held(next_creation(c, e)) =~= unmap + rest);
            assert(held(c) =~= rest);
            assert(acquired(c, e) == unmap);
            assert((unmap + rest).to_multiset() =~= unmap.to_multiset().add(rest.to_multiset()));
        },
        _ => {},
    }
    assert(held(next_creation(c, e)).to_multiset().add(released(next_action(c, e)).to_multiset()).add(
        handed_over(c, e).to_multiset(),
    ) =~= held(c).to_multiset().add(acquired(c, e).to_multiset()));
}

proof fn lemma_run_ledger(c: Creation, events: Seq<OsEvent>)
    ensures
        held(run(c, events)).to_multiset().add(run_released(c, events).to_multiset()).add(
            run_handed_over(c, events).to_multiset(),
        ) == held(c).to_multiset().add(run_acquired(c, events).to_multiset()),
    decreases events.len(),
{
    broadcast use vstd::multiset::group_multiset_axioms;
    broadcast use vstd::seq_lib::group_to_multiset_ensures;

    let empty = Seq::<Release>::empty();
    assert(empty.to_multiset() =~= Multiset::empty());
    if events.len() == 0 {
        assert(held(c).to_multiset().add(Multiset::empty()).add(Multiset::empty()) =~= held(c).to_multiset().add(
            Multiset::empty(),
        ));
    } else {
        let e = events[0];
        let n = next_creation(c, e);
        let rest = events.drop_first();
        lemma_step_ledger(c, e);
        lemma_run_ledger(n, rest);
        let h = held(run(n, rest)).to_multiset();
        assert(run(c, events) == run(n, rest));
        assert(run_released(c, events).to_multiset() =~= released(next_action(c, e)).to_multiset().add(
            run_released(n, rest).to_multiset(),
        ));
        assert(run_handed_over(c, events).to_multiset() =~= handed_over(c, e).to_multiset().add(
            run_handed_over(n, rest).to_multiset(),
        ));
        assert(run_acquired(c, events).to_multiset() =~= acquired(c, e).to_multiset().add(
            run_acquired(n, rest).to_multiset(),
        ));
        assert(h.add(run_released(c, events).to_multiset()).add(run_handed_over(c, events).to_multiset())
            =~= held(c).to_multiset().add(run_acquired(c, events).to_multiset()));
    }
}

proof fn lemma_run_keeps_size(c: Creation, events: Seq<OsEvent>)
    ensures
        run(c, events).size == c.size,
    decreases events.len(),
{
    if events.len() > 0 {
        lemma_run_keeps_size(next_creation(c, events[0]), events.drop_first());
    }
}

proof fn lemma_live_stays_live(c: Creation, events: Seq<OsEvent>)
    requires
        c.phase is Live,
    ensures
        run(c, events).phase is Live,
        run_handed_over(c, events).len() == 0,
    decreases events.len(),
{
    if events.len() > 0 {
        lemma_live_stays_live(next_creation(c, events[0]), events.drop_first());
    }
}

proof fn lemma_failed_run_hands_nothing_over(c: Creation, events: Seq<OsEvent>)
    requires
        !(c.phase is Live),
        run(c, events).phase is Failed,
    ensures
        run_handed_over(c, events).len() == 0,
    decreases events.len(),
{
    if events.len() > 0 {
        let n = next_creation(c, events[0]);
        if n.phase is Live {
            lemma_live_stays_live(n, events.drop_first());
        } else {
            lemma_failed_run_hands_nothing_over(n, events.drop_first());
            assert(handed_over(c, events[0]).len() == 0);
        }
    }
}

/// A creation leaks nothing. Whatever the OS and the registry report, a
/// creation of `size > 0` bytes keeps that size, and every OS resource it
/// acquired is, after each event, in exactly one place: still held by the
/// creation, released by its rollback, or handed to the registry. A creation
/// that ends in failure has handed nothing to the registry and holds
/// nothing, so its rollbacks released exactly what it acquired.
pub proof fn lemma_creation_leaks_nothing(size: usize, events: Seq<OsEvent>)
    requires
        size > 0,
    ensures
        run(initial(size), events).size == size,
        held(run(initial(size), events)).to_multiset().add(run_released(initial(size), events).to_multiset()).add(
            run_handed_over(initial(size), events).to_multiset(),
        ) == run_acquired(initial(size), events).to_multiset(),
        run(initial(size), events).phase is Failed ==> {
            &&& held(run(initial(size), events)).len() == 0
            &&& run_handed_over(initial(size), events).len() == 0
            &&& run_released(initial(size), events).to_multiset() == run_acquired(initial(size), events).to_multiset()
        },
{
    broadcast use vstd::multiset::group_multiset_axioms;
    broadcast use vstd::seq_lib::group_to_multiset_ensures;

    let c = initial(size);
    let empty = Seq::<Release>::empty();
    assert(empty.to_multiset() =~= Multiset::empty());
    assert(held(c) == empty);
    lemma_run_ledger(c, events);
    lemma_run_keeps_size(c, events);
    assert(Multiset::<Release>::empty().add(run_acquired(c, events).to_multiset()) =~= run_acquired(c, events).to_multiset());
    if run(c, events).phase is Failed {
        lemma_failed_run_hands_nothing_over(c, events);
        assert(run_handed_over(c, events) =~= empty);
        assert(held(run(c, events)) == empty);
        assert(Multiset::<Release>::empty().add(run_released(c, events).to_multiset()).add(Multiset::empty())
            =~= run_released(c, events).to_multiset());
    }
}

impl Creation {
    /// Starts creating a segment of `size` bytes. A size of zero is refused
    /// before any OS work; otherwise the first action is to open a fresh
    /// name.
    pub fn start(size: u32) -> (r: Result<(Creation, CreateAction), ShmError>)
        ensures
            size == 0 <==> r is Err,
            r is Err ==> r == Err::<(Creation, CreateAction), ShmError>(ShmError::InvalidSize),
            r matches Ok((c, a)) ==> c == initial(size as usize) && a == CreateAction::OpenFresh,
    {
        if size == 0 {
            return Err(ShmError::InvalidSize);
        }
        Ok((Creation { size: size as usize, phase: CreatePhase::Opening { attempts: 1 } }, CreateAction::OpenFresh))
    }

    /// Takes what the OS reported of the last action and says what to do next.
    pub fn step(&mut self, e: OsEvent) -> (r: CreateAction)
        ensures
            *final(self) == next_creation(*old(self), e),
            r == next_action(*old(self), e),
    {
        let size = self.size;
        let (phase, action) = match &self.phase {
            CreatePhase::Opening { attempts } => match e {
                OsEvent::Opened { name, descriptor } => (
                    CreatePhase::Opened { name, descriptor },
                    CreateAction::Resize { descriptor, size },
                ),
                OsEvent::NameTaken => if *attempts < MAX_ATTEMPTS {
                    (CreatePhase::Opening { attempts: *attempts + 1 }, CreateAction::OpenFresh)
                } else {
                    (
                        CreatePhase::Failed(ShmError::AllocationExhausted),
                        CreateAction::Fail(ShmError::AllocationExhausted),
                    )
                },
                _ => (CreatePhase::Failed(ShmError::OsFailure), CreateAction::Fail(ShmError::OsFailure)),
            },
            CreatePhase::Opened { name, descriptor } => match e {
                OsEvent::Resized => (
                    CreatePhase::Sized { name: name.clone(), descriptor: *descriptor },
                    CreateAction::MapObject { descriptor: *descriptor, size },
                ),
                _ => (
                    CreatePhase::Failed(ShmError::OsFailure),
                    CreateAction::Rollback {
                        name: name.clone(),
                        descriptor: *descriptor,
                        mapping: None,
                        error: ShmError::OsFailure,
                    },
                ),
            },
            CreatePhase::Sized { name, descriptor } => match e {
                OsEvent::Mapped { address } => (
                    CreatePhase::Mapped { name: name.clone(), descriptor: *descriptor, address },
                    CreateAction::Register(
                        SegmentRecord { name: name.clone(), address, size, descriptor: *descriptor },
                    ),
                ),
                _ => (
                    CreatePhase::Failed(ShmError::OsFailure),
                    CreateAction::Rollback {
                        name: name.clone(),
                        descriptor: *descriptor,
                        mapping: None,
                        error: ShmError::OsFailure,
                    },
                ),
            },
            CreatePhase::Mapped { name, descriptor, address } => match e {
                OsEvent::Registered => (
                    CreatePhase::Live,
                    CreateAction::Publish { name: name.clone(), address: *address, size },
                ),
                OsEvent::RegistryPoisoned => (
                    CreatePhase::Failed(ShmError::LockPoisoned),
                    CreateAction::Rollback {
                        name: name.clone(),
                        descriptor: *descriptor,
                        mapping: Some((*address, size)),
                        error: ShmError::LockPoisoned,
                    },
                ),
                _ => (
                    CreatePhase::Failed(ShmError::OsFailure),
                    CreateAction::Rollback {
                        name: name.clone(),
                        descriptor: *descriptor,
                        mapping: Some((*address, size)),
                        error: ShmError::OsFailure,
                    },
                ),
            },
            CreatePhase::Live => (CreatePhase::Live, CreateAction::Nothing),
            CreatePhase::Failed(error) => (CreatePhase::Failed(*error), CreateAction::Nothing),
        };
        self.phase = phase;
        action
    }
}

} // verus!
