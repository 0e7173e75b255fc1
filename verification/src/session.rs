//! The runtime session lifecycle. A session owns the single opaque handle
//! the runtime library hands out, and the handle must be created exactly
//! once and destroyed exactly once, with every other foreign call falling
//! strictly between the two.
//!
//! The foreign calls themselves cannot be made here: the embedding program
//! loads the library, performs each call this machine requests, and feeds
//! the outcome back as an event. The machine decides, for every event, what
//! the next state is and which call (if any) follows, so the ordering
//! discipline — bind, negotiate the version, create the handle, operate,
//! destroy — is what is verified.

use vstd::prelude::*;

use crate::codes::{spec_from_code, MndResult};
use crate::version::{negotiate, supported_version};

verus! {

/// Where a session stands in its life. `Active` is the only phase in which
/// the opaque handle exists and operations may run; `Closed` is the only
/// phase entered by destroying it.
#[derive(Debug, Copy, Clone, PartialEq, Eq, Structural)]
pub enum Phase {
    /// Nothing has happened yet; the library is not loaded.
    Start,
    /// The library is loaded and all entry points resolved.
    Bound,
    /// The reported version matches the required one.
    Negotiated,
    /// The handle exists; operations may run.
    Active,
    /// Construction failed at some stage; no handle exists.
    Failed { err: MndResult },
    /// The handle has been destroyed.
    Closed,
}

/// The outcome of one step of the construction or teardown protocol, as the
/// embedding program reports it.
#[derive(Debug, Copy, Clone, PartialEq, Eq, Structural)]
pub enum LifeEvent {
    /// Whether the library could be loaded with every required symbol.
    BindResult { ok: bool },
    /// The version triple the loaded library reports.
    VersionReported { major: u32, minor: u32, patch: u32 },
    /// The result code of the handle-creation call.
    CreateResult { code: i32 },
    /// The session is being disposed of.
    Teardown,
}

/// The foreign call (or conclusion) that follows an event.
#[derive(Debug, Copy, Clone, PartialEq, Eq, Structural)]
pub enum LifeAction {
    /// Query the library's reported version next.
    QueryVersion,
    /// Issue the one handle-creation call next.
    CreateHandle,
    /// Construction is complete; the session is usable.
    Ready,
    /// Construction failed; no handle was created and none may be destroyed.
    Fail { err: MndResult },
    /// Issue the one handle-destruction call now.
    DestroyHandle,
    /// Nothing to do (the event does not apply to the current phase).
    Stop,
}

/// The phase that follows one event. Events that do not apply to the
/// current phase change nothing; in particular nothing leads out of
/// `Closed`, so a destroyed handle can never be used or destroyed again.
pub open spec fn life_next(p: Phase, e: LifeEvent) -> Phase {
    match (p, e) {
        (Phase::Start, LifeEvent::BindResult { ok }) => if ok {
            Phase::Bound
        } else {
            Phase::Failed { err: MndResult::ErrorConnectingFailed }
        },
        (Phase::Bound, LifeEvent::VersionReported { major, minor, patch }) => if supported_version(
            major,
            minor,
            patch,
        ) {
            Phase::Negotiated
        } else {
            Phase::Failed { err: MndResult::ErrorInvalidVersion }
        },
        (Phase::Negotiated, LifeEvent::CreateResult { code }) => if code >= 0 {
            Phase::Active
        } else {
            Phase::Failed { err: spec_from_code(code) }
        },
        (Phase::Active, LifeEvent::Teardown) => Phase::Closed,
        (_, _) => p,
    }
}

/// The call or conclusion that follows one event. `DestroyHandle` is issued
/// exactly on the step from `Active` to `Closed` and nowhere else.
pub open spec fn life_action(p: Phase, e: LifeEvent) -> LifeAction {
    match (p, e) {
        (Phase::Start, LifeEvent::BindResult { ok }) => if ok {
            LifeAction::QueryVersion
        } else {
            LifeAction::Fail { err: MndResult::ErrorConnectingFailed }
        },
        (Phase::Bound, LifeEvent::VersionReported { major, minor, patch }) => if supported_version(
            major,
            minor,
            patch,
        ) {
            LifeAction::CreateHandle
        } else {
            LifeAction::Fail { err: MndResult::ErrorInvalidVersion }
        },
        (Phase::Negotiated, LifeEvent::CreateResult { code }) => if code >= 0 {
            LifeAction::Ready
        } else {
            LifeAction::Fail { err: spec_from_code(code) }
        },
        (Phase::Active, LifeEvent::Teardown) => LifeAction::DestroyHandle,
        (_, _) => LifeAction::Stop,
    }
}

/// The phase reached from `p` after a whole sequence of events.
pub open spec fn life_run(p: Phase, evs: Seq<LifeEvent>) -> Phase
    decreases evs.len(),
{
    if evs.len() == 0 {
        p
    } else {
        life_run(life_next(p, evs[0]), evs.drop_first())
    }
}

/// How many handle-destruction calls a sequence of events makes a session
/// issue, starting from phase `p`.
pub open spec fn destroy_count(p: Phase, evs: Seq<LifeEvent>) -> int
    decreases evs.len(),
{
    if evs.len() == 0 {
        0
    } else {
        (if life_action(p, evs[0]) == LifeAction::DestroyHandle {
            1int
        } else {
            0int
        }) + destroy_count(life_next(p, evs[0]), evs.drop_first())
    }
}

/// Whether one event reports a successful handle creation.
pub open spec fn is_create_success(e: LifeEvent) -> bool {
    e matches LifeEvent::CreateResult { code } && code >= 0
}

/// Whether some event in the sequence reports a successful handle creation.
pub open spec fn has_create_success(evs: Seq<LifeEvent>) -> bool {
    exists|i: int| 0 <= i < evs.len() && is_create_success(#[trigger] evs[i])
}

/// The destroy call is issued exactly on the one step that closes the
/// session: a run issues it once if it ends closed and never otherwise.
proof fn lemma_destroy_tracks_close(p: Phase, evs: Seq<LifeEvent>)
    ensures
        destroy_count(p, evs) == (if life_run(p, evs) is Closed {
            1int
        } else {
            0int
        }) - (if p is Closed {
            1int
        } else {
            0int
        }),
    decreases evs.len(),
{
    if evs.len() > 0 {
        lemma_destroy_tracks_close(life_next(p, evs[0]), evs.drop_first());
    }
}

/// Law: for every successful construction exactly one destroy call occurs —
/// a full run from the start issues the handle-destruction call exactly once
/// if it ends with the session closed, and never more than once, whatever
/// happened in between.
pub proof fn lemma_destroy_exactly_once(evs: Seq<LifeEvent>)
    ensures
        0 <= destroy_count(Phase::Start, evs) <= 1,
        destroy_count(Phase::Start, evs) == 1 <==> life_run(Phase::Start, evs) is Closed,
{
    lemma_destroy_tracks_close(Phase::Start, evs);
}

/// A run that never sees a successful handle creation can neither activate
/// nor close the session, and issues no destroy call.
proof fn lemma_inactive_without_create(p: Phase, evs: Seq<LifeEvent>)
    requires
        !(p is Active),
        !(p is Closed),
        !has_create_success(evs),
    ensures
        !(life_run(p, evs) is Active),
        !(life_run(p, evs) is Closed),
        destroy_count(p, evs) == 0,
    decreases evs.len(),
{
    if evs.len() > 0 {
        assert(!is_create_success(evs[0]));
        let rest = evs.drop_first();
        assert(!has_create_success(rest)) by {
            if has_create_success(rest) {
                let i = choose|i: int| 0 <= i < rest.len() && is_create_success(#[trigger] rest[i]);
                assert(rest[i] == evs[i + 1]);
                assert(is_create_success(evs[i + 1]));
            }
        }
        lemma_inactive_without_create(life_next(p, evs[0]), rest);
    }
}

/// Law: no destroy call occurs without a matching create. A run from the
/// start in which no handle-creation call succeeded issues no
/// handle-destruction call; in particular, a construction rejected at the
/// bind or version stage leaks nothing.
pub proof fn lemma_no_destroy_without_create(evs: Seq<LifeEvent>)
    requires
        !has_create_success(evs),
    ensures
        destroy_count(Phase::Start, evs) == 0,
{
    lemma_inactive_without_create(Phase::Start, evs);
}

/// Law: for every reported version other than the supported one,
/// construction fails with `ErrorInvalidVersion` and no handle-creation
/// call is requested.
pub proof fn lemma_version_mismatch_rejected(major: u32, minor: u32, patch: u32)
    requires
        !supported_version(major, minor, patch),
    ensures
        life_next(Phase::Bound, LifeEvent::VersionReported { major, minor, patch }) == (
        Phase::Failed { err: MndResult::ErrorInvalidVersion }),
        life_action(Phase::Bound, LifeEvent::VersionReported { major, minor, patch }) == (
        LifeAction::Fail { err: MndResult::ErrorInvalidVersion }),
{
}

/// The verified core of one runtime session: its lifecycle phase. The
/// embedding program pairs it with the loaded library and the raw handle,
/// and consults it before every foreign call.
pub struct Monado {
    pub phase: Phase,
}

impl Monado {
    /// Begin constructing a session. Nothing is loaded and no handle exists
    /// yet; the embedding program drives the construction protocol by
    /// feeding events to `step`.
    pub fn create() -> (m: Monado)
        ensures
            m.phase == Phase::Start,
    {
        Monado { phase: Phase::Start }
    }

    /// Advance the lifecycle by one reported event and say which foreign
    /// call (or conclusion) follows.
    pub fn step(&mut self, e: LifeEvent) -> (a: LifeAction)
        ensures
            final(self).phase == life_next(old(self).phase, e),
            a == life_action(old(self).phase, e),
    {
        match (self.phase, e) {
            (Phase::Start, LifeEvent::BindResult { ok }) => {
                if ok {
                    self.phase = Phase::Bound;
                    LifeAction::QueryVersion
                } else {
                    self.phase = (Phase::Failed { err: MndResult::ErrorConnectingFailed });
                    LifeAction::Fail { err: MndResult::ErrorConnectingFailed }
                }
            },
            (Phase::Bound, LifeEvent::VersionReported { major, minor, patch }) => {
                match negotiate(major, minor, patch) {
                    Ok(_) => {
                        self.phase = Phase::Negotiated;
                        LifeAction::CreateHandle
                    },
                    Err(err) => {
                        self.phase = (Phase::Failed { err });
                        LifeAction::Fail { err }
                    },
                }
            },
            (Phase::Negotiated, LifeEvent::CreateResult { code }) => {
                match MndResult::from_code(code).to_result() {
                    Ok(()) => {
                        self.phase = Phase::Active;
                        LifeAction::Ready
                    },
                    Err(err) => {
                        self.phase = (Phase::Failed { err });
                        LifeAction::Fail { err }
                    },
                }
            },
            (Phase::Active, LifeEvent::Teardown) => {
                self.phase = Phase::Closed;
                LifeAction::DestroyHandle
            },
            (_, _) => LifeAction::Stop,
        }
    }

    /// Whether the session holds a live handle, so that operations may run.
    pub fn is_active(&self) -> (r: bool)
        ensures
            r == (self.phase is Active),
    {
        self.phase == Phase::Active
    }
}

} // verus!
