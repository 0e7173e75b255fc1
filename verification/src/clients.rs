//! Client enumeration and per-client operations.
//!
//! The client list is a snapshot: one refresh call, one count call, then
//! exactly `count` index-lookup calls, in that fixed order, so that the
//! count and the indices are read from the same logical snapshot. A failure
//! anywhere aborts the whole enumeration — a partial list would be
//! indistinguishable from "no more clients". The machine here decides each
//! of those steps; the embedding program performs the calls it requests.

use vstd::prelude::*;

use crate::codes::{code_to_result, spec_from_code, MndResult};
use crate::flags::{spec_bit, ClientState, ClientStateSet};
use crate::session::Monado;
use crate::text::{decode_text, decoded_utf8};

verus! {

/// A lightweight reference to one entry of the most recent client-list
/// snapshot. The identifier is only meaningful relative to that snapshot;
/// every query about the client is answered live by the runtime, and the
/// methods here decide what each answer means.
#[derive(Debug, Copy, Clone, PartialEq, Eq, Structural)]
pub struct Client {
    pub id: u32,
}

/// The outcome of one step of the snapshot protocol, as the embedding
/// program reports it.
#[derive(Debug, Copy, Clone, PartialEq, Eq, Structural)]
pub enum SnapEvent {
    /// The result code of the client-list refresh call.
    Refreshed { code: i32 },
    /// The result code and output of the client-count call.
    Counted { code: i32, count: u32 },
    /// The result code and output of one id-at-index call.
    IdAt { code: i32, id: u32 },
}

/// The foreign call (or conclusion) that follows a snapshot event.
#[derive(Debug, Copy, Clone, PartialEq, Eq, Structural)]
pub enum SnapAction {
    /// Issue the client-count call next.
    CallCount,
    /// Issue the id-at-index call for this index next.
    CallIdAt { index: u32 },
    /// The snapshot is complete.
    Complete,
    /// The enumeration failed; no list may be produced.
    Abort { err: MndResult },
    /// Nothing to do (the event does not apply to the current stage).
    Stop,
}

/// Which call of the snapshot protocol is outstanding.
#[derive(Debug, Copy, Clone, PartialEq, Eq, Structural)]
pub enum SnapStage {
    /// The refresh call's outcome is awaited.
    Refresh,
    /// The count call's outcome is awaited.
    Count,
    /// Id-at-index calls are being answered.
    Fill,
    /// Every index has been answered; the snapshot is complete.
    Ready,
    /// Some call failed; the whole enumeration is aborted.
    Failed,
}

/// The abstract state of a snapshot in progress: what has been asked of the
/// runtime and which identifiers have come back so far.
pub enum SnapModel {
    Refresh,
    Count,
    Fill { want: int, ids: Seq<u32> },
    Ready { ids: Seq<u32> },
    Failed { err: MndResult },
}

/// The model state that follows one event. An error code anywhere leads to
/// `Failed`, from which nothing leads out: an aborted enumeration never
/// produces a list.
pub open spec fn snap_next(m: SnapModel, e: SnapEvent) -> SnapModel {
    match (m, e) {
        (SnapModel::Refresh, SnapEvent::Refreshed { code }) => if code >= 0 {
            SnapModel::Count
        } else {
            SnapModel::Failed { err: spec_from_code(code) }
        },
        (SnapModel::Count, SnapEvent::Counted { code, count }) => if code < 0 {
            SnapModel::Failed { err: spec_from_code(code) }
        } else if count == 0 {
            SnapModel::Ready { ids: Seq::empty() }
        } else {
            SnapModel::Fill { want: count as int, ids: Seq::empty() }
        },
        (SnapModel::Fill { want, ids }, SnapEvent::IdAt { code, id }) => if code < 0 {
            SnapModel::Failed { err: spec_from_code(code) }
        } else if ids.len() + 1 == want {
            SnapModel::Ready { ids: ids.push(id) }
        } else {
            SnapModel::Fill { want, ids: ids.push(id) }
        },
        (_, _) => m,
    }
}

/// The call or conclusion that follows one event: the indices are requested
/// in order, one call per position, and the enumeration completes exactly
/// when every position up to the reported count has been answered.
pub open spec fn snap_action(m: SnapModel, e: SnapEvent) -> SnapAction {
    match (m, e) {
        (SnapModel::Refresh, SnapEvent::Refreshed { code }) => if code >= 0 {
            SnapAction::CallCount
        } else {
            SnapAction::Abort { err: spec_from_code(code) }
        },
        (SnapModel::Count, SnapEvent::Counted { code, count }) => if code < 0 {
            SnapAction::Abort { err: spec_from_code(code) }
        } else if count == 0 {
            SnapAction::Complete
        } else {
            SnapAction::CallIdAt { index: 0 }
        },
        (SnapModel::Fill { want, ids }, SnapEvent::IdAt { code, id }) => if code < 0 {
            SnapAction::Abort { err: spec_from_code(code) }
        } else if ids.len() + 1 == want {
            SnapAction::Complete
        } else {
            SnapAction::CallIdAt { index: (ids.len() + 1) as u32 }
        },
        (_, _) => SnapAction::Stop,
    }
}

/// The model state reached from `m` after a whole sequence of events.
pub open spec fn snap_run(m: SnapModel, evs: Seq<SnapEvent>) -> SnapModel
    decreases evs.len(),
{
    if evs.len() == 0 {
        m
    } else {
        snap_run(snap_next(m, evs[0]), evs.drop_first())
    }
}

/// The events of a run in which every id-at-index call succeeds and returns
/// the identifiers of `ids`, position by position.
pub open spec fn ok_id_events(ids: Seq<u32>) -> Seq<SnapEvent> {
    ids.map_values(|id: u32| SnapEvent::IdAt { code: 0, id })
}

/// Filling continues position by position until the reported count is
/// reached, and collects exactly the identifiers the runtime returned.
proof fn lemma_fill_collects(want: int, acc: Seq<u32>, rest: Seq<u32>)
    requires
        acc.len() < want,
        acc.len() + rest.len() == want,
    ensures
        snap_run(SnapModel::Fill { want, ids: acc }, ok_id_events(rest)) == (SnapModel::Ready {
            ids: acc + rest,
        }),
    decreases rest.len(),
{
    let evs = ok_id_events(rest);
    assert(evs.len() == rest.len());
    assert(evs[0] == (SnapEvent::IdAt { code: 0, id: rest[0] }));
    let m0 = SnapModel::Fill { want, ids: acc };
    let m1 = snap_next(m0, evs[0]);
    assert(snap_run(m0, evs) == snap_run(m1, evs.drop_first()));
    if acc.len() + 1 == want {
        assert(m1 == (SnapModel::Ready { ids: acc.push(rest[0]) }));
        assert(evs.drop_first().len() == 0);
        assert(snap_run(m1, evs.drop_first()) == m1);
        assert(acc.push(rest[0]) =~= acc + rest);
    } else {
        let acc2 = acc.push(rest[0]);
        let rest2 = rest.drop_first();
        assert(m1 == (SnapModel::Fill { want, ids: acc2 }));
        assert(evs.drop_first() =~= ok_id_events(rest2));
        lemma_fill_collects(want, acc2, rest2);
        assert(acc2 + rest2 =~= acc + rest);
    }
}

/// Law: for a runtime reporting `count` clients, a snapshot run in which
/// every call succeeds completes with exactly `count` identifiers, the one
/// returned for each index position in order.
pub proof fn lemma_snapshot_collects_all(count: u32, ids: Seq<u32>)
    requires
        ids.len() == count,
    ensures
        snap_run(
            SnapModel::Refresh,
            seq![
                SnapEvent::Refreshed { code: 0 },
                SnapEvent::Counted { code: 0, count },
            ] + ok_id_events(ids),
        ) == (SnapModel::Ready { ids }),
{
    let evs = seq![
        SnapEvent::Refreshed { code: 0 },
        SnapEvent::Counted { code: 0, count },
    ] + ok_id_events(ids);
    assert(evs[0] == (SnapEvent::Refreshed { code: 0 }));
    let evs1 = evs.drop_first();
    assert(evs1[0] == (SnapEvent::Counted { code: 0, count }));
    let evs2 = evs1.drop_first();
    assert(evs2 =~= ok_id_events(ids));
    assert(snap_next(SnapModel::Refresh, evs[0]) == SnapModel::Count);
    assert(snap_run(SnapModel::Refresh, evs) == snap_run(SnapModel::Count, evs1));
    let m2 = snap_next(SnapModel::Count, evs1[0]);
    assert(snap_run(SnapModel::Count, evs1) == snap_run(m2, evs2));
    if count == 0 {
        assert(ids =~= Seq::<u32>::empty());
        assert(m2 == (SnapModel::Ready { ids }));
        assert(evs2.len() == 0);
        assert(snap_run(m2, evs2) == m2);
    } else {
        assert(m2 == (SnapModel::Fill { want: count as int, ids: Seq::<u32>::empty() }));
        lemma_fill_collects(count as int, Seq::empty(), ids);
        assert(Seq::<u32>::empty() + ids =~= ids);
    }
}

/// Law: an aborted enumeration stays aborted; no later event can turn it
/// into a list.
pub proof fn lemma_abort_is_final(err: MndResult, evs: Seq<SnapEvent>)
    ensures
        snap_run(SnapModel::Failed { err }, evs) == (SnapModel::Failed { err }),
    decreases evs.len(),
{
    if evs.len() > 0 {
        lemma_abort_is_final(err, evs.drop_first());
    }
}

/// One client-list snapshot in progress.
pub struct ClientSnapshot {
    pub stage: SnapStage,
    pub want: u32,
    pub ids: Vec<u32>,
    pub err: MndResult,
}

impl ClientSnapshot {
    /// The abstract state this snapshot is in.
    pub open spec fn model(self) -> SnapModel {
        match self.stage {
            SnapStage::Refresh => SnapModel::Refresh,
            SnapStage::Count => SnapModel::Count,
            SnapStage::Fill => (SnapModel::Fill { want: self.want as int, ids: self.ids@ }),
            SnapStage::Ready => (SnapModel::Ready { ids: self.ids@ }),
            SnapStage::Failed => (SnapModel::Failed { err: self.err }),
        }
    }

    /// The bookkeeping the protocol maintains: no identifiers before the
    /// count call, and never as many as the reported count while filling.
    pub open spec fn wf(self) -> bool {
        match self.stage {
            SnapStage::Refresh => self.ids@.len() == 0,
            SnapStage::Count => self.ids@.len() == 0,
            SnapStage::Fill => self.ids@.len() < self.want,
            _ => true,
        }
    }

    /// Advance the snapshot by one reported event and say which foreign
    /// call (or conclusion) follows.
    pub fn step(&mut self, e: SnapEvent) -> (a: SnapAction)
        requires
            old(self).wf(),
        ensures
            final(self).wf(),
            final(self).model() == snap_next(old(self).model(), e),
            a == snap_action(old(self).model(), e),
    {
        match (self.stage, e) {
            (SnapStage::Refresh, SnapEvent::Refreshed { code }) => {
                match code_to_result(code) {
                    Ok(()) => {
                        self.stage = SnapStage::Count;
                        SnapAction::CallCount
                    },
                    Err(err) => {
                        self.stage = SnapStage::Failed;
                        self.err = err;
                        SnapAction::Abort { err }
                    },
                }
            },
            (SnapStage::Count, SnapEvent::Counted { code, count }) => {
                match code_to_result(code) {
                    Ok(()) => {
                        if count == 0 {
                            self.stage = SnapStage::Ready;
                            proof {
                                assert(self.ids@ =~= Seq::<u32>::empty());
                            }
                            SnapAction::Complete
                        } else {
                            self.stage = SnapStage::Fill;
                            self.want = count;
                            proof {
                                assert(self.ids@ =~= Seq::<u32>::empty());
                            }
                            SnapAction::CallIdAt { index: 0 }
                        }
                    },
                    Err(err) => {
                        self.stage = SnapStage::Failed;
                        self.err = err;
                        SnapAction::Abort { err }
                    },
                }
            },
            (SnapStage::Fill, SnapEvent::IdAt { code, id }) => {
                match code_to_result(code) {
                    Ok(()) => {
                        self.ids.push(id);
                        if self.ids.len() == self.want as usize {
                            self.stage = SnapStage::Ready;
                            SnapAction::Complete
                        } else {
                            SnapAction::CallIdAt { index: self.ids.len() as u32 }
                        }
                    },
                    Err(err) => {
                        self.stage = SnapStage::Failed;
                        self.err = err;
                        SnapAction::Abort { err }
                    },
                }
            },
            (_, _) => SnapAction::Stop,
        }
    }

    /// Hand out the finished snapshot: one client view per answered index
    /// position, in order, or the error that aborted the enumeration.
    pub fn into_clients(self) -> (r: Result<Vec<Client>, MndResult>)
        requires
            self.model() is Ready || self.model() is Failed,
        ensures
            self.model() matches SnapModel::Ready { ids } ==> (r matches Ok(cs) && cs@.len()
                == ids.len() && (forall|i: int| 0 <= i < ids.len() ==> cs@[i].id == ids[i])),
            self.model() matches SnapModel::Failed { err } ==> (r matches Err(e) && e == err),
    {
        match self.stage {
            SnapStage::Ready => {
                let mut clients: Vec<Client> = Vec::new();
                let mut i: usize = 0;
                while i < self.ids.len()
                    invariant
                        i <= self.ids@.len(),
                        clients@.len() == i,
                        forall|j: int| 0 <= j < i ==> clients@[j].id == self.ids@[j],
                    decreases self.ids@.len() - i,
                {
                    let id = self.ids[i];
                    clients.push(Client { id });
                    i = i + 1;
                }
                Ok(clients)
            },
            SnapStage::Failed => Err(self.err),
            _ => vstd::pervasive::unreached(),
        }
    }
}

impl Monado {
    /// Begin a client-list snapshot. The first foreign call of the protocol
    /// is the refresh; its outcome is the machine's first event.
    pub fn clients(&self) -> (s: ClientSnapshot)
        requires
            self.phase is Active,
        ensures
            s.model() == SnapModel::Refresh,
            s.wf(),
    {
        ClientSnapshot { stage: SnapStage::Refresh, want: 0, ids: Vec::new(), err: MndResult::Success }
    }
}

/// Whether achieving `active` from the raw state word `bits` requires a
/// toggle call: the underlying primitive flips the I/O flag rather than
/// setting it, so a call is issued only when the current value differs.
pub open spec fn spec_toggle_needed(bits: u32, active: bool) -> bool {
    ((bits & spec_bit(ClientState::ClientIoActive)) != 0) != active
}

/// The state word after the I/O toggle decision has been acted on, assuming
/// no other actor changed the client's state in between.
pub open spec fn spec_after_io_set(bits: u32, active: bool) -> u32 {
    if spec_toggle_needed(bits, active) {
        bits ^ spec_bit(ClientState::ClientIoActive)
    } else {
        bits
    }
}

/// Law: setting the I/O state is idempotent at the observable-state level,
/// absent outside interference. After one set of `active` the I/O flag
/// equals `active`, so an immediately repeated set of the same value needs
/// no toggle call: the two calls together issue at most one toggle.
pub proof fn lemma_set_io_idempotent(bits: u32, active: bool)
    ensures
        ((spec_after_io_set(bits, active) & spec_bit(ClientState::ClientIoActive)) != 0)
            == active,
        !spec_toggle_needed(spec_after_io_set(bits, active), active),
{
    assert((((bits ^ 32u32) & 32u32) != 0) == !((bits & 32u32) != 0)) by (bit_vector);
}

impl Client {
    /// Decide what the runtime's answer to the client-name query means: the
    /// copied bytes are decoded as text, and invalid encoding fails with
    /// `ErrorInvalidValue` rather than returning a lossily-converted string.
    pub fn name(&self, code: i32, raw: Vec<u8>) -> (r: Result<String, MndResult>)
        ensures
            code < 0 ==> (r matches Err(e) && e == spec_from_code(code)),
            code >= 0 ==> (decoded_utf8(raw@) matches Some(s) ==> (r matches Ok(t) && t@ == s)),
            code >= 0 && decoded_utf8(raw@) is None ==> (r matches Err(e) && e
                == MndResult::ErrorInvalidValue),
    {
        match code_to_result(code) {
            Ok(()) => decode_text(raw),
            Err(e) => Err(e),
        }
    }

    /// Decide what the runtime's answer to the state query means: the raw
    /// word is taken as the flag set, with unknown bits preserved.
    pub fn state(&self, code: i32, bits: u32) -> (r: Result<ClientStateSet, MndResult>)
        ensures
            code < 0 ==> (r matches Err(e) && e == spec_from_code(code)),
            code >= 0 ==> (r matches Ok(s) && s.bits == bits),
    {
        match code_to_result(code) {
            Ok(()) => Ok(ClientStateSet::new(bits)),
            Err(e) => Err(e),
        }
    }

    /// Decide what the runtime's answer to the set-primary command means.
    pub fn set_primary(&self, code: i32) -> (r: Result<(), MndResult>)
        ensures
            code >= 0 <==> r is Ok,
            code < 0 ==> (r matches Err(e) && e == spec_from_code(code)),
    {
        code_to_result(code)
    }

    /// Decide what the runtime's answer to the set-focused command means.
    pub fn set_focused(&self, code: i32) -> (r: Result<(), MndResult>)
        ensures
            code >= 0 <==> r is Ok,
            code < 0 ==> (r matches Err(e) && e == spec_from_code(code)),
    {
        code_to_result(code)
    }

    /// Decide whether a toggle call must follow a fresh state read in order
    /// to make the I/O flag equal `active`. A failed state read aborts the
    /// operation; the read-then-toggle window is not atomic, and another
    /// actor toggling in between can leave the final state wrong — the raw
    /// toggle remains available to callers needing stricter control.
    pub fn set_io_active(&self, code: i32, bits: u32, active: bool) -> (r: Result<
        bool,
        MndResult,
    >)
        ensures
            code < 0 ==> (r matches Err(e) && e == spec_from_code(code)),
            code >= 0 ==> (r matches Ok(t) && t == spec_toggle_needed(bits, active)),
    {
        match self.state(code, bits) {
            Ok(state) => Ok(state.contains(ClientState::ClientIoActive) != active),
            Err(e) => Err(e),
        }
    }
}

} // verus!
