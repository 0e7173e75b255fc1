use monado::{
    Client, ClientState, LifeEvent, MndResult, Monado, SnapAction, SnapEvent,
};

fn active_session() -> Monado {
    let mut m = Monado::create();
    m.step(LifeEvent::BindResult { ok: true });
    m.step(LifeEvent::VersionReported {
        major: 1,
        minor: 0,
        patch: 0,
    });
    m.step(LifeEvent::CreateResult { code: 0 });
    m
}

/// Drive a whole snapshot against a mock runtime that reports the given
/// client identifiers, answering every call with success.
fn run_snapshot(m: &Monado, ids: &[u32]) -> Result<Vec<Client>, MndResult> {
    let mut snap = m.clients();
    let mut action = snap.step(SnapEvent::Refreshed { code: 0 });
    loop {
        match action {
            SnapAction::CallCount => {
                action = snap.step(SnapEvent::Counted {
                    code: 0,
                    count: ids.len() as u32,
                });
            }
            SnapAction::CallIdAt { index } => {
                action = snap.step(SnapEvent::IdAt {
                    code: 0,
                    id: ids[index as usize],
                });
            }
            SnapAction::Complete | SnapAction::Abort { .. } => break,
            SnapAction::Stop => panic!("protocol stalled"),
        }
    }
    snap.into_clients()
}

#[test]
fn snapshot_yields_one_view_per_reported_client() {
    let m = active_session();
    let clients = run_snapshot(&m, &[7, 3, 12]).unwrap();
    assert_eq!(clients.len(), 3);
    assert_eq!(clients[0].id, 7);
    assert_eq!(clients[1].id, 3);
    assert_eq!(clients[2].id, 12);
}

#[test]
fn snapshot_of_zero_clients_is_empty() {
    let m = active_session();
    let clients = run_snapshot(&m, &[]).unwrap();
    assert!(clients.is_empty());
}

#[test]
fn snapshot_requests_each_index_in_order() {
    let m = active_session();
    let mut snap = m.clients();
    assert_eq!(
        snap.step(SnapEvent::Refreshed { code: 0 }),
        SnapAction::CallCount
    );
    assert_eq!(
        snap.step(SnapEvent::Counted { code: 0, count: 2 }),
        SnapAction::CallIdAt { index: 0 }
    );
    assert_eq!(
        snap.step(SnapEvent::IdAt { code: 0, id: 41 }),
        SnapAction::CallIdAt { index: 1 }
    );
    assert_eq!(
        snap.step(SnapEvent::IdAt { code: 0, id: 42 }),
        SnapAction::Complete
    );
}

#[test]
fn snapshot_aborts_whole_enumeration_on_mid_fill_failure() {
    let m = active_session();
    let mut snap = m.clients();
    snap.step(SnapEvent::Refreshed { code: 0 });
    snap.step(SnapEvent::Counted { code: 0, count: 3 });
    snap.step(SnapEvent::IdAt { code: 0, id: 5 });
    let a = snap.step(SnapEvent::IdAt { code: -4, id: 0 });
    assert_eq!(
        a,
        SnapAction::Abort {
            err: MndResult::ErrorOperationFailed
        }
    );
    // No partial list: the one collected identifier is not handed out.
    assert_eq!(snap.into_clients(), Err(MndResult::ErrorOperationFailed));
}

#[test]
fn snapshot_aborts_on_refresh_or_count_failure() {
    let m = active_session();
    let mut snap = m.clients();
    assert_eq!(
        snap.step(SnapEvent::Refreshed { code: -2 }),
        SnapAction::Abort {
            err: MndResult::ErrorInvalidValue
        }
    );
    assert_eq!(snap.into_clients(), Err(MndResult::ErrorInvalidValue));

    let mut snap = m.clients();
    snap.step(SnapEvent::Refreshed { code: 0 });
    assert_eq!(
        snap.step(SnapEvent::Counted { code: -4, count: 9 }),
        SnapAction::Abort {
            err: MndResult::ErrorOperationFailed
        }
    );
    assert_eq!(snap.into_clients(), Err(MndResult::ErrorOperationFailed));
}

#[test]
fn client_name_decodes_valid_text() {
    let client = Client { id: 1 };
    let name = client.name(0, b"AppA".to_vec()).unwrap();
    assert_eq!(name, "AppA");
}

#[test]
fn client_name_with_invalid_encoding_is_invalid_value() {
    let client = Client { id: 1 };
    assert_eq!(
        client.name(0, vec![0xff, 0xfe, 0x41]),
        Err(MndResult::ErrorInvalidValue)
    );
}

#[test]
fn client_name_failed_call_maps_its_code() {
    let client = Client { id: 1 };
    assert_eq!(client.name(-4, Vec::new()), Err(MndResult::ErrorOperationFailed));
}

#[test]
fn client_state_reads_documented_flags() {
    let client = Client { id: 1 };
    let state = client.state(0, 1 | 2).unwrap();
    assert!(state.contains(ClientState::ClientPrimaryApp));
    assert!(state.contains(ClientState::ClientSessionActive));
    assert!(!state.contains(ClientState::ClientSessionVisible));
    assert!(!state.contains(ClientState::ClientSessionFocused));
    assert!(!state.contains(ClientState::ClientSessionOverlay));
    assert!(!state.contains(ClientState::ClientIoActive));
}

#[test]
fn client_state_preserves_unknown_bits() {
    let client = Client { id: 1 };
    let state = client.state(0, 0x8000_0040 | 8).unwrap();
    assert_eq!(state.bits, 0x8000_0048);
    assert!(state.contains(ClientState::ClientSessionFocused));
}

#[test]
fn client_state_failure_maps_its_code() {
    let client = Client { id: 1 };
    assert_eq!(client.state(-2, 0), Err(MndResult::ErrorInvalidValue));
}

#[test]
fn set_primary_and_set_focused_check_their_codes() {
    let client = Client { id: 1 };
    assert_eq!(client.set_primary(0), Ok(()));
    assert_eq!(client.set_primary(-4), Err(MndResult::ErrorOperationFailed));
    assert_eq!(client.set_focused(0), Ok(()));
    assert_eq!(client.set_focused(-1), Err(MndResult::ErrorInvalidVersion));
}

/// A mock client whose I/O flag is flipped by each toggle call, as the
/// runtime's primitive does.
struct MockIo {
    bits: u32,
    toggle_calls: u32,
}

impl MockIo {
    fn set_io_active(&mut self, client: &Client, active: bool) {
        if client.set_io_active(0, self.bits, active).unwrap() {
            self.bits ^= 32;
            self.toggle_calls += 1;
        }
    }
}

#[test]
fn set_io_active_twice_issues_at_most_one_toggle() {
    let client = Client { id: 1 };
    for (start_bits, active) in [(0u32, true), (32u32, true), (0u32, false), (32u32, false)] {
        let mut mock = MockIo {
            bits: start_bits,
            toggle_calls: 0,
        };
        mock.set_io_active(&client, active);
        mock.set_io_active(&client, active);
        assert!(mock.toggle_calls <= 1);
        assert_eq!(mock.bits & 32 != 0, active);
    }
}

#[test]
fn set_io_active_failed_state_read_aborts() {
    let client = Client { id: 1 };
    assert_eq!(
        client.set_io_active(-4, 0, true),
        Err(MndResult::ErrorOperationFailed)
    );
}
