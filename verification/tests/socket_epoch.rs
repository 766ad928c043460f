use starry_drivers::net::epoch::{
    EpochCommit, EpochError, PendingEpochOwner, SocketEpochState, epoch_matches,
};

const LINK_DOWN: u64 = 0x101;
const CONNECTION_RESET: u64 = 0x102;
const DEVICE_IO: u64 = 0x103;

#[test]
fn socket_epoch_closure_is_scoped_and_new_epoch_is_fresh() {
    let mut s = SocketEpochState::new();
    let (old_epoch, seed) = s.new_handle_epoch();
    assert_eq!(seed, None);

    assert_eq!(
        s.commit_socket_epoch(old_epoch, LINK_DOWN, LINK_DOWN),
        Some(EpochCommit {
            terminal: LINK_DOWN,
            committed: true
        })
    );
    assert!(epoch_matches(old_epoch, old_epoch));

    // A late handle while the epoch is closed inherits its terminal.
    assert_eq!(s.new_handle_epoch(), (old_epoch, Some(LINK_DOWN)));

    let new_epoch = s.open_next_socket_epoch().unwrap();
    assert_eq!(new_epoch, old_epoch + 1);
    assert_eq!(s.new_handle_epoch(), (new_epoch, None));
    assert_eq!(s.global_terminal_code(), None);
    assert!(!epoch_matches(old_epoch, new_epoch));
}

#[test]
fn delayed_listener_adoption_keeps_the_closed_epoch_terminal() {
    let mut s = SocketEpochState::new();
    let old_epoch = s.current;
    let pending = PendingEpochOwner {
        epoch: old_epoch,
        terminal: s.pending_owner_terminal(old_epoch),
    };
    assert_eq!(pending.terminal, None);
    assert!(s
        .commit_socket_epoch(old_epoch, CONNECTION_RESET, CONNECTION_RESET)
        .unwrap()
        .committed);
    // The closure writes its terminal into the pending owner of that epoch.
    let pending = PendingEpochOwner {
        terminal: Some(CONNECTION_RESET),
        ..pending
    };
    assert_eq!(s.open_next_socket_epoch(), Ok(old_epoch + 1));
    assert_eq!(
        s.adoption_terminal(Some(pending), old_epoch),
        Some(CONNECTION_RESET)
    );
    assert_eq!(s.adoption_terminal(None, old_epoch), Some(CONNECTION_RESET));
    assert_eq!(s.adoption_terminal(None, old_epoch + 1), None);
}

#[test]
fn explicit_epoch_fault_cannot_retarget_after_reopen() {
    let mut s = SocketEpochState::new();
    let old_epoch = s.current;
    assert!(s.commit_socket_epoch(old_epoch, LINK_DOWN, LINK_DOWN).unwrap().committed);
    assert_eq!(s.open_next_socket_epoch(), Ok(old_epoch + 1));
    let before = s;
    assert_eq!(s.commit_socket_epoch(old_epoch, DEVICE_IO, DEVICE_IO), None);
    assert_eq!(s, before);
    assert_eq!(s.new_handle_epoch(), (old_epoch + 1, None));
    assert_eq!(s.current, old_epoch + 1);
}

#[test]
fn duplicate_publish_is_idempotent() {
    let mut s = SocketEpochState::new();
    let epoch = s.current;
    assert_eq!(
        s.commit_socket_epoch(epoch, DEVICE_IO, 7),
        Some(EpochCommit {
            terminal: DEVICE_IO,
            committed: true
        })
    );
    let closed = s;
    assert_eq!(
        s.commit_socket_epoch(epoch, LINK_DOWN, 9),
        Some(EpochCommit {
            terminal: DEVICE_IO,
            committed: false
        })
    );
    assert_eq!(s, closed);
    assert_eq!(s.global_terminal_code(), Some(7));
}

#[test]
fn terminal_history_stays_bounded_across_repeated_epoch_flaps() {
    let mut s = SocketEpochState::new();
    for _ in 0..32 {
        let epoch = s.current;
        assert!(s.commit_socket_epoch(epoch, DEVICE_IO, DEVICE_IO).unwrap().committed);
        s.open_next_socket_epoch().unwrap();
    }
    assert_eq!(s.current, 32);
    assert_eq!(s.last_closed.map(|c| c.epoch), Some(31));
}

#[test]
fn open_next_requires_a_closed_epoch() {
    let mut s = SocketEpochState::new();
    assert_eq!(s.open_next_socket_epoch(), Err(EpochError::BadState));
    let epoch = s.current;
    s.commit_socket_epoch(epoch, LINK_DOWN, LINK_DOWN);
    s.current = u64::MAX;
    s.last_closed = Some(starry_drivers::net::epoch::ClosedEpoch {
        epoch: u64::MAX,
        terminal: LINK_DOWN,
    });
    assert_eq!(s.open_next_socket_epoch(), Err(EpochError::BadState));
}

#[test]
fn adoption_epoch_prefers_registration_then_pending_owner() {
    let mut s = SocketEpochState::new();
    s.commit_socket_epoch(0, LINK_DOWN, LINK_DOWN);
    s.open_next_socket_epoch().unwrap();
    let owner = PendingEpochOwner {
        epoch: 0,
        terminal: Some(LINK_DOWN),
    };
    assert_eq!(s.adoption_epoch(Some(1), Some(owner)), (1, None));
    assert_eq!(s.adoption_epoch(None, Some(owner)), (0, Some(LINK_DOWN)));
    assert_eq!(s.adoption_epoch(None, None), (1, None));
    let stale_owner = PendingEpochOwner {
        epoch: 0,
        terminal: None,
    };
    assert_eq!(s.adoption_epoch(None, Some(stale_owner)), (0, None));
}
