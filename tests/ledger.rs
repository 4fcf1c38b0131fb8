use std::sync::mpsc::{channel, Sender, TryRecvError};
use virtual_circus::{
    AllocationLedger, AllocationRecord, BufferType, ChannelPoll, LedgerError, PollAction,
};

fn poll_of(r: Result<u64, TryRecvError>) -> ChannelPoll {
    match r {
        Ok(id) => ChannelPoll::Received(id),
        Err(TryRecvError::Empty) => ChannelPoll::Empty,
        Err(TryRecvError::Disconnected) => ChannelPoll::Disconnected,
    }
}

#[test]
fn records_get_consecutive_ids() {
    let mut ledger = AllocationLedger::new();
    let a = ledger.record_allocation(64, BufferType::CpuVisible).unwrap();
    let b = ledger.record_allocation(128, BufferType::GpuOnly).unwrap();
    assert_eq!(a, AllocationRecord { id: 0, size: 64, class: BufferType::CpuVisible });
    assert_eq!(b, AllocationRecord { id: 1, size: 128, class: BufferType::GpuOnly });
    assert_eq!(ledger.outstanding(), 2);
    assert!(ledger.is_live(0) && ledger.is_live(1));
}

#[test]
fn return_frees_once_then_rejects() {
    let mut ledger = AllocationLedger::new();
    let a = ledger.record_allocation(16, BufferType::CpuVisible).unwrap();
    assert_eq!(ledger.accept_return(a.id), PollAction::Free(a));
    assert_eq!(ledger.accept_return(a.id), PollAction::Reject(a.id));
    assert_eq!(ledger.outstanding(), 0);
}

#[test]
fn unknown_id_is_rejected() {
    let mut ledger = AllocationLedger::new();
    ledger.record_allocation(16, BufferType::CpuVisible).unwrap();
    assert_eq!(ledger.on_poll(ChannelPoll::Received(7)), PollAction::Reject(7));
    assert_eq!(ledger.outstanding(), 1);
}

#[test]
fn returns_in_any_order_free_each_once() {
    let mut ledger = AllocationLedger::new();
    let recs: Vec<AllocationRecord> =
        (0..5).map(|i| ledger.record_allocation(i * 10 + 1, BufferType::GpuOnly).unwrap()).collect();
    let order = [3u64, 0, 4, 3, 1, 0, 2];
    let mut freed = Vec::new();
    for id in order {
        if let PollAction::Free(r) = ledger.on_poll(ChannelPoll::Received(id)) {
            freed.push(r.id);
        }
    }
    assert_eq!(freed, vec![3, 0, 4, 1, 2]);
    assert_eq!(ledger.outstanding(), 0);
    assert_eq!(recs.len(), 5);
}

#[test]
fn empty_poll_is_idle_and_disconnect_closes() {
    let mut ledger = AllocationLedger::new();
    ledger.record_allocation(8, BufferType::CpuVisible).unwrap();
    assert_eq!(ledger.on_poll(ChannelPoll::Empty), PollAction::Idle);
    assert_eq!(ledger.outstanding(), 1);
    assert!(!ledger.is_disconnected());
    assert_eq!(ledger.on_poll(ChannelPoll::Disconnected), PollAction::Closed);
    assert!(ledger.is_disconnected());
}

#[test]
fn rollback_after_bind_failure_restores_outstanding() {
    let mut ledger = AllocationLedger::new();
    let kept = ledger.record_allocation(256, BufferType::GpuOnly).unwrap();
    let baseline = ledger.outstanding();
    let failed = ledger.record_allocation(1024, BufferType::GpuOnly).unwrap();
    assert_eq!(ledger.accept_return(failed.id), PollAction::Free(failed));
    assert_eq!(ledger.outstanding(), baseline);
    let again = ledger.record_allocation(1024, BufferType::GpuOnly).unwrap();
    assert_eq!(again.size, 1024);
    assert!(ledger.is_live(kept.id) && ledger.is_live(again.id));
}

#[test]
fn cleanup_refuses_new_allocations() {
    let mut ledger = AllocationLedger::new();
    let a = ledger.record_allocation(4, BufferType::CpuVisible).unwrap();
    ledger.begin_cleanup();
    assert!(ledger.is_closing());
    assert_eq!(ledger.record_allocation(4, BufferType::CpuVisible), Err(LedgerError::ShuttingDown));
    assert_eq!(ledger.on_poll(ChannelPoll::Received(a.id)), PollAction::Free(a));
    assert_eq!(ledger.outstanding(), 0);
}

#[test]
fn cleanup_ends_once_every_handle_dropped_after_it_began() {
    let mut ledger = AllocationLedger::new();
    let (sender, receiver) = channel::<u64>();
    let mut holders: Vec<(Sender<u64>, Vec<u64>)> = Vec::new();
    for t in 0..4u64 {
        let ids: Vec<u64> =
            (0..25u64).map(|i| ledger.record_allocation(t * 100 + i + 1, BufferType::CpuVisible).unwrap().id).collect();
        holders.push((sender.clone(), ids));
    }
    ledger.begin_cleanup();
    drop(sender);
    let mut frees = 0;
    let mut round = 0usize;
    loop {
        if let Some((s, ids)) = holders.get_mut(round % 4) {
            if let Some(id) = ids.pop() {
                s.send(id).unwrap();
            }
        }
        if round % 4 == 3 {
            holders.retain(|(_, ids)| !ids.is_empty());
        }
        round += 1;
        match ledger.on_poll(poll_of(receiver.try_recv())) {
            PollAction::Free(_) => frees += 1,
            PollAction::Closed => break,
            _ => {}
        }
    }
    assert_eq!(frees, 100);
    assert_eq!(ledger.outstanding(), 0);
}

#[test]
fn eight_producers_drop_hundred_buffers_each() {
    let mut ledger = AllocationLedger::new();
    let (sender, receiver) = channel::<u64>();
    let mut seed: u64 = 12345;
    let mut producers: Vec<(Sender<u64>, Vec<u64>)> = Vec::new();
    for _ in 0..8 {
        let mut ids = Vec::new();
        for _ in 0..100 {
            seed = seed.wrapping_mul(6364136223846793005).wrapping_add(1442695040888963407);
            let size = (seed >> 33) % 1024 + 1;
            assert!((1..=1024).contains(&size));
            ids.push(ledger.record_allocation(size, BufferType::CpuVisible).unwrap().id);
        }
        producers.push((sender.clone(), ids));
    }
    assert_eq!(ledger.outstanding(), 800);
    let mut step = 0usize;
    while !producers.is_empty() {
        seed = seed.wrapping_mul(6364136223846793005).wrapping_add(1442695040888963407);
        let who = (seed >> 33) as usize % producers.len();
        let (s, ids) = &mut producers[who];
        let id = ids.remove(0);
        s.send(id).unwrap();
        if ids.is_empty() {
            producers.swap_remove(who);
        }
        step += 1;
        if step % 3 == 0 {
            ledger.on_poll(poll_of(receiver.try_recv()));
        }
    }
    ledger.begin_cleanup();
    drop(sender);
    loop {
        if ledger.on_poll(poll_of(receiver.try_recv())) == PollAction::Closed {
            break;
        }
    }
    assert_eq!(ledger.outstanding(), 0);
}
