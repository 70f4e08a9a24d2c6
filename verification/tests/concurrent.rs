use crossbeam_channel::{unbounded, Receiver, Sender};
use remote_state_view::dispatch::{DispatchAction, DispatchState, Inbound};
use remote_state_view::service::RemoteStateViewService;
use remote_state_view::snapshot::{StateView, StateViewError};
use remote_state_view::wire::{Message, StateKey, StateValue};
use remote_state_view::worker::{Progress, WorkerTask};
use std::collections::HashMap;
use std::sync::{Arc, RwLock};
use std::time::Duration;

struct MapView {
    values: HashMap<Vec<u8>, Vec<u8>>,
}

impl MapView {
    fn of(pairs: &[(&[u8], &[u8])]) -> MapView {
        let mut values = HashMap::new();
        for (k, v) in pairs {
            values.insert(k.to_vec(), v.to_vec());
        }
        MapView { values }
    }
}

impl StateView for MapView {
    fn get_state_value(&self, state_key: &StateKey) -> Result<Option<StateValue>, StateViewError> {
        Ok(self.values.get(state_key.as_bytes()).map(|v| StateValue::new(v.clone())))
    }
}

type Shared = Arc<RwLock<RemoteStateViewService<MapView>>>;

fn request(shard_id: u64, keys: &[&[u8]]) -> Message {
    let keys: Vec<Vec<u8>> = keys.iter().map(|k| k.to_vec()).collect();
    Message::new(bcs::to_bytes(&(shard_id, keys)).unwrap())
}

fn entries_of(message: &Message) -> Vec<(Vec<u8>, Option<Vec<u8>>)> {
    bcs::from_bytes(&message.data).unwrap()
}

/// Answers one message, taking the lock anew for each key, and sends the
/// response on the channel of the shard that asked.
fn answer(message: Message, service: Shared, kv_tx: Arc<Vec<Sender<Message>>>) {
    let mut progress = WorkerTask::begin(&message, kv_tx.len()).unwrap();
    loop {
        match progress {
            Progress::Pending(task) => {
                let service = service.read().unwrap();
                progress = task.resolve(service.state_view()).unwrap();
            }
            Progress::Done(outbound) => {
                kv_tx[outbound.shard_id].send(outbound.message).unwrap();
                return;
            }
        }
    }
}

fn wired(shards: usize) -> (Shared, Arc<Vec<Sender<Message>>>, Vec<Receiver<Message>>) {
    let mut senders = Vec::new();
    let mut receivers = Vec::new();
    for _ in 0..shards {
        let (tx, rx) = unbounded();
        senders.push(tx);
        receivers.push(rx);
    }
    let service = RemoteStateViewService::new(shards, Some(4));
    (Arc::new(RwLock::new(service)), Arc::new(senders), receivers)
}

#[test]
fn shards_are_answered_side_by_side() {
    let (service, kv_tx, kv_rx) = wired(3);
    service
        .write()
        .unwrap()
        .set_state_view(Arc::new(MapView::of(&[(b"a", &[1]), (b"b", &[2])])));
    let threads = service.read().unwrap().num_threads();
    let pool = rayon::ThreadPoolBuilder::new().num_threads(threads).build().unwrap();

    let (inbound_tx, inbound_rx) = unbounded();
    inbound_tx.send(request(2, &[b"b", b"c"])).unwrap();
    inbound_tx.send(request(0, &[b"a", b"b"])).unwrap();
    inbound_tx.send(request(1, &[])).unwrap();
    drop(inbound_tx);

    let mut state = service.read().unwrap().start();
    let stopped_with = loop {
        let inbound = match inbound_rx.recv() {
            Ok(message) => Inbound::Received(message),
            Err(_) => Inbound::Closed,
        };
        let (next, action) = state.on_inbound(inbound);
        match action {
            DispatchAction::Submit(message) => {
                let service = service.clone();
                let kv_tx = kv_tx.clone();
                pool.spawn(move || answer(message, service, kv_tx));
                state = next.on_submitted();
            }
            DispatchAction::Stop(error) => {
                state = next;
                break error;
            }
        }
    };
    assert_eq!(state, DispatchState::Stopped);
    assert_eq!(stopped_with, remote_state_view::error::ServiceError::ChannelClosed);

    let wait = Duration::from_secs(10);
    let to_shard_0 = kv_rx[0].recv_timeout(wait).unwrap();
    let to_shard_1 = kv_rx[1].recv_timeout(wait).unwrap();
    let to_shard_2 = kv_rx[2].recv_timeout(wait).unwrap();
    assert_eq!(
        entries_of(&to_shard_0),
        vec![(b"a".to_vec(), Some(vec![1u8])), (b"b".to_vec(), Some(vec![2u8]))]
    );
    assert_eq!(entries_of(&to_shard_1), vec![]);
    assert_eq!(
        entries_of(&to_shard_2),
        vec![(b"b".to_vec(), Some(vec![2u8])), (b"c".to_vec(), None)]
    );
    drop(pool);
    for rx in &kv_rx {
        assert!(rx.try_recv().is_err());
    }
}

#[test]
fn swap_while_requests_are_answered() {
    let (service, kv_tx, kv_rx) = wired(2);
    service.write().unwrap().set_state_view(Arc::new(MapView::of(&[(b"x", &[10])])));
    let pool = rayon::ThreadPoolBuilder::new().num_threads(4).build().unwrap();

    let keys: Vec<&[u8]> = (0..1000).map(|_| &b"x"[..]).collect();
    for round in 0..8u64 {
        let message = request(round % 2, &keys);
        let service = service.clone();
        let kv_tx = kv_tx.clone();
        pool.spawn(move || answer(message, service, kv_tx));
    }
    service.write().unwrap().set_state_view(Arc::new(MapView::of(&[(b"x", &[20])])));

    let wait = Duration::from_secs(10);
    for rx in &kv_rx {
        for _ in 0..4 {
            let entries = entries_of(&rx.recv_timeout(wait).unwrap());
            assert_eq!(entries.len(), 1000);
            let mut swapped = false;
            for entry in entries {
                assert_eq!(entry.0, b"x".to_vec());
                assert!(entry.1 == Some(vec![10u8]) || entry.1 == Some(vec![20u8]));
                // once the new snapshot is seen, the old one is never seen again
                if entry.1 == Some(vec![20u8]) {
                    swapped = true;
                } else {
                    assert!(!swapped);
                }
            }
        }
    }

    // a request that comes after the swap sees the new snapshot alone
    answer(request(1, &[b"x"]), service.clone(), kv_tx.clone());
    assert_eq!(
        entries_of(&kv_rx[1].recv_timeout(wait).unwrap()),
        vec![(b"x".to_vec(), Some(vec![20u8]))]
    );
}
