use futures::sync::oneshot::{channel, Receiver};
use futures::Future;
use mqtt_outbound::error::{ClientError, ClientReturn, Outcome};
use mqtt_outbound::handler::{PollStatus, RegistrationTask, UnsubscribeHandler};
use mqtt_outbound::key::{OneTimeKey, OperationKind};
use mqtt_outbound::packet::{derive_key, MqttPacket};
use mqtt_outbound::table::{CorrelationTable, Delivery, LoopData};

fn request(id: Option<u16>, payload: Vec<u8>) -> ((MqttPacket, futures::sync::oneshot::Sender<Outcome>), Receiver<Outcome>) {
    let (tx, rx) = channel::<Outcome>();
    ((MqttPacket::new(id, payload), tx), rx)
}

#[test]
fn key_codes_are_exact() {
    assert_eq!(OneTimeKey::Publish(7).code(), 7);
    assert_eq!(OneTimeKey::Subscribe(7).code(), 65543);
    assert_eq!(OneTimeKey::Unsubscribe(42).code(), 131114);
    assert_eq!(OneTimeKey::Unsubscribe(65535).code(), 196607);
    assert_eq!(OneTimeKey::new(OperationKind::Subscribe, 9), OneTimeKey::Subscribe(9));
    assert_eq!(OneTimeKey::Publish(3).kind(), OperationKind::Publish);
    assert_eq!(OneTimeKey::Publish(3).packet_id(), 3);
}

#[test]
fn derive_key_from_packet() {
    let p = MqttPacket::new(Some(42), vec![1, 2]);
    assert_eq!(derive_key(OperationKind::Unsubscribe, &p), Ok(OneTimeKey::Unsubscribe(42)));
    assert_eq!(derive_key(OperationKind::Publish, &p), Ok(OneTimeKey::Publish(42)));
}

#[test]
fn derive_key_is_deterministic() {
    let p = MqttPacket::new(Some(1000), vec![]);
    let q = p.clone();
    assert_eq!(derive_key(OperationKind::Subscribe, &p), derive_key(OperationKind::Subscribe, &q));
    assert_eq!(derive_key(OperationKind::Subscribe, &p), derive_key(OperationKind::Subscribe, &p));
    assert_ne!(derive_key(OperationKind::Subscribe, &p), derive_key(OperationKind::Unsubscribe, &p));
}

#[test]
fn derive_key_without_identifier_fails() {
    let p = MqttPacket::new(None, vec![9]);
    assert_eq!(derive_key(OperationKind::Unsubscribe, &p), Err(ClientError::MissingPacketId));
}

#[test]
fn unsubscribe_scenario_register_lookup_remove() {
    let (req, mut rx) = request(Some(42), vec![0xa2, 0x05]);
    let mut handler = UnsubscribeHandler::new(req);
    let mut data = LoopData::new();
    let key = OneTimeKey::Unsubscribe(42);

    assert_eq!(handler.poll(None), Ok(PollStatus::NotReady));
    assert!(!handler.is_done());
    assert!(!data.one_time.contains_key(&key));

    assert_eq!(handler.poll(Some(&mut data)), Ok(PollStatus::Ready));
    assert!(handler.is_done());
    assert!(data.one_time.contains_key(&key));
    let entry = data.one_time.get(&key).unwrap();
    assert_eq!(entry.packet.packet_id, Some(42));
    assert_eq!(entry.packet.payload, vec![0xa2, 0x05]);
    assert_eq!(rx.try_recv(), Ok(None));

    let removed = data.one_time.remove(&key).unwrap();
    assert_eq!(removed.packet.packet_id, Some(42));
    assert!(!data.one_time.contains_key(&key));
    assert!(data.one_time.get(&key).is_none());
    assert_eq!(removed.fire(Ok(ClientReturn::Acknowledged(key))), Delivery::Delivered);
    assert_eq!(wait_value(rx), Ok(ClientReturn::Acknowledged(key)));
}

fn wait_value(rx: Receiver<Outcome>) -> Outcome {
    rx.wait().expect("notifier dropped without firing")
}

#[test]
fn single_registration_per_request() {
    let (req, _rx) = request(Some(5), vec![]);
    let mut task = RegistrationTask::new(OperationKind::Subscribe, req);
    let mut data = LoopData::new();
    assert_eq!(task.poll(Some(&mut data)), Ok(PollStatus::Ready));
    assert!(data.one_time.contains_key(&OneTimeKey::Subscribe(5)));
    assert!(!data.one_time.contains_key(&OneTimeKey::Unsubscribe(5)));
    assert!(!data.one_time.contains_key(&OneTimeKey::Publish(5)));
    assert!(data.one_time.remove(&OneTimeKey::Subscribe(5)).is_some());
    assert!(data.one_time.remove(&OneTimeKey::Subscribe(5)).is_none());
}

#[test]
fn distinct_keys_all_registered_in_any_order() {
    let ids: Vec<u16> = vec![1, 2, 3, 4, 5];
    for order in [vec![0usize, 1, 2, 3, 4], vec![4, 2, 0, 3, 1]] {
        let mut data = LoopData::new();
        let mut tasks = Vec::new();
        let mut receivers = Vec::new();
        for &i in &ids {
            let (req, rx) = request(Some(i), vec![i as u8]);
            tasks.push(UnsubscribeHandler::new(req));
            receivers.push(rx);
        }
        for &i in &order {
            assert_eq!(tasks[i].poll(Some(&mut data)), Ok(PollStatus::Ready));
        }
        for &i in &ids {
            let entry = data.one_time.get(&OneTimeKey::Unsubscribe(i)).unwrap();
            assert_eq!(entry.packet.payload, vec![i as u8]);
        }
        for &i in &ids {
            assert!(data.one_time.remove(&OneTimeKey::Unsubscribe(i)).is_some());
        }
        for &i in &ids {
            assert!(!data.one_time.contains_key(&OneTimeKey::Unsubscribe(i)));
        }
    }
}

#[test]
fn notifier_fires_at_most_once() {
    let (req, rx) = request(Some(8), vec![]);
    let mut handler = UnsubscribeHandler::new(req);
    let mut data = LoopData::new();
    handler.poll(Some(&mut data)).unwrap();
    let key = OneTimeKey::Unsubscribe(8);
    assert_eq!(data.one_time.complete(&key, Ok(ClientReturn::Acknowledged(key))), Delivery::Delivered);
    assert_eq!(data.one_time.complete(&key, Ok(ClientReturn::Acknowledged(key))), Delivery::NoEntry);
    assert!(!data.one_time.contains_key(&key));
    assert_eq!(wait_value(rx), Ok(ClientReturn::Acknowledged(key)));
}

#[test]
fn completion_delivers_failure_outcome() {
    let mut table = CorrelationTable::new();
    let (req, rx) = request(Some(11), vec![]);
    let mut task = RegistrationTask::new(OperationKind::Publish, req);
    let mut data = LoopData::new();
    task.poll(Some(&mut data)).unwrap();
    let key = OneTimeKey::Publish(11);
    assert_eq!(table.complete(&key, Err(ClientError::Rejected(key))), Delivery::NoEntry);
    assert_eq!(data.one_time.complete(&key, Err(ClientError::Rejected(key))), Delivery::Delivered);
    assert_eq!(wait_value(rx), Err(ClientError::Rejected(key)));
}

#[test]
fn completion_after_caller_gone() {
    let (req, rx) = request(Some(3), vec![]);
    let mut handler = UnsubscribeHandler::new(req);
    let mut data = LoopData::new();
    handler.poll(Some(&mut data)).unwrap();
    drop(rx);
    let key = OneTimeKey::Unsubscribe(3);
    assert_eq!(data.one_time.complete(&key, Ok(ClientReturn::Acknowledged(key))), Delivery::CallerGone);
    assert!(!data.one_time.contains_key(&key));
}

#[test]
fn colliding_keys_overwrite_first_entry() {
    let (req1, mut rx1) = request(Some(42), vec![1]);
    let (req2, rx2) = request(Some(42), vec![2]);
    let mut first = UnsubscribeHandler::new(req1);
    let mut second = UnsubscribeHandler::new(req2);
    let mut data = LoopData::new();
    assert_eq!(first.poll(Some(&mut data)), Ok(PollStatus::Ready));
    assert_eq!(second.poll(Some(&mut data)), Ok(PollStatus::Ready));
    let key = OneTimeKey::Unsubscribe(42);
    assert_eq!(data.one_time.get(&key).unwrap().packet.payload, vec![2]);
    // The first notifier was dropped with its entry, never fired.
    assert!(rx1.try_recv().is_err());
    assert_eq!(data.one_time.complete(&key, Ok(ClientReturn::Acknowledged(key))), Delivery::Delivered);
    assert_eq!(wait_value(rx2), Ok(ClientReturn::Acknowledged(key)));
}

#[test]
fn table_insert_returns_displaced_entry() {
    let mut table = CorrelationTable::new();
    let (tx1, _rx1) = channel::<Outcome>();
    let (tx2, _rx2) = channel::<Outcome>();
    let key = OneTimeKey::Subscribe(1);
    let e1 = mqtt_outbound::table::PendingEntry::new(MqttPacket::new(Some(1), vec![1]), tx1);
    let e2 = mqtt_outbound::table::PendingEntry::new(MqttPacket::new(Some(1), vec![2]), tx2);
    assert!(table.insert(key, e1).is_none());
    let displaced = table.insert(key, e2).unwrap();
    assert_eq!(displaced.packet.payload, vec![1]);
    assert_eq!(table.get(&key).unwrap().packet.payload, vec![2]);
}

#[test]
fn repoll_after_done_changes_nothing() {
    let (req, mut rx) = request(Some(77), vec![]);
    let mut handler = UnsubscribeHandler::new(req);
    let mut data = LoopData::new();
    assert_eq!(handler.poll(Some(&mut data)), Ok(PollStatus::Ready));
    let key = OneTimeKey::Unsubscribe(77);
    assert!(data.one_time.remove(&key).is_some());
    assert_eq!(handler.poll(Some(&mut data)), Ok(PollStatus::NotReady));
    assert_eq!(handler.poll(None), Ok(PollStatus::NotReady));
    assert!(handler.is_done());
    assert!(!data.one_time.contains_key(&key));
    assert!(rx.try_recv().is_err());
}

#[test]
fn missing_identifier_fails_task_and_fires_notifier() {
    let (req, rx) = request(None, vec![]);
    let mut handler = UnsubscribeHandler::new(req);
    let mut data = LoopData::new();
    assert_eq!(handler.poll(None), Ok(PollStatus::NotReady));
    assert_eq!(handler.poll(Some(&mut data)), Err(ClientError::MissingPacketId));
    assert!(handler.is_done());
    assert_eq!(handler.poll(Some(&mut data)), Ok(PollStatus::NotReady));
    assert_eq!(wait_value(rx), Err(ClientError::MissingPacketId));
}
