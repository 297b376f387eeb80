use kube::runtime::listener::Listener;
use kube::{
    Controller, ControllerState, ErrorResponse, ListParams, Message, ObjectMeta, PipelineError,
    Polled, Received, ReconcileEvent, ReconcileQueue, Resource, WatchEvent,
};

fn object(name: &str, namespace: Option<&str>) -> ObjectMeta {
    ObjectMeta { name: name.to_string(), namespace: namespace.map(|s| s.to_string()) }
}

fn request(name: &str, namespace: Option<&str>) -> ReconcileEvent {
    ReconcileEvent { name: name.to_string(), namespace: namespace.map(|s| s.to_string()) }
}

fn resource(kind: &str) -> Resource {
    Resource {
        group: String::new(),
        version: "v1".to_string(),
        kind: kind.to_string(),
        namespace: Some("default".to_string()),
    }
}

fn no_params() -> ListParams {
    ListParams { field_selector: None, label_selector: None }
}

fn gone() -> ErrorResponse {
    ErrorResponse {
        status: "Failure".to_string(),
        message: "too old resource version".to_string(),
        reason: "Expired".to_string(),
        code: 410,
    }
}

fn ok_message(source: usize, name: &str) -> Received {
    Received::Message(Message { source, item: Ok(request(name, Some("default"))) })
}

#[test]
fn from_takes_the_identity() {
    let ev = ReconcileEvent::from(object("p1", Some("default")));
    assert_eq!(ev.name, "p1");
    assert_eq!(ev.namespace, Some("default".to_string()));
    let cluster_wide = ReconcileEvent::from(object("node-1", None));
    assert_eq!(cluster_wide.name, "node-1");
    assert_eq!(cluster_wide.namespace, None);
}

#[test]
fn try_from_normalises_changes() {
    let added = ReconcileEvent::try_from(WatchEvent::Added(object("a", Some("ns")))).unwrap();
    assert_eq!((added.name.as_str(), added.namespace.as_deref()), ("a", Some("ns")));
    let modified = ReconcileEvent::try_from(WatchEvent::Modified(object("b", None))).unwrap();
    assert_eq!((modified.name.as_str(), modified.namespace.as_deref()), ("b", None));
    let deleted = ReconcileEvent::try_from(WatchEvent::Deleted(object("c", Some("x")))).unwrap();
    assert_eq!((deleted.name.as_str(), deleted.namespace.as_deref()), ("c", Some("x")));
}

#[test]
fn try_from_surfaces_source_error() {
    let r = ReconcileEvent::try_from(WatchEvent::<ObjectMeta>::Error(gone()));
    match r {
        Err(PipelineError::Source(e)) => {
            assert_eq!(e.code, 410);
            assert_eq!(e.reason, "Expired");
            assert_eq!(e.message, "too old resource version");
            assert_eq!(e.status, "Failure");
        },
        _ => panic!("an error notification must give a source error"),
    }
}

#[test]
fn same_identity_compares_name_and_namespace() {
    let a = request("a", Some("ns"));
    assert!(a.same_identity(&request("a", Some("ns"))));
    assert!(!a.same_identity(&request("a", Some("other"))));
    assert!(!a.same_identity(&request("a", None)));
    assert!(!a.same_identity(&request("b", Some("ns"))));
    assert!(request("a", None).same_identity(&request("a", None)));
}

#[test]
fn debounce_collapses_repeated_requests() {
    let mut q = ReconcileQueue::new();
    assert!(q.push(request("A", Some("default"))));
    assert!(!q.push(request("A", Some("default"))));
    assert!(!q.push(request("A", Some("default"))));
    assert_eq!(q.len(), 1);
    let first = q.pop().unwrap();
    assert_eq!(first.name, "A");
    assert!(q.pop().is_none());
    assert!(q.is_empty());
}

#[test]
fn queue_hands_out_in_order_of_first_arrival() {
    let mut q = ReconcileQueue::new();
    q.push(request("A", None));
    q.push(request("B", None));
    assert_eq!(q.pop().unwrap().name, "A");
    assert_eq!(q.pop().unwrap().name, "B");
    assert!(q.pop().is_none());
}

#[test]
fn retriggered_request_keeps_its_slot() {
    let mut q = ReconcileQueue::new();
    q.push(request("A", None));
    q.push(request("B", None));
    q.push(request("A", None));
    assert_eq!(q.len(), 2);
    assert!(q.contains(&request("A", None)));
    assert!(!q.contains(&request("C", None)));
    assert_eq!(q.pop().unwrap().name, "A");
    assert_eq!(q.pop().unwrap().name, "B");
}

#[test]
fn drained_request_can_be_queued_again() {
    let mut q = ReconcileQueue::new();
    q.push(request("A", None));
    assert_eq!(q.pop().unwrap().name, "A");
    assert!(q.push(request("A", None)));
    assert_eq!(q.len(), 1);
}

#[test]
fn same_name_in_two_namespaces_is_two_requests() {
    let mut q = ReconcileQueue::new();
    assert!(q.push(request("A", Some("one"))));
    assert!(q.push(request("A", Some("two"))));
    assert!(q.push(request("A", None)));
    assert_eq!(q.len(), 3);
}

#[test]
fn listener_forwards_until_the_source_fails() {
    let mut l = Listener::new(3);
    let m = l.on_notification(WatchEvent::Modified(object("a", None))).unwrap();
    assert_eq!(m.source, 3);
    assert_eq!(m.item.unwrap().name, "a");
    assert!(l.active);
    let e = l.on_notification(WatchEvent::<ObjectMeta>::Error(gone())).unwrap();
    assert_eq!(e.source, 3);
    assert!(matches!(e.item, Err(PipelineError::Source(_))));
    assert!(!l.active);
    assert!(l.on_notification(WatchEvent::Added(object("b", None))).is_none());
}

#[test]
fn cancelled_listener_forwards_nothing() {
    let mut l = Listener::new(0);
    l.cancel();
    assert!(!l.active);
    assert_eq!(l.source, 0);
    assert!(l.on_notification(WatchEvent::Added(object("a", None))).is_none());
}

#[test]
fn sent_reports_a_closed_channel() {
    assert!(Listener::sent(true).is_ok());
    assert!(matches!(Listener::sent(false), Err(PipelineError::ChannelClosed)));
}

#[test]
fn controller_registers_resources_before_start() {
    let c = Controller::new(resource("Pod"));
    assert_eq!(c.state(), ControllerState::Configured);
    assert_eq!(c.watched(), 1);
    assert!(!c.is_listening(0));
    let c = c.owns(resource("ReplicaSet"), no_params());
    assert_eq!(c.watched(), 2);
    assert_eq!(c.resource_of(0).unwrap().kind, "Pod");
    assert_eq!(c.resource_of(1).unwrap().kind, "ReplicaSet");
    assert!(c.resource_of(2).is_none());
    let c = c.init();
    assert_eq!(c.state(), ControllerState::Running);
    assert!(c.is_listening(0));
    assert!(c.is_listening(1));
    assert!(!c.is_listening(2));
}

#[test]
fn end_to_end_pod_and_replica_set() {
    let mut c = Controller::new(resource("Pod")).owns(resource("ReplicaSet"), no_params()).init();
    let mut pods = Listener::new(0);
    let mut sets = Listener::new(1);
    let m = pods.on_notification(WatchEvent::Added(object("p1", Some("default")))).unwrap();
    Listener::forward(c.sender(), m).unwrap();
    let m = sets.on_notification(WatchEvent::Modified(object("rs1", Some("default")))).unwrap();
    Listener::forward(c.sender(), m).unwrap();
    assert_eq!(c.poll(), Polled::Delivered);
    assert_eq!(c.poll(), Polled::Delivered);
    assert_eq!(c.poll(), Polled::Idle);
    let first = c.next().unwrap();
    assert_eq!((first.name.as_str(), first.namespace.as_deref()), ("p1", Some("default")));
    let second = c.next().unwrap();
    assert_eq!((second.name.as_str(), second.namespace.as_deref()), ("rs1", Some("default")));
    assert!(c.next().is_none());
    assert!(c.next_error().is_none());
}

#[test]
fn burst_through_the_channel_is_debounced() {
    let mut c = Controller::new(resource("Pod")).init();
    let mut pods = Listener::new(0);
    for _ in 0..3 {
        let m = pods.on_notification(WatchEvent::Modified(object("A", Some("default")))).unwrap();
        Listener::forward(c.sender(), m).unwrap();
    }
    while c.poll() == Polled::Delivered {}
    assert_eq!(c.next().unwrap().name, "A");
    assert!(c.next().is_none());
}

#[test]
fn source_error_leaves_other_resources_alone() {
    let mut c = Controller::new(resource("Pod")).owns(resource("ReplicaSet"), no_params()).init();
    let mut pods = Listener::new(0);
    let mut sets = Listener::new(1);
    let m = pods.on_notification(WatchEvent::<ObjectMeta>::Error(gone())).unwrap();
    Listener::forward(c.sender(), m).unwrap();
    let m = sets.on_notification(WatchEvent::Modified(object("rs1", Some("default")))).unwrap();
    Listener::forward(c.sender(), m).unwrap();
    assert_eq!(c.poll(), Polled::Delivered);
    assert_eq!(c.state(), ControllerState::Running);
    assert!(!c.is_listening(0));
    assert!(c.is_listening(1));
    assert_eq!(c.poll(), Polled::Delivered);
    assert_eq!(c.next().unwrap().name, "rs1");
    let failure = c.next_error().unwrap();
    assert_eq!(failure.origin, Some(0));
    assert!(matches!(failure.error, PipelineError::Source(_)));
    assert!(c.next_error().is_none());
}

#[test]
fn stop_keeps_what_is_queued() {
    let mut c = Controller::new(resource("Pod")).init();
    c.react(ok_message(0, "A"));
    c.react(ok_message(0, "B"));
    c.stop();
    assert_eq!(c.state(), ControllerState::Stopped);
    assert!(!c.is_listening(0));
    assert_eq!(c.next().unwrap().name, "A");
    assert_eq!(c.next().unwrap().name, "B");
    assert!(c.next().is_none());
}

#[test]
fn stop_before_start_changes_nothing() {
    let mut c = Controller::new(resource("Pod"));
    c.stop();
    assert_eq!(c.state(), ControllerState::Configured);
}

#[test]
fn closed_channel_stops_a_running_controller_once() {
    let mut c = Controller::new(resource("Pod")).init();
    c.react(ok_message(0, "A"));
    c.react(Received::Closed);
    assert_eq!(c.state(), ControllerState::Stopped);
    assert!(!c.is_listening(0));
    c.react(Received::Closed);
    let failure = c.next_error().unwrap();
    assert_eq!(failure.origin, None);
    assert!(matches!(failure.error, PipelineError::ChannelClosed));
    assert!(c.next_error().is_none());
    assert_eq!(c.next().unwrap().name, "A");
}

#[test]
fn empty_channel_changes_nothing() {
    let mut c = Controller::new(resource("Pod")).init();
    c.react(Received::Empty);
    assert_eq!(c.poll(), Polled::Idle);
    assert_eq!(c.state(), ControllerState::Running);
    assert!(c.next().is_none());
    assert!(c.next_error().is_none());
}

#[test]
fn failed_listener_can_be_restarted() {
    let mut c = Controller::new(resource("Pod")).owns(resource("ReplicaSet"), no_params()).init();
    assert!(!c.restart_listener(1));
    c.react(Received::Message(Message { source: 1, item: Err(PipelineError::Source(gone())) }));
    assert!(!c.is_listening(1));
    assert!(c.restart_listener(1));
    assert!(c.is_listening(1));
    assert!(!c.restart_listener(2));
    c.stop();
    assert!(!c.restart_listener(1));
    assert!(!c.is_listening(1));
}

#[test]
fn error_from_an_unknown_source_is_still_recorded() {
    let mut c = Controller::new(resource("Pod")).init();
    c.react(Received::Message(Message { source: 7, item: Err(PipelineError::Source(gone())) }));
    assert!(c.is_listening(0));
    assert_eq!(c.state(), ControllerState::Running);
    assert_eq!(c.next_error().unwrap().origin, Some(7));
}

#[test]
fn drain_after_stop_hands_out_everything() {
    let mut c = Controller::new(resource("Pod")).init();
    c.react(ok_message(0, "A"));
    c.react(ok_message(0, "B"));
    c.react(ok_message(0, "A"));
    c.stop();
    let drained = c.drain();
    let names: Vec<&str> = drained.iter().map(|e| e.name.as_str()).collect();
    assert_eq!(names, vec!["A", "B"]);
    assert!(c.next().is_none());
    assert!(c.drain().is_empty());
}

#[test]
fn queue_drain_keeps_order() {
    let mut q = ReconcileQueue::new();
    q.push(request("x", Some("one")));
    q.push(request("y", None));
    q.push(request("x", Some("two")));
    q.push(request("y", None));
    let drained = q.drain();
    assert_eq!(drained.len(), 3);
    assert_eq!((drained[0].name.as_str(), drained[0].namespace.as_deref()), ("x", Some("one")));
    assert_eq!((drained[1].name.as_str(), drained[1].namespace.as_deref()), ("y", None));
    assert_eq!((drained[2].name.as_str(), drained[2].namespace.as_deref()), ("x", Some("two")));
    assert!(q.is_empty());
}
