use bpmn_model::definitions::{
    Definitions, DefinitionsRecord, EndEvent, Gateway, Process, ProcessRecord, SequenceFlow,
    StartEvent, Task,
};
use bpmn_model::non_empty::{NonEmptyVec, ValidationError};

fn start(id: &str) -> StartEvent {
    StartEvent { id: id.to_string(), name: None }
}

fn task(id: &str) -> Task {
    Task { id: id.to_string(), name: Some(format!("Do {}", id)) }
}

fn flow(id: &str, from: &str, to: &str) -> SequenceFlow {
    SequenceFlow {
        id: id.to_string(),
        name: None,
        source_ref: from.to_string(),
        target_ref: to.to_string(),
    }
}

fn sample_record() -> ProcessRecord {
    ProcessRecord {
        id: "p1".to_string(),
        name: Some("Order".to_string()),
        start_events: vec![start("s1"), start("s2")],
        tasks: vec![task("t1"), task("t2")],
        gateways: vec![Gateway { id: "g1".to_string(), name: None }],
        end_events: vec![EndEvent { id: "e1".to_string(), name: Some("Done".to_string()) }],
        sequence_flows: vec![flow("f1", "s1", "t1"), flow("f2", "t1", "g1")],
    }
}

fn sample_process() -> Process {
    Process::try_from_record(sample_record()).unwrap()
}

#[test]
fn process_decode_rejects_empty_start_events() {
    let mut r = sample_record();
    r.start_events = Vec::new();
    assert_eq!(Process::try_from_record(r), Err(ValidationError::Empty));
}

#[test]
fn process_decode_keeps_start_events_in_order() {
    let p = sample_process();
    assert_eq!(p.id, "p1");
    assert_eq!(p.start_events.len(), 2);
    assert_eq!(p.start_events.first().id, "s1");
    assert_eq!(p.tasks.len(), 2);
}

#[test]
fn process_round_trip() {
    let p = sample_process();
    let r = p.clone().into_record();
    assert_eq!(r.start_events, vec![start("s1"), start("s2")]);
    assert_eq!(Process::try_from_record(r), Ok(p));
}

#[test]
fn process_record_round_trip() {
    let r = sample_record();
    let back = Process::try_from_record(r.clone()).unwrap().into_record();
    assert_eq!(back.id, r.id);
    assert_eq!(back.name, r.name);
    assert_eq!(back.start_events, r.start_events);
    assert_eq!(back.tasks, r.tasks);
    assert_eq!(back.gateways, r.gateways);
    assert_eq!(back.end_events, r.end_events);
    assert_eq!(back.sequence_flows, r.sequence_flows);
}

#[test]
fn processes_built_alike_are_equal() {
    let mut starts = NonEmptyVec::new(start("s1"));
    starts.push(start("s2"));
    let a = Process {
        id: "p".to_string(),
        name: None,
        start_events: starts.clone(),
        tasks: vec![task("t1")],
        gateways: Vec::new(),
        end_events: Vec::new(),
        sequence_flows: vec![flow("f1", "s1", "t1")],
    };
    let b = Process {
        id: "p".to_string(),
        name: None,
        start_events: starts,
        tasks: vec![task("t1")],
        gateways: Vec::new(),
        end_events: Vec::new(),
        sequence_flows: vec![flow("f1", "s1", "t1")],
    };
    assert_eq!(a, b);
}

#[test]
fn reordered_start_events_make_processes_unequal() {
    let a = sample_process();
    let mut r = sample_record();
    r.start_events.reverse();
    let b = Process::try_from_record(r).unwrap();
    assert_ne!(a, b);
}

#[test]
fn reordered_tasks_make_processes_unequal() {
    let a = sample_process();
    let mut b = sample_process();
    b.tasks.reverse();
    assert_ne!(a, b);
}

#[test]
fn reordered_flows_make_processes_unequal() {
    let a = sample_process();
    let mut b = sample_process();
    b.sequence_flows.reverse();
    assert_ne!(a, b);
}

#[test]
fn changed_gateway_or_end_event_makes_processes_unequal() {
    let a = sample_process();
    let mut b = sample_process();
    b.gateways.push(Gateway { id: "g2".to_string(), name: None });
    assert_ne!(a, b);
    let mut c = sample_process();
    c.end_events[0].name = None;
    assert_ne!(a, c);
}

#[test]
fn absent_name_differs_from_empty_name() {
    let a = Task { id: "t".to_string(), name: None };
    let b = Task { id: "t".to_string(), name: Some(String::new()) };
    assert_ne!(a, b);
    assert_eq!(a, a.clone());
}

#[test]
fn flows_compare_source_and_target() {
    assert_eq!(flow("f", "a", "b"), flow("f", "a", "b"));
    assert_ne!(flow("f", "a", "b"), flow("f", "b", "a"));
}

#[test]
fn definitions_decode_and_round_trip() {
    let r = DefinitionsRecord {
        name: Some("defs".to_string()),
        target_namespace: Some("http://example.com/bpmn".to_string()),
        processes: vec![sample_record(), sample_record()],
    };
    let d = Definitions::try_from_record(r).unwrap();
    assert_eq!(d.processes.len(), 2);
    assert_eq!(d.processes[1], sample_process());
    let back = d.clone().into_record();
    assert_eq!(back.processes.len(), 2);
    assert_eq!(Definitions::try_from_record(back), Ok(d));
}

#[test]
fn definitions_decode_rejects_process_without_start() {
    let mut bad = sample_record();
    bad.start_events.clear();
    let r = DefinitionsRecord {
        name: None,
        target_namespace: None,
        processes: vec![sample_record(), bad],
    };
    assert_eq!(Definitions::try_from_record(r), Err(ValidationError::Empty));
}

#[test]
fn definitions_with_no_processes_decode() {
    let r = DefinitionsRecord { name: None, target_namespace: None, processes: Vec::new() };
    let d = Definitions::try_from_record(r).unwrap();
    assert!(d.processes.is_empty());
    assert_ne!(
        d,
        Definitions { name: Some("x".to_string()), target_namespace: None, processes: Vec::new() }
    );
}

#[test]
fn clones_are_equal() {
    let p = sample_process();
    assert_eq!(p.clone(), p);
    let f = flow("f", "a", "b");
    assert_eq!(f.clone(), f);
    let d = Definitions {
        name: Some("defs".to_string()),
        target_namespace: None,
        processes: vec![sample_process()],
    };
    assert_eq!(d.clone(), d);
}
