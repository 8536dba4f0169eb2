use sqs_microservice::builders::{
    AssetBuilder, Field, FileBuilder, InboundConnectionBuilder, IpAddressBuilder, IpPortBuilder,
    NetworkConnectionBuilder, ProcessBuilder,
};
use sqs_microservice::graph::{
    FileState, Graph, GraphError, InboundConnectionState, NetworkConnectionState, Node, NodeKey,
    ProcessState,
};

fn s(x: &str) -> String {
    x.to_string()
}

fn full_process() -> ProcessBuilder {
    ProcessBuilder::new()
        .hostname(s("h1"))
        .process_id(7)
        .state(ProcessState::Existing)
        .timestamp(100)
}

#[test]
fn process_builds_with_all_required_fields() {
    let node = full_process().build().unwrap();
    match node {
        Node::Process(p) => {
            assert_eq!(p.hostname, "h1");
            assert_eq!(p.process_id, 7);
            assert_eq!(p.process_name, None);
            assert_eq!(p.state, ProcessState::Existing);
            assert_eq!(p.timestamp, 100);
        }
        other => panic!("unexpected node {:?}", other),
    }
}

#[test]
fn process_missing_one_field_names_it() {
    let cases: Vec<(ProcessBuilder, Field)> = vec![
        (ProcessBuilder::new().process_id(7).state(ProcessState::Existing).timestamp(1), Field::Hostname),
        (ProcessBuilder::new().hostname(s("h")).state(ProcessState::Existing).timestamp(1), Field::ProcessId),
        (ProcessBuilder::new().hostname(s("h")).process_id(7).timestamp(1), Field::State),
        (ProcessBuilder::new().hostname(s("h")).process_id(7).state(ProcessState::Terminated), Field::Timestamp),
    ];
    for (builder, field) in cases {
        let err = builder.build().unwrap_err();
        assert_eq!(err.missing, vec![field]);
    }
}

#[test]
fn empty_builder_lists_every_required_field() {
    let err = ProcessBuilder::new().process_name(s("x")).build().unwrap_err();
    assert_eq!(
        err.missing,
        vec![Field::Hostname, Field::ProcessId, Field::State, Field::Timestamp]
    );
    let err = NetworkConnectionBuilder::new().build().unwrap_err();
    assert_eq!(
        err.missing,
        vec![
            Field::SrcIpAddress,
            Field::SrcPort,
            Field::DstIpAddress,
            Field::DstPort,
            Field::State,
            Field::Timestamp
        ]
    );
}

#[test]
fn other_builders_name_missing_fields() {
    assert_eq!(
        FileBuilder::new().hostname(s("h")).state(FileState::Created).timestamp(3).build().unwrap_err().missing,
        vec![Field::Path]
    );
    assert_eq!(AssetBuilder::new().asset_id(s("a")).build().unwrap_err().missing, vec![Field::Hostname]);
    assert_eq!(IpAddressBuilder::new().timestamp(1).build().unwrap_err().missing, vec![Field::IpAddress]);
    assert_eq!(
        IpPortBuilder::new().ip_address(s("1.2.3.4")).port(80).build().unwrap_err().missing,
        vec![Field::Protocol]
    );
    assert_eq!(
        InboundConnectionBuilder::new()
            .hostname(s("h"))
            .ip_address(s("1.2.3.4"))
            .port(80)
            .protocol(s("tcp"))
            .timestamp(5)
            .build()
            .unwrap_err()
            .missing,
        vec![Field::State]
    );
}

#[test]
fn file_builds_with_state_and_timestamp() {
    let node = FileBuilder::new()
        .hostname(s("h"))
        .path(s("/tmp/x"))
        .state(FileState::Deleted)
        .timestamp(55)
        .build()
        .unwrap();
    match node {
        Node::File(f) => {
            assert_eq!(f.state, FileState::Deleted);
            assert_eq!(f.timestamp, 55);
            assert_eq!(f.path, "/tmp/x");
        }
        other => panic!("unexpected node {:?}", other),
    }
}

#[test]
fn connection_builds_with_state_and_timestamp() {
    let node = NetworkConnectionBuilder::new()
        .src_ip_address(s("10.0.0.1"))
        .src_port(1)
        .dst_ip_address(s("10.0.0.2"))
        .dst_port(2)
        .state(NetworkConnectionState::Closed)
        .timestamp(9)
        .build()
        .unwrap();
    match node {
        Node::NetworkConnection(c) => {
            assert_eq!(c.state, NetworkConnectionState::Closed);
            assert_eq!(c.timestamp, 9);
        }
        other => panic!("unexpected node {:?}", other),
    }
    let inbound = InboundConnectionBuilder::new()
        .hostname(s("h"))
        .ip_address(s("1.2.3.4"))
        .port(80)
        .protocol(s("tcp"))
        .state(InboundConnectionState::Bound)
        .timestamp(5)
        .build()
        .unwrap();
    assert!(matches!(inbound, Node::InboundConnection(_)));
}

fn file_node() -> Node {
    FileBuilder::new()
        .hostname(s("h1"))
        .path(s("C:\\a.txt"))
        .state(FileState::Deleted)
        .timestamp(100)
        .build()
        .unwrap()
}

#[test]
fn edge_before_endpoints_fails() {
    let process = full_process().build().unwrap();
    let file = file_node();
    let mut graph = Graph::new(100);
    let r = graph.add_edge(s("deleted"), process.clone_node_key(), file.clone_node_key());
    assert_eq!(r, Err(GraphError::MissingEndpoint));
    assert!(graph.edges().is_empty());
    graph.add_node(process).unwrap();
    let from = graph.nodes()[0].clone_node_key();
    let r = graph.add_edge(s("deleted"), from, file.clone_node_key());
    assert_eq!(r, Err(GraphError::MissingEndpoint));
    assert!(graph.edges().is_empty());
}

#[test]
fn edge_after_endpoints_is_recorded() {
    let process = full_process().build().unwrap();
    let file = file_node();
    let from = process.clone_node_key();
    let to = file.clone_node_key();
    let mut graph = Graph::new(100);
    graph.add_node(process).unwrap();
    graph.add_node(file).unwrap();
    graph.add_edge(s("deleted"), from.clone_key(), to.clone_key()).unwrap();
    assert_eq!(graph.edges().len(), 1);
    let e = &graph.edges()[0];
    assert_eq!(e.label, "deleted");
    assert_eq!(e.from, from);
    assert_eq!(e.to, to);
}

#[test]
fn same_node_twice_is_kept_once() {
    let mut graph = Graph::new(1);
    graph.add_node(full_process().build().unwrap()).unwrap();
    graph.add_node(full_process().build().unwrap()).unwrap();
    assert_eq!(graph.nodes().len(), 1);
}

#[test]
fn conflicting_node_is_refused() {
    let mut graph = Graph::new(1);
    graph.add_node(full_process().build().unwrap()).unwrap();
    let other = full_process().process_name(s("other.exe")).build().unwrap();
    assert_eq!(graph.add_node(other), Err(GraphError::ConflictingNode));
    assert_eq!(graph.nodes().len(), 1);
}

#[test]
fn identity_depends_on_identifying_fields_only() {
    let a = full_process().timestamp(1).build().unwrap();
    let b = full_process().timestamp(2).process_name(s("n")).build().unwrap();
    assert!(a.clone_node_key().same_as(&b.clone_node_key()));
    assert_eq!(
        a.clone_node_key(),
        NodeKey::Process { hostname: s("h1"), process_id: 7 }
    );
    let c = full_process().process_id(8).build().unwrap();
    assert!(!a.clone_node_key().same_as(&c.clone_node_key()));
}

#[test]
fn new_graph_is_empty_with_timestamp() {
    let g = Graph::new(42);
    assert_eq!(g.timestamp(), 42);
    assert!(g.nodes().is_empty());
    assert!(g.edges().is_empty());
    let key = NodeKey::Asset { asset_id: s("a") };
    assert!(!g.contains(&key));
}
