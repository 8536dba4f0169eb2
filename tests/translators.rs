use sqs_microservice::graph::{FileState, Node, NodeKey, ProcessState};
use sqs_microservice::translate::{
    generate_inbound_connection_subgraph, graph_from_file_delete, FileDelete, NetworkEvent,
};

fn s(x: &str) -> String {
    x.to_string()
}

#[test]
fn file_delete_fragment() {
    let event = FileDelete {
        deleter_process_id: 42,
        deleter_process_name: Some(s("explorer.exe")),
        path: s("C:\\a.txt"),
        hostname: s("h1"),
        timestamp: 1000,
    };
    let graph = graph_from_file_delete(event).unwrap();
    assert_eq!(graph.timestamp(), 1000);
    assert_eq!(graph.nodes().len(), 2);
    match &graph.nodes()[0] {
        Node::Process(p) => {
            assert_eq!(p.state, ProcessState::Existing);
            assert_eq!(p.process_id, 42);
            assert_eq!(p.process_name.as_deref(), Some("explorer.exe"));
            assert_eq!(p.timestamp, 1000);
        }
        other => panic!("unexpected node {:?}", other),
    }
    match &graph.nodes()[1] {
        Node::File(f) => {
            assert_eq!(f.state, FileState::Deleted);
            assert_eq!(f.path, "C:\\a.txt");
            assert_eq!(f.timestamp, 1000);
        }
        other => panic!("unexpected node {:?}", other),
    }
    assert_eq!(graph.edges().len(), 1);
    let e = &graph.edges()[0];
    assert_eq!(e.label, "deleted");
    assert_eq!(e.from, NodeKey::Process { hostname: s("h1"), process_id: 42 });
    assert_eq!(e.to, NodeKey::File { hostname: s("h1"), path: s("C:\\a.txt") });
}

#[test]
fn file_delete_without_process_name() {
    let event = FileDelete {
        deleter_process_id: 1,
        deleter_process_name: None,
        path: s("/etc/x"),
        hostname: s("h2"),
        timestamp: 5,
    };
    let graph = graph_from_file_delete(event).unwrap();
    match &graph.nodes()[0] {
        Node::Process(p) => assert_eq!(p.process_name, None),
        other => panic!("unexpected node {:?}", other),
    }
}

fn inbound_event(src: &str, dst: &str) -> NetworkEvent {
    NetworkEvent {
        hostname: s("h1"),
        timestamp: 2000,
        process_id: 7,
        source_ip: s(src),
        source_port: 443,
        destination_ip: s(dst),
        destination_port: 8080,
        protocol: s("tcp"),
    }
}

#[test]
fn inbound_connection_fragment() {
    let graph = generate_inbound_connection_subgraph(&inbound_event("10.0.0.1", "10.0.0.2")).unwrap();
    assert_eq!(graph.timestamp(), 2000);
    assert_eq!(graph.nodes().len(), 8);
    let kinds: Vec<&str> = graph
        .nodes()
        .iter()
        .map(|n| match n {
            Node::Asset(_) => "asset",
            Node::Process(_) => "process",
            Node::InboundConnection(_) => "inbound",
            Node::IpAddress(_) => "ip",
            Node::IpPort(_) => "port",
            Node::NetworkConnection(_) => "connection",
            Node::File(_) => "file",
        })
        .collect();
    assert_eq!(
        kinds,
        vec!["asset", "process", "inbound", "ip", "ip", "port", "port", "connection"]
    );

    let asset = NodeKey::Asset { asset_id: s("h1") };
    let process = NodeKey::Process { hostname: s("h1"), process_id: 7 };
    let inbound = NodeKey::InboundConnection {
        hostname: s("h1"),
        ip_address: s("10.0.0.1"),
        port: 443,
        protocol: s("tcp"),
    };
    let src_ip = NodeKey::IpAddress { ip_address: s("10.0.0.1") };
    let src_port = NodeKey::IpPort { ip_address: s("10.0.0.1"), port: 443, protocol: s("tcp") };
    let dst_port = NodeKey::IpPort { ip_address: s("10.0.0.2"), port: 8080, protocol: s("tcp") };
    let connection = NodeKey::NetworkConnection {
        src_ip_address: s("10.0.0.1"),
        src_port: 443,
        dst_ip_address: s("10.0.0.2"),
        dst_port: 8080,
    };
    let expected = vec![
        ("asset_ip", &asset, &src_ip),
        ("asset_processes", &asset, &process),
        ("created_connections", &process, &inbound),
        ("connected_over", &inbound, &src_port),
        ("connected_to", &inbound, &dst_port),
        ("outbound_connection_to", &src_port, &connection),
        ("inbound_connection_to", &connection, &dst_port),
    ];
    assert_eq!(graph.edges().len(), expected.len());
    for (edge, (label, from, to)) in graph.edges().iter().zip(expected) {
        assert_eq!(edge.label, label);
        assert_eq!(&edge.from, from);
        assert_eq!(&edge.to, to);
    }
}

#[test]
fn inbound_connection_same_addresses_merges_ip_node() {
    let graph = generate_inbound_connection_subgraph(&inbound_event("10.0.0.9", "10.0.0.9")).unwrap();
    assert_eq!(graph.nodes().len(), 7);
    assert_eq!(graph.edges().len(), 7);
}

#[test]
fn inbound_connection_same_address_and_port_merges_ports() {
    let mut event = inbound_event("10.0.0.9", "10.0.0.9");
    event.destination_port = 443;
    let graph = generate_inbound_connection_subgraph(&event).unwrap();
    assert_eq!(graph.nodes().len(), 6);
    assert_eq!(graph.edges().len(), 7);
}
