//! Translators from decoded telemetry events to graph fragments.
use vstd::prelude::*;
use crate::builders::{
    AssetBuilder, FileBuilder, InboundConnectionBuilder, IpAddressBuilder, IpPortBuilder,
    NetworkConnectionBuilder, ProcessBuilder, ValidationError,
};
use crate::graph::{
    AssetNode, FileNode, FileState, Graph, GraphError, InboundConnectionNode,
    InboundConnectionState, IpAddressNode, IpPortNode, KeyView, NetworkConnectionNode,
    NetworkConnectionState, Node, NodeKey, ProcessNode, ProcessState, without_repeats,
};

verus! {

/// Why a translator could not produce a fragment.
#[derive(Debug)]
pub enum TranslateError {
    Validation(ValidationError),
    Graph(GraphError),
}

/// A process deleted a file on a host.
#[derive(Debug)]
pub struct FileDelete {
    pub deleter_process_id: u64,
    pub deleter_process_name: Option<String>,
    pub path: String,
    pub hostname: String,
    pub timestamp: u64,
}

/// The deleting process, as the fragment of a `FileDelete` holds it.
pub open spec fn deleter_node(e: FileDelete) -> Node {
    Node::Process(
        ProcessNode {
            hostname: e.hostname,
            process_id: e.deleter_process_id,
            process_name: e.deleter_process_name,
            state: ProcessState::Existing,
            timestamp: e.timestamp,
        },
    )
}

/// The deleted file, as the fragment of a `FileDelete` holds it.
pub open spec fn deleted_file_node(e: FileDelete) -> Node {
    Node::File(
        FileNode {
            hostname: e.hostname,
            path: e.path,
            state: FileState::Deleted,
            timestamp: e.timestamp,
        },
    )
}

fn label(s: &str) -> (r: String)
    ensures
        r@ == s@,
{
    s.to_owned()
}

fn insert_node(graph: &mut Graph, node: Node) -> (r: Result<(), TranslateError>)
    requires
        old(graph).wf(),
    ensures
        final(graph).wf(),
        final(graph).spec_edges() == old(graph).spec_edges(),
        final(graph).spec_timestamp() == old(graph).spec_timestamp(),
        !crate::graph::has_key(old(graph).spec_nodes(), node.key_view()) ==> r is Ok
            && final(graph).spec_nodes() == old(graph).spec_nodes().push(node),
        crate::graph::has_key(old(graph).spec_nodes(), node.key_view()) ==> final(graph).spec_nodes()
            == old(graph).spec_nodes(),
        crate::graph::has_key(final(graph).spec_nodes(), node.key_view()),
        forall|k: KeyView|
            crate::graph::has_key(old(graph).spec_nodes(), k) ==> crate::graph::has_key(
                final(graph).spec_nodes(),
                k,
            ),
        final(graph).spec_nodes() == old(graph).spec_nodes() || final(graph).spec_nodes() == old(
            graph,
        ).spec_nodes().push(node),
        (forall|i: int|
            0 <= i < old(graph).spec_nodes().len() && #[trigger] old(graph).spec_nodes()[i].key_view()
                == node.key_view() ==> old(graph).spec_nodes()[i].same_content(&node)) ==> r is Ok,
{
    match graph.add_node(node) {
        Ok(()) => Ok(()),
        Err(e) => Err(TranslateError::Graph(e)),
    }
}

fn link(graph: &mut Graph, l: &str, from: &NodeKey, to: &NodeKey) -> (r: Result<(), TranslateError>)
    requires
        old(graph).wf(),
        crate::graph::has_key(old(graph).spec_nodes(), from@),
        crate::graph::has_key(old(graph).spec_nodes(), to@),
    ensures
        r is Ok,
        final(graph).wf(),
        final(graph).spec_nodes() == old(graph).spec_nodes(),
        final(graph).spec_timestamp() == old(graph).spec_timestamp(),
        final(graph).spec_edges() == old(graph).spec_edges().push((l@, from@, to@)),
{
    match graph.add_edge(label(l), from.clone_key(), to.clone_key()) {
        Ok(()) => Ok(()),
        Err(e) => Err(TranslateError::Graph(e)),
    }
}

/// The fragment of a file deletion: the deleting process, the deleted file,
/// and a "deleted" edge between them, at the event's time.
pub fn graph_from_file_delete(file_delete: FileDelete) -> (r: Result<Graph, TranslateError>)
    ensures
        r is Ok,
        r->Ok_0.wf(),
        r->Ok_0.spec_timestamp() == file_delete.timestamp,
        r->Ok_0.spec_nodes() == seq![deleter_node(file_delete), deleted_file_node(file_delete)],
        r->Ok_0.spec_edges() == seq![
            (
                "deleted"@,
                deleter_node(file_delete).key_view(),
                deleted_file_node(file_delete).key_view(),
            ),
        ],
{
    let ghost e = file_delete;
    let mut builder = ProcessBuilder::new().hostname(file_delete.hostname.clone()).state(
        ProcessState::Existing,
    ).process_id(file_delete.deleter_process_id).timestamp(file_delete.timestamp);
    if let Some(name) = file_delete.deleter_process_name {
        builder = builder.process_name(name);
    }
    let deleter = match builder.build() {
        Ok(n) => n,
        Err(e) => return Err(TranslateError::Validation(e)),
    };
    let file = match FileBuilder::new().hostname(file_delete.hostname).state(
        FileState::Deleted,
    ).timestamp(file_delete.timestamp).path(file_delete.path).build() {
        Ok(n) => n,
        Err(e) => return Err(TranslateError::Validation(e)),
    };
    assert(deleter == deleter_node(e));
    assert(file == deleted_file_node(e));

    let mut graph = Graph::new(file_delete.timestamp);
    let from = deleter.clone_node_key();
    let to = file.clone_node_key();
    insert_node(&mut graph, deleter)?;
    insert_node(&mut graph, file)?;
    link(&mut graph, "deleted", &from, &to)?;
    assert(graph.spec_nodes() =~= seq![deleter_node(e), deleted_file_node(e)]);
    assert(graph.spec_edges() =~= seq![
        ("deleted"@, deleter_node(e).key_view(), deleted_file_node(e).key_view()),
    ]);
    Ok(graph)
}

/// A network connection that sysmon reported on a host; the source side
/// is the local, listening end.
#[derive(Debug)]
pub struct NetworkEvent {
    /// The name of the reporting computer.
    pub hostname: String,
    /// When the connection was seen, in milliseconds since the Unix epoch.
    pub timestamp: u64,
    pub process_id: u64,
    pub source_ip: String,
    pub source_port: u16,
    pub destination_ip: String,
    pub destination_port: u16,
    pub protocol: String,
}

/// The nodes of an inbound connection's fragment, in the order they are added.
pub open spec fn inbound_nodes(e: NetworkEvent) -> Seq<Node> {
    seq![
        Node::Asset(AssetNode { asset_id: e.hostname, hostname: e.hostname }),
        Node::Process(
            ProcessNode {
                hostname: e.hostname,
                process_id: e.process_id,
                process_name: None,
                state: ProcessState::Existing,
                timestamp: e.timestamp,
            },
        ),
        Node::InboundConnection(
            InboundConnectionNode {
                hostname: e.hostname,
                ip_address: e.source_ip,
                port: e.source_port,
                protocol: e.protocol,
                state: InboundConnectionState::Bound,
                timestamp: e.timestamp,
            },
        ),
        Node::IpAddress(IpAddressNode { ip_address: e.source_ip, timestamp: e.timestamp }),
        Node::IpAddress(IpAddressNode { ip_address: e.destination_ip, timestamp: e.timestamp }),
        Node::IpPort(IpPortNode { ip_address: e.source_ip, port: e.source_port, protocol: e.protocol }),
        Node::IpPort(
            IpPortNode { ip_address: e.destination_ip, port: e.destination_port, protocol: e.protocol },
        ),
        Node::NetworkConnection(
            NetworkConnectionNode {
                src_ip_address: e.source_ip,
                src_port: e.source_port,
                dst_ip_address: e.destination_ip,
                dst_port: e.destination_port,
                state: NetworkConnectionState::Created,
                timestamp: e.timestamp,
            },
        ),
    ]
}

/// The edges of an inbound connection's fragment, in the order they are added.
pub open spec fn inbound_edges(e: NetworkEvent) -> Seq<(Seq<char>, KeyView, KeyView)> {
    let n = inbound_nodes(e);
    let asset = n[0].key_view();
    let process = n[1].key_view();
    let inbound = n[2].key_view();
    let src_ip = n[3].key_view();
    let src_port = n[5].key_view();
    let dst_port = n[6].key_view();
    let connection = n[7].key_view();
    seq![
        ("asset_ip"@, asset, src_ip),
        ("asset_processes"@, asset, process),
        ("created_connections"@, process, inbound),
        ("connected_over"@, inbound, src_port),
        ("connected_to"@, inbound, dst_port),
        ("outbound_connection_to"@, src_port, connection),
        ("inbound_connection_to"@, connection, dst_port),
    ]
}

/// Every node of `nodes` is one of `want`.
spec fn drawn_from(nodes: Seq<Node>, want: Seq<Node>) -> bool {
    forall|i: int| 0 <= i < nodes.len() ==> #[trigger] want.contains(nodes[i])
}

/// Among the nodes of one inbound connection, equal identities mean equal content.
proof fn lemma_inbound_identities_consistent(e: NetworkEvent)
    ensures
        forall|a: Node, b: Node|
            inbound_nodes(e).contains(a) && inbound_nodes(e).contains(b) && a.key_view() == b.key_view()
                ==> #[trigger] a.same_content(&b),
{
    let w = inbound_nodes(e);
    assert forall|a: Node, b: Node|
        w.contains(a) && w.contains(b) && a.key_view() == b.key_view() implies #[trigger] a.same_content(
        &b,
    ) by {
        let j = choose|j: int| 0 <= j < w.len() && w[j] == a;
        let k = choose|k: int| 0 <= k < w.len() && w[k] == b;
        assert(0 <= j < 8 && 0 <= k < 8);
    }
}

/// Where the two addresses differ, the nodes of one inbound connection have
/// pairwise distinct identities.
proof fn lemma_inbound_identities_distinct(e: NetworkEvent)
    requires
        e.source_ip@ != e.destination_ip@,
    ensures
        forall|j: int, k: int|
            0 <= j < 8 && 0 <= k < 8 && j != k ==> #[trigger] inbound_nodes(e)[j].key_view()
                != #[trigger] inbound_nodes(e)[k].key_view(),
{
}

fn insert_drawn(graph: &mut Graph, node: Node, Ghost(want): Ghost<Seq<Node>>) -> (r: Result<
    (),
    TranslateError,
>)
    requires
        old(graph).wf(),
        drawn_from(old(graph).spec_nodes(), want),
        want.contains(node),
        forall|a: Node, b: Node|
            want.contains(a) && want.contains(b) && a.key_view() == b.key_view()
                ==> #[trigger] a.same_content(&b),
    ensures
        r is Ok,
        final(graph).wf(),
        drawn_from(final(graph).spec_nodes(), want),
        final(graph).spec_edges() == old(graph).spec_edges(),
        final(graph).spec_timestamp() == old(graph).spec_timestamp(),
        !crate::graph::has_key(old(graph).spec_nodes(), node.key_view()) ==> final(graph).spec_nodes()
            == old(graph).spec_nodes().push(node),
        crate::graph::has_key(old(graph).spec_nodes(), node.key_view()) ==> final(graph).spec_nodes()
            == old(graph).spec_nodes(),
        crate::graph::has_key(final(graph).spec_nodes(), node.key_view()),
        forall|k: KeyView|
            crate::graph::has_key(old(graph).spec_nodes(), k) ==> crate::graph::has_key(
                final(graph).spec_nodes(),
                k,
            ),
{
    let ghost n = node;
    let ghost before = graph.spec_nodes();
    assert forall|i: int|
        0 <= i < before.len() && #[trigger] before[i].key_view() == n.key_view() implies before[i].same_content(
        &n,
    ) by {
        assert(want.contains(before[i]));
    }
    let r = insert_node(graph, node);
    assert forall|i: int| 0 <= i < graph.spec_nodes().len() implies #[trigger] want.contains(
        graph.spec_nodes()[i],
    ) by {
        if i < before.len() {
            assert(want.contains(before[i]));
        }
    }
    r
}

fn built(r: Result<Node, ValidationError>) -> (n: Result<Node, TranslateError>)
    ensures
        r is Ok ==> n == Ok::<Node, TranslateError>(r->Ok_0),
        r is Err ==> n is Err,
{
    match r {
        Ok(node) => Ok(node),
        Err(e) => Err(TranslateError::Validation(e)),
    }
}

/// The nodes of an inbound connection, each built and validated.
fn build_inbound_nodes(conn_log: &NetworkEvent) -> (r: Result<Vec<Node>, TranslateError>)
    ensures
        r is Ok,
        r->Ok_0@ == inbound_nodes(*conn_log),
{
    let timestamp = conn_log.timestamp;
    let host = &conn_log.hostname;
    let asset = built(AssetBuilder::new().asset_id(host.clone()).hostname(host.clone()).build())?;
    let process = built(
        ProcessBuilder::new().hostname(host.clone()).state(ProcessState::Existing).process_id(
            conn_log.process_id,
        ).timestamp(timestamp).build(),
    )?;
    let inbound = built(
        InboundConnectionBuilder::new().hostname(host.clone()).state(
            InboundConnectionState::Bound,
        ).port(conn_log.source_port).ip_address(conn_log.source_ip.clone()).protocol(
            conn_log.protocol.clone(),
        ).timestamp(timestamp).build(),
    )?;
    let src_ip = built(
        IpAddressBuilder::new().ip_address(conn_log.source_ip.clone()).timestamp(timestamp).build(),
    )?;
    let dst_ip = built(
        IpAddressBuilder::new().ip_address(conn_log.destination_ip.clone()).timestamp(
            timestamp,
        ).build(),
    )?;
    let src_port = built(
        IpPortBuilder::new().ip_address(conn_log.source_ip.clone()).port(
            conn_log.source_port,
        ).protocol(conn_log.protocol.clone()).build(),
    )?;
    let dst_port = built(
        IpPortBuilder::new().ip_address(conn_log.destination_ip.clone()).port(
            conn_log.destination_port,
        ).protocol(conn_log.protocol.clone()).build(),
    )?;
    let connection = built(
        NetworkConnectionBuilder::new().state(NetworkConnectionState::Created).src_ip_address(
            conn_log.source_ip.clone(),
        ).src_port(conn_log.source_port).dst_ip_address(conn_log.destination_ip.clone()).dst_port(
            conn_log.destination_port,
        ).timestamp(timestamp).build(),
    )?;
    let v = vec![asset, process, inbound, src_ip, dst_ip, src_port, dst_port, connection];
    assert(v@ =~= inbound_nodes(*conn_log));
    Ok(v)
}

/// The fragment of an inbound connection: the host, the listening process,
/// its bound port, both addresses and ports, and the connection between them.
/// Where the two addresses differ, the fragment holds exactly eight nodes.
pub fn generate_inbound_connection_subgraph(conn_log: &NetworkEvent) -> (r: Result<
    Graph,
    TranslateError,
>)
    ensures
        r is Ok,
        r->Ok_0.wf(),
        r->Ok_0.spec_timestamp() == conn_log.timestamp,
        r->Ok_0.spec_edges() == inbound_edges(*conn_log),
        forall|i: int|
            0 <= i < 8 ==> crate::graph::has_key(
                r->Ok_0.spec_nodes(),
                #[trigger] inbound_nodes(*conn_log)[i].key_view(),
            ),
        r->Ok_0.spec_nodes() == without_repeats(inbound_nodes(*conn_log)),
        conn_log.source_ip@ != conn_log.destination_ip@ ==> r->Ok_0.spec_nodes() == inbound_nodes(
            *conn_log,
        ),
{
    let ghost e = *conn_log;
    let ghost want = inbound_nodes(e);
    let ghost distinct = e.source_ip@ != e.destination_ip@;
    let mut pending = build_inbound_nodes(conn_log)?;
    let asset_key = pending[0].clone_node_key();
    let process_key = pending[1].clone_node_key();
    let inbound_key = pending[2].clone_node_key();
    let src_ip_key = pending[3].clone_node_key();
    let src_port_key = pending[5].clone_node_key();
    let dst_port_key = pending[6].clone_node_key();
    let connection_key = pending[7].clone_node_key();

    proof {
        lemma_inbound_identities_consistent(e);
        if distinct {
            lemma_inbound_identities_distinct(e);
        }
    }
    let mut graph = Graph::new(conn_log.timestamp);
    let mut i: usize = 0;
    while i < 8
        invariant
            i <= 8,
            want == inbound_nodes(e),
            want.len() == 8,
            distinct == (e.source_ip@ != e.destination_ip@),
            graph.wf(),
            graph.spec_timestamp() == e.timestamp,
            graph.spec_edges() == Seq::<(Seq<char>, KeyView, KeyView)>::empty(),
            pending@ == want.skip(i as int),
            drawn_from(graph.spec_nodes(), want),
            forall|j: int| 0 <= j < i ==> crate::graph::has_key(graph.spec_nodes(), #[trigger] want[j].key_view()),
            distinct ==> graph.spec_nodes() == want.take(i as int),
            graph.spec_nodes() == without_repeats(want.take(i as int)),
            forall|a: Node, b: Node|
                want.contains(a) && want.contains(b) && a.key_view() == b.key_view()
                    ==> #[trigger] a.same_content(&b),
            distinct ==> forall|j: int, k: int|
                0 <= j < 8 && 0 <= k < 8 && j != k ==> #[trigger] want[j].key_view()
                    != #[trigger] want[k].key_view(),
        decreases 8 - i,
    {
        let node = pending.remove(0);
        assert(node == want[i as int]);
        assert(want.contains(want[i as int]));
        proof {
            if distinct {
                if crate::graph::has_key(graph.spec_nodes(), node.key_view()) {
                    let a = choose|a: int|
                        0 <= a < graph.spec_nodes().len() && #[trigger] graph.spec_nodes()[a].key_view()
                            == node.key_view();
                    assert(graph.spec_nodes()[a] == want[a]);
                }
            }
        }
        assert(want.take(i + 1).drop_last() =~= want.take(i as int));
        assert(want.take(i + 1).last() == want[i as int]);
        insert_drawn(&mut graph, node, Ghost(want))?;
        i = i + 1;
        assert(pending@ =~= want.skip(i as int));
        assert(distinct ==> graph.spec_nodes() =~= want.take(i as int));
    }
    assert(distinct ==> graph.spec_nodes() =~= want);
    assert(want.take(8) =~= want);
    assert(asset_key@ == want[0].key_view() && process_key@ == want[1].key_view());

    link(&mut graph, "asset_ip", &asset_key, &src_ip_key)?;
    link(&mut graph, "asset_processes", &asset_key, &process_key)?;
    link(&mut graph, "created_connections", &process_key, &inbound_key)?;
    link(&mut graph, "connected_over", &inbound_key, &src_port_key)?;
    link(&mut graph, "connected_to", &inbound_key, &dst_port_key)?;
    link(&mut graph, "outbound_connection_to", &src_port_key, &connection_key)?;
    link(&mut graph, "inbound_connection_to", &connection_key, &dst_port_key)?;
    assert(graph.spec_edges() =~= inbound_edges(e));
    Ok(graph)
}

} // verus!
