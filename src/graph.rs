//! Nodes, identities, edges and the graph fragment that holds them.
use vstd::prelude::*;

verus! {

/// Lifecycle of a process.
#[derive(Clone, Copy, Debug, PartialEq, Eq, Structural)]
pub enum ProcessState {
    Existing,
    Terminated,
}

/// Lifecycle of a file.
#[derive(Clone, Copy, Debug, PartialEq, Eq, Structural)]
pub enum FileState {
    Created,
    Deleted,
    Existing,
}

/// Lifecycle of a connection between two ports.
#[derive(Clone, Copy, Debug, PartialEq, Eq, Structural)]
pub enum NetworkConnectionState {
    Created,
    Closed,
}

/// Lifecycle of a port that a process listens on.
#[derive(Clone, Copy, Debug, PartialEq, Eq, Structural)]
pub enum InboundConnectionState {
    Bound,
    Closed,
}

/// The identity of a node: exactly its identifying fields, tagged by kind.
#[derive(Debug, PartialEq, Eq)]
pub enum NodeKey {
    Process { hostname: String, process_id: u64 },
    File { hostname: String, path: String },
    Asset { asset_id: String },
    IpAddress { ip_address: String },
    IpPort { ip_address: String, port: u16, protocol: String },
    NetworkConnection { src_ip_address: String, src_port: u16, dst_ip_address: String, dst_port: u16 },
    InboundConnection { hostname: String, ip_address: String, port: u16, protocol: String },
}

/// The mathematical value of a `NodeKey`.
pub enum KeyView {
    Process { hostname: Seq<char>, process_id: u64 },
    File { hostname: Seq<char>, path: Seq<char> },
    Asset { asset_id: Seq<char> },
    IpAddress { ip_address: Seq<char> },
    IpPort { ip_address: Seq<char>, port: u16, protocol: Seq<char> },
    NetworkConnection {
        src_ip_address: Seq<char>,
        src_port: u16,
        dst_ip_address: Seq<char>,
        dst_port: u16,
    },
    InboundConnection { hostname: Seq<char>, ip_address: Seq<char>, port: u16, protocol: Seq<char> },
}

impl View for NodeKey {
    type V = KeyView;

    open spec fn view(&self) -> KeyView {
        match self {
            NodeKey::Process { hostname, process_id } => KeyView::Process {
                hostname: hostname@,
                process_id: *process_id,
            },
            NodeKey::File { hostname, path } => KeyView::File { hostname: hostname@, path: path@ },
            NodeKey::Asset { asset_id } => KeyView::Asset { asset_id: asset_id@ },
            NodeKey::IpAddress { ip_address } => KeyView::IpAddress { ip_address: ip_address@ },
            NodeKey::IpPort { ip_address, port, protocol } => KeyView::IpPort {
                ip_address: ip_address@,
                port: *port,
                protocol: protocol@,
            },
            NodeKey::NetworkConnection { src_ip_address, src_port, dst_ip_address, dst_port } =>
                KeyView::NetworkConnection {
                src_ip_address: src_ip_address@,
                src_port: *src_port,
                dst_ip_address: dst_ip_address@,
                dst_port: *dst_port,
            },
            NodeKey::InboundConnection { hostname, ip_address, port, protocol } =>
                KeyView::InboundConnection {
                hostname: hostname@,
                ip_address: ip_address@,
                port: *port,
                protocol: protocol@,
            },
        }
    }
}

impl NodeKey {
    /// A fresh copy of this identity.
    pub fn clone_key(&self) -> (k: NodeKey)
        ensures
            k@ == self@,
    {
        match self {
            NodeKey::Process { hostname, process_id } => NodeKey::Process {
                hostname: hostname.clone(),
                process_id: *process_id,
            },
            NodeKey::File { hostname, path } => NodeKey::File {
                hostname: hostname.clone(),
                path: path.clone(),
            },
            NodeKey::Asset { asset_id } => NodeKey::Asset { asset_id: asset_id.clone() },
            NodeKey::IpAddress { ip_address } => NodeKey::IpAddress { ip_address: ip_address.clone() },
            NodeKey::IpPort { ip_address, port, protocol } => NodeKey::IpPort {
                ip_address: ip_address.clone(),
                port: *port,
                protocol: protocol.clone(),
            },
            NodeKey::NetworkConnection { src_ip_address, src_port, dst_ip_address, dst_port } =>
                NodeKey::NetworkConnection {
                src_ip_address: src_ip_address.clone(),
                src_port: *src_port,
                dst_ip_address: dst_ip_address.clone(),
                dst_port: *dst_port,
            },
            NodeKey::InboundConnection { hostname, ip_address, port, protocol } =>
                NodeKey::InboundConnection {
                hostname: hostname.clone(),
                ip_address: ip_address.clone(),
                port: *port,
                protocol: protocol.clone(),
            },
        }
    }

    /// Whether two keys name the same entity.
    pub fn same_as(&self, other: &NodeKey) -> (r: bool)
        ensures
            r == (self@ == other@),
    {
        match (self, other) {
            (
                NodeKey::Process { hostname: h1, process_id: p1 },
                NodeKey::Process { hostname: h2, process_id: p2 },
            ) => *h1 == *h2 && *p1 == *p2,
            (NodeKey::File { hostname: h1, path: p1 }, NodeKey::File { hostname: h2, path: p2 }) =>
                *h1 == *h2 && *p1 == *p2,
            (NodeKey::Asset { asset_id: a1 }, NodeKey::Asset { asset_id: a2 }) => *a1 == *a2,
            (NodeKey::IpAddress { ip_address: i1 }, NodeKey::IpAddress { ip_address: i2 }) =>
                *i1 == *i2,
            (
                NodeKey::IpPort { ip_address: i1, port: p1, protocol: t1 },
                NodeKey::IpPort { ip_address: i2, port: p2, protocol: t2 },
            ) => *i1 == *i2 && *p1 == *p2 && *t1 == *t2,
            (
                NodeKey::NetworkConnection {
                    src_ip_address: s1,
                    src_port: sp1,
                    dst_ip_address: d1,
                    dst_port: dp1,
                },
                NodeKey::NetworkConnection {
                    src_ip_address: s2,
                    src_port: sp2,
                    dst_ip_address: d2,
                    dst_port: dp2,
                },
            ) => *s1 == *s2 && *sp1 == *sp2 && *d1 == *d2 && *dp1 == *dp2,
            (
                NodeKey::InboundConnection { hostname: h1, ip_address: i1, port: p1, protocol: t1 },
                NodeKey::InboundConnection { hostname: h2, ip_address: i2, port: p2, protocol: t2 },
            ) => *h1 == *h2 && *i1 == *i2 && *p1 == *p2 && *t1 == *t2,
            _ => false,
        }
    }
}

#[derive(Debug, PartialEq, Eq)]
pub struct ProcessNode {
    pub hostname: String,
    pub process_id: u64,
    pub process_name: Option<String>,
    pub state: ProcessState,
    pub timestamp: u64,
}

#[derive(Debug, PartialEq, Eq)]
pub struct FileNode {
    pub hostname: String,
    pub path: String,
    pub state: FileState,
    pub timestamp: u64,
}

#[derive(Debug, PartialEq, Eq)]
pub struct AssetNode {
    pub asset_id: String,
    pub hostname: String,
}

#[derive(Debug, PartialEq, Eq)]
pub struct IpAddressNode {
    pub ip_address: String,
    pub timestamp: u64,
}

#[derive(Debug, PartialEq, Eq)]
pub struct IpPortNode {
    pub ip_address: String,
    pub port: u16,
    pub protocol: String,
}

#[derive(Debug, PartialEq, Eq)]
pub struct NetworkConnectionNode {
    pub src_ip_address: String,
    pub src_port: u16,
    pub dst_ip_address: String,
    pub dst_port: u16,
    pub state: NetworkConnectionState,
    pub timestamp: u64,
}

#[derive(Debug, PartialEq, Eq)]
pub struct InboundConnectionNode {
    pub hostname: String,
    pub ip_address: String,
    pub port: u16,
    pub protocol: String,
    pub state: InboundConnectionState,
    pub timestamp: u64,
}

/// The characters of an optional string.
pub open spec fn opt_view(o: Option<String>) -> Option<Seq<char>> {
    match o {
        Some(s) => Some(s@),
        None => None,
    }
}

fn same_opt(a: &Option<String>, b: &Option<String>) -> (r: bool)
    ensures
        r == (opt_view(*a) == opt_view(*b)),
{
    match (a, b) {
        (Some(x), Some(y)) => *x == *y,
        (None, None) => true,
        _ => false,
    }
}

/// A fully populated node of one of the known kinds.
#[derive(Debug, PartialEq, Eq)]
pub enum Node {
    Process(ProcessNode),
    File(FileNode),
    Asset(AssetNode),
    IpAddress(IpAddressNode),
    IpPort(IpPortNode),
    NetworkConnection(NetworkConnectionNode),
    InboundConnection(InboundConnectionNode),
}

impl Node {
    /// The identity of this node, derived from its identifying fields alone.
    pub open spec fn key_view(&self) -> KeyView {
        match self {
            Node::Process(n) => KeyView::Process { hostname: n.hostname@, process_id: n.process_id },
            Node::File(n) => KeyView::File { hostname: n.hostname@, path: n.path@ },
            Node::Asset(n) => KeyView::Asset { asset_id: n.asset_id@ },
            Node::IpAddress(n) => KeyView::IpAddress { ip_address: n.ip_address@ },
            Node::IpPort(n) => KeyView::IpPort {
                ip_address: n.ip_address@,
                port: n.port,
                protocol: n.protocol@,
            },
            Node::NetworkConnection(n) => KeyView::NetworkConnection {
                src_ip_address: n.src_ip_address@,
                src_port: n.src_port,
                dst_ip_address: n.dst_ip_address@,
                dst_port: n.dst_port,
            },
            Node::InboundConnection(n) => KeyView::InboundConnection {
                hostname: n.hostname@,
                ip_address: n.ip_address@,
                port: n.port,
                protocol: n.protocol@,
            },
        }
    }

    /// Two nodes agree on kind and on every field.
    pub open spec fn same_content(&self, other: &Node) -> bool {
        match (self, other) {
            (Node::Process(a), Node::Process(b)) => a.hostname@ == b.hostname@ && a.process_id
                == b.process_id && opt_view(a.process_name) == opt_view(b.process_name) && a.state == b.state
                && a.timestamp == b.timestamp,
            (Node::File(a), Node::File(b)) => a.hostname@ == b.hostname@ && a.path@ == b.path@
                && a.state == b.state && a.timestamp == b.timestamp,
            (Node::Asset(a), Node::Asset(b)) => a.asset_id@ == b.asset_id@ && a.hostname@
                == b.hostname@,
            (Node::IpAddress(a), Node::IpAddress(b)) => a.ip_address@ == b.ip_address@
                && a.timestamp == b.timestamp,
            (Node::IpPort(a), Node::IpPort(b)) => a.ip_address@ == b.ip_address@ && a.port
                == b.port && a.protocol@ == b.protocol@,
            (Node::NetworkConnection(a), Node::NetworkConnection(b)) => a.src_ip_address@
                == b.src_ip_address@ && a.src_port == b.src_port && a.dst_ip_address@
                == b.dst_ip_address@ && a.dst_port == b.dst_port && a.state == b.state
                && a.timestamp == b.timestamp,
            (Node::InboundConnection(a), Node::InboundConnection(b)) => a.hostname@
                == b.hostname@ && a.ip_address@ == b.ip_address@ && a.port == b.port
                && a.protocol@ == b.protocol@ && a.state == b.state && a.timestamp
                == b.timestamp,
            _ => false,
        }
    }

    /// A fresh copy of this node's identity.
    pub fn clone_node_key(&self) -> (k: NodeKey)
        ensures
            k@ == self.key_view(),
    {
        match self {
            Node::Process(n) => NodeKey::Process {
                hostname: n.hostname.clone(),
                process_id: n.process_id,
            },
            Node::File(n) => NodeKey::File { hostname: n.hostname.clone(), path: n.path.clone() },
            Node::Asset(n) => NodeKey::Asset { asset_id: n.asset_id.clone() },
            Node::IpAddress(n) => NodeKey::IpAddress { ip_address: n.ip_address.clone() },
            Node::IpPort(n) => NodeKey::IpPort {
                ip_address: n.ip_address.clone(),
                port: n.port,
                protocol: n.protocol.clone(),
            },
            Node::NetworkConnection(n) => NodeKey::NetworkConnection {
                src_ip_address: n.src_ip_address.clone(),
                src_port: n.src_port,
                dst_ip_address: n.dst_ip_address.clone(),
                dst_port: n.dst_port,
            },
            Node::InboundConnection(n) => NodeKey::InboundConnection {
                hostname: n.hostname.clone(),
                ip_address: n.ip_address.clone(),
                port: n.port,
                protocol: n.protocol.clone(),
            },
        }
    }

    /// Whether two nodes agree on kind and on every field.
    pub fn matches(&self, other: &Node) -> (r: bool)
        ensures
            r == self.same_content(other),
    {
        match (self, other) {
            (Node::Process(a), Node::Process(b)) => a.hostname == b.hostname && a.process_id
                == b.process_id && same_opt(&a.process_name, &b.process_name) && a.state == b.state
                && a.timestamp == b.timestamp,
            (Node::File(a), Node::File(b)) => a.hostname == b.hostname && a.path == b.path
                && a.state == b.state && a.timestamp == b.timestamp,
            (Node::Asset(a), Node::Asset(b)) => a.asset_id == b.asset_id && a.hostname
                == b.hostname,
            (Node::IpAddress(a), Node::IpAddress(b)) => a.ip_address == b.ip_address
                && a.timestamp == b.timestamp,
            (Node::IpPort(a), Node::IpPort(b)) => a.ip_address == b.ip_address && a.port
                == b.port && a.protocol == b.protocol,
            (Node::NetworkConnection(a), Node::NetworkConnection(b)) => a.src_ip_address
                == b.src_ip_address && a.src_port == b.src_port && a.dst_ip_address
                == b.dst_ip_address && a.dst_port == b.dst_port && a.state == b.state
                && a.timestamp == b.timestamp,
            (Node::InboundConnection(a), Node::InboundConnection(b)) => a.hostname
                == b.hostname && a.ip_address == b.ip_address && a.port == b.port
                && a.protocol == b.protocol && a.state == b.state && a.timestamp
                == b.timestamp,
            _ => false,
        }
    }
}

/// A directed, labelled relation between two identities.
#[derive(Debug, PartialEq, Eq)]
pub struct Edge {
    pub label: String,
    pub from: NodeKey,
    pub to: NodeKey,
}

impl View for Edge {
    type V = (Seq<char>, KeyView, KeyView);

    open spec fn view(&self) -> (Seq<char>, KeyView, KeyView) {
        (self.label@, self.from@, self.to@)
    }
}

/// Why a graph refused a node or an edge.
#[derive(Clone, Copy, Debug, PartialEq, Eq, Structural)]
pub enum GraphError {
    /// An edge names an identity that no node of the fragment has.
    MissingEndpoint,
    /// A node with this identity but other content is already present.
    ConflictingNode,
}

/// Some node of `nodes` has identity `k`.
pub open spec fn has_key(nodes: Seq<Node>, k: KeyView) -> bool {
    exists|i: int| 0 <= i < nodes.len() && #[trigger] nodes[i].key_view() == k
}

/// No two nodes of `nodes` share an identity.
pub open spec fn keys_unique(nodes: Seq<Node>) -> bool {
    forall|i: int, j: int|
        0 <= i < nodes.len() && 0 <= j < nodes.len() && i != j ==> #[trigger] nodes[i].key_view()
            != #[trigger] nodes[j].key_view()
}

/// `nodes` with every identity kept once, at its first occurrence.
pub open spec fn without_repeats(nodes: Seq<Node>) -> Seq<Node>
    decreases nodes.len(),
{
    if nodes.len() == 0 {
        nodes
    } else {
        let front = without_repeats(nodes.drop_last());
        if has_key(front, nodes.last().key_view()) {
            front
        } else {
            front.push(nodes.last())
        }
    }
}

/// The views of a sequence of edges.
pub open spec fn edge_views(edges: Seq<Edge>) -> Seq<(Seq<char>, KeyView, KeyView)> {
    edges.map_values(|e: Edge| e@)
}

/// A fragment: nodes with unique identities, edges between them, and the
/// time of the event it describes.
#[derive(Debug)]
pub struct Graph {
    nodes: Vec<Node>,
    edges: Vec<Edge>,
    timestamp: u64,
}

impl Graph {
    pub closed spec fn spec_nodes(&self) -> Seq<Node> {
        self.nodes@
    }

    pub closed spec fn spec_edges(&self) -> Seq<(Seq<char>, KeyView, KeyView)> {
        edge_views(self.edges@)
    }

    pub closed spec fn spec_timestamp(&self) -> u64 {
        self.timestamp
    }

    /// Identities are unique and every edge joins two present nodes.
    pub open spec fn wf(&self) -> bool {
        &&& keys_unique(self.spec_nodes())
        &&& forall|i: int|
            0 <= i < self.spec_edges().len() ==> has_key(self.spec_nodes(), #[trigger] self.spec_edges()[i].1)
                && has_key(self.spec_nodes(), self.spec_edges()[i].2)
    }

    pub fn new(timestamp: u64) -> (g: Graph)
        ensures
            g.wf(),
            g.spec_nodes() == Seq::<Node>::empty(),
            g.spec_edges() == Seq::<(Seq<char>, KeyView, KeyView)>::empty(),
            g.spec_timestamp() == timestamp,
    {
        let g = Graph { nodes: Vec::new(), edges: Vec::new(), timestamp };
        assert(g.spec_edges() =~= Seq::<(Seq<char>, KeyView, KeyView)>::empty());
        g
    }

    /// The position of the node with identity `k`, if any.
    fn position_of(&self, k: &NodeKey) -> (r: Option<usize>)
        ensures
            match r {
                Some(i) => i < self.nodes@.len() && self.nodes@[i as int].key_view() == k@,
                None => !has_key(self.nodes@, k@),
            },
    {
        let mut i: usize = 0;
        while i < self.nodes.len()
            invariant
                i <= self.nodes@.len(),
                forall|j: int| 0 <= j < i ==> #[trigger] self.nodes@[j].key_view() != k@,
            decreases self.nodes@.len() - i,
        {
            let key = self.nodes[i].clone_node_key();
            if key.same_as(k) {
                return Some(i);
            }
            i = i + 1;
        }
        None
    }

    /// Whether a node with identity `k` is present.
    pub fn contains(&self, k: &NodeKey) -> (r: bool)
        ensures
            r == has_key(self.spec_nodes(), k@),
    {
        self.position_of(k).is_some()
    }

    /// Adds `node`. A node whose identity is already present is accepted, and
    /// leaves the fragment as it was, only when its content is the same.
    pub fn add_node(&mut self, node: Node) -> (r: Result<(), GraphError>)
        requires
            old(self).wf(),
        ensures
            final(self).wf(),
            final(self).spec_edges() == old(self).spec_edges(),
            final(self).spec_timestamp() == old(self).spec_timestamp(),
            !has_key(old(self).spec_nodes(), node.key_view()) ==> r is Ok && final(self).spec_nodes()
                == old(self).spec_nodes().push(node),
            has_key(old(self).spec_nodes(), node.key_view()) ==> final(self).spec_nodes()
                == old(self).spec_nodes() && (r is Ok <==> forall|i: int|
                0 <= i < old(self).spec_nodes().len() && #[trigger] old(self).spec_nodes()[i].key_view()
                    == node.key_view() ==> old(self).spec_nodes()[i].same_content(&node)),
            r is Err ==> r == Err::<(), GraphError>(GraphError::ConflictingNode),
            has_key(final(self).spec_nodes(), node.key_view()),
            forall|k: KeyView| has_key(old(self).spec_nodes(), k) ==> has_key(final(self).spec_nodes(), k),
            final(self).spec_nodes() == old(self).spec_nodes() || final(self).spec_nodes() == old(
                self,
            ).spec_nodes().push(node),
    {
        let key = node.clone_node_key();
        match self.position_of(&key) {
            Some(i) => {
                if self.nodes[i].matches(&node) {
                    Ok(())
                } else {
                    Err(GraphError::ConflictingNode)
                }
            },
            None => {
                let ghost old_nodes = self.nodes@;
                self.nodes.push(node);
                assert forall|i: int| 0 <= i < self.spec_edges().len() implies has_key(
                    self.spec_nodes(),
                    #[trigger] self.spec_edges()[i].1,
                ) && has_key(self.spec_nodes(), self.spec_edges()[i].2) by {
                    assert(old(self).spec_edges()[i] == self.spec_edges()[i]);
                    assert(has_key(old_nodes, self.spec_edges()[i].1));
                    assert(has_key(old_nodes, self.spec_edges()[i].2));
                    let a = choose|a: int| 0 <= a < old_nodes.len() && #[trigger] old_nodes[a].key_view()
                        == self.spec_edges()[i].1;
                    let b = choose|b: int| 0 <= b < old_nodes.len() && #[trigger] old_nodes[b].key_view()
                        == self.spec_edges()[i].2;
                    assert(self.nodes@[a] == old_nodes[a]);
                    assert(self.nodes@[b] == old_nodes[b]);
                }
                assert(self.nodes@[old_nodes.len() as int].key_view() == key@);
                assert forall|k: KeyView| has_key(old_nodes, k) implies has_key(self.spec_nodes(), k) by {
                    let a = choose|a: int| 0 <= a < old_nodes.len() && #[trigger] old_nodes[a].key_view() == k;
                    assert(self.nodes@[a] == old_nodes[a]);
                }
                Ok(())
            },
        }
    }

    /// Adds the edge `(label, from, to)`; both endpoints must already be present.
    pub fn add_edge(&mut self, label: String, from: NodeKey, to: NodeKey) -> (r: Result<(), GraphError>)
        requires
            old(self).wf(),
        ensures
            final(self).wf(),
            final(self).spec_nodes() == old(self).spec_nodes(),
            final(self).spec_timestamp() == old(self).spec_timestamp(),
            r is Ok <==> has_key(old(self).spec_nodes(), from@) && has_key(old(self).spec_nodes(), to@),
            r is Ok ==> final(self).spec_edges() == old(self).spec_edges().push((label@, from@, to@)),
            r is Err ==> final(self).spec_edges() == old(self).spec_edges() && r == Err::<(), GraphError>(
                GraphError::MissingEndpoint,
            ),
    {
        if self.contains(&from) && self.contains(&to) {
            let ghost old_edges = self.edges@;
            let e = Edge { label, from, to };
            let ghost ev = e@;
            self.edges.push(e);
            assert(self.spec_edges() =~= edge_views(old_edges).push(ev));
            assert forall|i: int| 0 <= i < self.spec_edges().len() implies has_key(
                self.spec_nodes(),
                #[trigger] self.spec_edges()[i].1,
            ) && has_key(self.spec_nodes(), self.spec_edges()[i].2) by {
                if i < old_edges.len() {
                    assert(old(self).spec_edges()[i] == self.spec_edges()[i]);
                }
            }
            Ok(())
        } else {
            Err(GraphError::MissingEndpoint)
        }
    }

    pub fn nodes(&self) -> (r: &Vec<Node>)
        ensures
            r@ == self.spec_nodes(),
    {
        &self.nodes
    }

    pub fn edges(&self) -> (r: &Vec<Edge>)
        ensures
            edge_views(r@) == self.spec_edges(),
    {
        &self.edges
    }

    pub fn timestamp(&self) -> (r: u64)
        ensures
            r == self.spec_timestamp(),
    {
        self.timestamp
    }
}

} // verus!
