//! One staged builder per node kind. Setters never fail; `build` yields a
//! complete node or names every required field that was left unset.
use vstd::prelude::*;
use crate::graph::{
    FileNode, FileState, InboundConnectionNode, InboundConnectionState, AssetNode, IpAddressNode,
    IpPortNode, NetworkConnectionNode, NetworkConnectionState, Node, ProcessNode, ProcessState,
};

verus! {

/// A field of a node.
#[derive(Clone, Copy, Debug, PartialEq, Eq, Structural)]
pub enum Field {
    Hostname,
    ProcessId,
    ProcessName,
    State,
    Timestamp,
    Path,
    AssetId,
    IpAddress,
    Port,
    Protocol,
    SrcIpAddress,
    SrcPort,
    DstIpAddress,
    DstPort,
}

/// The required fields that were unset when `build` was called, in the
/// order in which the kind declares them.
#[derive(Debug, PartialEq, Eq)]
pub struct ValidationError {
    pub missing: Vec<Field>,
}

/// `f` when `unset`, nothing otherwise.
pub open spec fn missing_if(unset: bool, f: Field) -> Seq<Field> {
    if unset {
        seq![f]
    } else {
        Seq::empty()
    }
}

fn note_missing(missing: &mut Vec<Field>, unset: bool, f: Field)
    ensures
        final(missing)@ == old(missing)@ + missing_if(unset, f),
{
    if unset {
        missing.push(f);
    }
    assert(final(missing)@ =~= old(missing)@ + missing_if(unset, f));
}

/// Collects the fields of a process node.
pub struct ProcessBuilder {
    pub hostname: Option<String>,
    pub process_id: Option<u64>,
    pub process_name: Option<String>,
    pub state: Option<ProcessState>,
    pub timestamp: Option<u64>,
}


/// The required fields of a process node that `b` leaves unset.
pub open spec fn missing_process_fields(b: ProcessBuilder) -> Seq<Field> {
    Seq::empty()
        + missing_if(b.hostname is None, Field::Hostname)
        + missing_if(b.process_id is None, Field::ProcessId)
        + missing_if(b.state is None, Field::State)
        + missing_if(b.timestamp is None, Field::Timestamp)
}

impl ProcessBuilder {
    pub fn new() -> (b: ProcessBuilder)
        ensures
            b.hostname is None,
            b.process_id is None,
            b.process_name is None,
            b.state is None,
            b.timestamp is None,
    {
        ProcessBuilder {
            hostname: None,
            process_id: None,
            process_name: None,
            state: None,
            timestamp: None,
        }
    }

    pub fn hostname(self, v: String) -> (b: ProcessBuilder)
        ensures
            b == (ProcessBuilder { hostname: Some(v), ..self }),
    {
        ProcessBuilder { hostname: Some(v), ..self }
    }

    pub fn process_id(self, v: u64) -> (b: ProcessBuilder)
        ensures
            b == (ProcessBuilder { process_id: Some(v), ..self }),
    {
        ProcessBuilder { process_id: Some(v), ..self }
    }

    pub fn process_name(self, v: String) -> (b: ProcessBuilder)
        ensures
            b == (ProcessBuilder { process_name: Some(v), ..self }),
    {
        ProcessBuilder { process_name: Some(v), ..self }
    }

    pub fn state(self, v: ProcessState) -> (b: ProcessBuilder)
        ensures
            b == (ProcessBuilder { state: Some(v), ..self }),
    {
        ProcessBuilder { state: Some(v), ..self }
    }

    pub fn timestamp(self, v: u64) -> (b: ProcessBuilder)
        ensures
            b == (ProcessBuilder { timestamp: Some(v), ..self }),
    {
        ProcessBuilder { timestamp: Some(v), ..self }
    }

    /// The node, when every required field is set.
    pub fn build(self) -> (r: Result<Node, ValidationError>)
        ensures
            r is Ok <==> missing_process_fields(self).len() == 0,
            r is Ok ==> r->Ok_0 == Node::Process(
                ProcessNode {
                    hostname: self.hostname->Some_0,
                    process_id: self.process_id->Some_0,
                    process_name: self.process_name,
                    state: self.state->Some_0,
                    timestamp: self.timestamp->Some_0,
                },
            ),
            r is Err ==> (r->Err_0).missing@ == missing_process_fields(self),
    {
        let ghost b = self;
        let process_name = self.process_name;
        match (self.hostname, self.process_id, self.state, self.timestamp) {
            (Some(hostname), Some(process_id), Some(state), Some(timestamp)) => Ok(
                Node::Process(ProcessNode {
                    hostname,
                    process_id,
                    process_name,
                    state,
                    timestamp,
                }),
            ),
            (hostname, process_id, state, timestamp) => {
                let mut missing: Vec<Field> = Vec::new();
                note_missing(&mut missing, hostname.is_none(), Field::Hostname);
                note_missing(&mut missing, process_id.is_none(), Field::ProcessId);
                note_missing(&mut missing, state.is_none(), Field::State);
                note_missing(&mut missing, timestamp.is_none(), Field::Timestamp);
                assert(missing@ =~= missing_process_fields(b));
                Err(ValidationError { missing })
            },
        }
    }
}

/// Collects the fields of a file node.
pub struct FileBuilder {
    pub hostname: Option<String>,
    pub path: Option<String>,
    pub state: Option<FileState>,
    pub timestamp: Option<u64>,
}


/// The required fields of a file node that `b` leaves unset.
pub open spec fn missing_file_fields(b: FileBuilder) -> Seq<Field> {
    Seq::empty()
        + missing_if(b.hostname is None, Field::Hostname)
        + missing_if(b.path is None, Field::Path)
        + missing_if(b.state is None, Field::State)
        + missing_if(b.timestamp is None, Field::Timestamp)
}

impl FileBuilder {
    pub fn new() -> (b: FileBuilder)
        ensures
            b.hostname is None,
            b.path is None,
            b.state is None,
            b.timestamp is None,
    {
        FileBuilder { hostname: None, path: None, state: None, timestamp: None }
    }

    pub fn hostname(self, v: String) -> (b: FileBuilder)
        ensures
            b == (FileBuilder { hostname: Some(v), ..self }),
    {
        FileBuilder { hostname: Some(v), ..self }
    }

    pub fn path(self, v: String) -> (b: FileBuilder)
        ensures
            b == (FileBuilder { path: Some(v), ..self }),
    {
        FileBuilder { path: Some(v), ..self }
    }

    pub fn state(self, v: FileState) -> (b: FileBuilder)
        ensures
            b == (FileBuilder { state: Some(v), ..self }),
    {
        FileBuilder { state: Some(v), ..self }
    }

    pub fn timestamp(self, v: u64) -> (b: FileBuilder)
        ensures
            b == (FileBuilder { timestamp: Some(v), ..self }),
    {
        FileBuilder { timestamp: Some(v), ..self }
    }

    /// The node, when every required field is set.
    pub fn build(self) -> (r: Result<Node, ValidationError>)
        ensures
            r is Ok <==> missing_file_fields(self).len() == 0,
            r is Ok ==> r->Ok_0 == Node::File(
                FileNode {
                    hostname: self.hostname->Some_0,
                    path: self.path->Some_0,
                    state: self.state->Some_0,
                    timestamp: self.timestamp->Some_0,
                },
            ),
            r is Err ==> (r->Err_0).missing@ == missing_file_fields(self),
    {
        let ghost b = self;
        match (self.hostname, self.path, self.state, self.timestamp) {
            (Some(hostname), Some(path), Some(state), Some(timestamp)) => Ok(
                Node::File(FileNode {
                    hostname,
                    path,
                    state,
                    timestamp,
                }),
            ),
            (hostname, path, state, timestamp) => {
                let mut missing: Vec<Field> = Vec::new();
                note_missing(&mut missing, hostname.is_none(), Field::Hostname);
                note_missing(&mut missing, path.is_none(), Field::Path);
                note_missing(&mut missing, state.is_none(), Field::State);
                note_missing(&mut missing, timestamp.is_none(), Field::Timestamp);
                assert(missing@ =~= missing_file_fields(b));
                Err(ValidationError { missing })
            },
        }
    }
}

/// Collects the fields of an asset node.
pub struct AssetBuilder {
    pub asset_id: Option<String>,
    pub hostname: Option<String>,
}


/// The required fields of an asset node that `b` leaves unset.
pub open spec fn missing_asset_fields(b: AssetBuilder) -> Seq<Field> {
    Seq::empty()
        + missing_if(b.asset_id is None, Field::AssetId)
        + missing_if(b.hostname is None, Field::Hostname)
}

impl AssetBuilder {
    pub fn new() -> (b: AssetBuilder)
        ensures
            b.asset_id is None,
            b.hostname is None,
    {
        AssetBuilder { asset_id: None, hostname: None }
    }

    pub fn asset_id(self, v: String) -> (b: AssetBuilder)
        ensures
            b == (AssetBuilder { asset_id: Some(v), ..self }),
    {
        AssetBuilder { asset_id: Some(v), ..self }
    }

    pub fn hostname(self, v: String) -> (b: AssetBuilder)
        ensures
            b == (AssetBuilder { hostname: Some(v), ..self }),
    {
        AssetBuilder { hostname: Some(v), ..self }
    }

    /// The node, when every required field is set.
    pub fn build(self) -> (r: Result<Node, ValidationError>)
        ensures
            r is Ok <==> missing_asset_fields(self).len() == 0,
            r is Ok ==> r->Ok_0 == Node::Asset(
                AssetNode {
                    asset_id: self.asset_id->Some_0,
                    hostname: self.hostname->Some_0,
                },
            ),
            r is Err ==> (r->Err_0).missing@ == missing_asset_fields(self),
    {
        let ghost b = self;
        match (self.asset_id, self.hostname) {
            (Some(asset_id), Some(hostname)) => Ok(
                Node::Asset(AssetNode {
                    asset_id,
                    hostname,
                }),
            ),
            (asset_id, hostname) => {
                let mut missing: Vec<Field> = Vec::new();
                note_missing(&mut missing, asset_id.is_none(), Field::AssetId);
                note_missing(&mut missing, hostname.is_none(), Field::Hostname);
                assert(missing@ =~= missing_asset_fields(b));
                Err(ValidationError { missing })
            },
        }
    }
}

/// Collects the fields of an IP address node.
pub struct IpAddressBuilder {
    pub ip_address: Option<String>,
    pub timestamp: Option<u64>,
}


/// The required fields of an IP address node that `b` leaves unset.
pub open spec fn missing_ip_address_fields(b: IpAddressBuilder) -> Seq<Field> {
    Seq::empty()
        + missing_if(b.ip_address is None, Field::IpAddress)
        + missing_if(b.timestamp is None, Field::Timestamp)
}

impl IpAddressBuilder {
    pub fn new() -> (b: IpAddressBuilder)
        ensures
            b.ip_address is None,
            b.timestamp is None,
    {
        IpAddressBuilder { ip_address: None, timestamp: None }
    }

    pub fn ip_address(self, v: String) -> (b: IpAddressBuilder)
        ensures
            b == (IpAddressBuilder { ip_address: Some(v), ..self }),
    {
        IpAddressBuilder { ip_address: Some(v), ..self }
    }

    pub fn timestamp(self, v: u64) -> (b: IpAddressBuilder)
        ensures
            b == (IpAddressBuilder { timestamp: Some(v), ..self }),
    {
        IpAddressBuilder { timestamp: Some(v), ..self }
    }

    /// The node, when every required field is set.
    pub fn build(self) -> (r: Result<Node, ValidationError>)
        ensures
            r is Ok <==> missing_ip_address_fields(self).len() == 0,
            r is Ok ==> r->Ok_0 == Node::IpAddress(
                IpAddressNode {
                    ip_address: self.ip_address->Some_0,
                    timestamp: self.timestamp->Some_0,
                },
            ),
            r is Err ==> (r->Err_0).missing@ == missing_ip_address_fields(self),
    {
        let ghost b = self;
        match (self.ip_address, self.timestamp) {
            (Some(ip_address), Some(timestamp)) => Ok(
                Node::IpAddress(IpAddressNode {
                    ip_address,
                    timestamp,
                }),
            ),
            (ip_address, timestamp) => {
                let mut missing: Vec<Field> = Vec::new();
                note_missing(&mut missing, ip_address.is_none(), Field::IpAddress);
                note_missing(&mut missing, timestamp.is_none(), Field::Timestamp);
                assert(missing@ =~= missing_ip_address_fields(b));
                Err(ValidationError { missing })
            },
        }
    }
}

/// Collects the fields of an IP port node.
pub struct IpPortBuilder {
    pub ip_address: Option<String>,
    pub port: Option<u16>,
    pub protocol: Option<String>,
}


/// The required fields of an IP port node that `b` leaves unset.
pub open spec fn missing_ip_port_fields(b: IpPortBuilder) -> Seq<Field> {
    Seq::empty()
        + missing_if(b.ip_address is None, Field::IpAddress)
        + missing_if(b.port is None, Field::Port)
        + missing_if(b.protocol is None, Field::Protocol)
}

impl IpPortBuilder {
    pub fn new() -> (b: IpPortBuilder)
        ensures
            b.ip_address is None,
            b.port is None,
            b.protocol is None,
    {
        IpPortBuilder { ip_address: None, port: None, protocol: None }
    }

    pub fn ip_address(self, v: String) -> (b: IpPortBuilder)
        ensures
            b == (IpPortBuilder { ip_address: Some(v), ..self }),
    {
        IpPortBuilder { ip_address: Some(v), ..self }
    }

    pub fn port(self, v: u16) -> (b: IpPortBuilder)
        ensures
            b == (IpPortBuilder { port: Some(v), ..self }),
    {
        IpPortBuilder { port: Some(v), ..self }
    }

    pub fn protocol(self, v: String) -> (b: IpPortBuilder)
        ensures
            b == (IpPortBuilder { protocol: Some(v), ..self }),
    {
        IpPortBuilder { protocol: Some(v), ..self }
    }

    /// The node, when every required field is set.
    pub fn build(self) -> (r: Result<Node, ValidationError>)
        ensures
            r is Ok <==> missing_ip_port_fields(self).len() == 0,
            r is Ok ==> r->Ok_0 == Node::IpPort(
                IpPortNode {
                    ip_address: self.ip_address->Some_0,
                    port: self.port->Some_0,
                    protocol: self.protocol->Some_0,
                },
            ),
            r is Err ==> (r->Err_0).missing@ == missing_ip_port_fields(self),
    {
        let ghost b = self;
        match (self.ip_address, self.port, self.protocol) {
            (Some(ip_address), Some(port), Some(protocol)) => Ok(
                Node::IpPort(IpPortNode {
                    ip_address,
                    port,
                    protocol,
                }),
            ),
            (ip_address, port, protocol) => {
                let mut missing: Vec<Field> = Vec::new();
                note_missing(&mut missing, ip_address.is_none(), Field::IpAddress);
                note_missing(&mut missing, port.is_none(), Field::Port);
                note_missing(&mut missing, protocol.is_none(), Field::Protocol);
                assert(missing@ =~= missing_ip_port_fields(b));
                Err(ValidationError { missing })
            },
        }
    }
}

/// Collects the fields of a network connection node.
pub struct NetworkConnectionBuilder {
    pub src_ip_address: Option<String>,
    pub src_port: Option<u16>,
    pub dst_ip_address: Option<String>,
    pub dst_port: Option<u16>,
    pub state: Option<NetworkConnectionState>,
    pub timestamp: Option<u64>,
}


/// The required fields of a network connection node that `b` leaves unset.
pub open spec fn missing_network_connection_fields(b: NetworkConnectionBuilder) -> Seq<Field> {
    Seq::empty()
        + missing_if(b.src_ip_address is None, Field::SrcIpAddress)
        + missing_if(b.src_port is None, Field::SrcPort)
        + missing_if(b.dst_ip_address is None, Field::DstIpAddress)
        + missing_if(b.dst_port is None, Field::DstPort)
        + missing_if(b.state is None, Field::State)
        + missing_if(b.timestamp is None, Field::Timestamp)
}

impl NetworkConnectionBuilder {
    pub fn new() -> (b: NetworkConnectionBuilder)
        ensures
            b.src_ip_address is None,
            b.src_port is None,
            b.dst_ip_address is None,
            b.dst_port is None,
            b.state is None,
            b.timestamp is None,
    {
        NetworkConnectionBuilder {
            src_ip_address: None,
            src_port: None,
            dst_ip_address: None,
            dst_port: None,
            state: None,
            timestamp: None,
        }
    }

    pub fn src_ip_address(self, v: String) -> (b: NetworkConnectionBuilder)
        ensures
            b == (NetworkConnectionBuilder { src_ip_address: Some(v), ..self }),
    {
        NetworkConnectionBuilder { src_ip_address: Some(v), ..self }
    }

    pub fn src_port(self, v: u16) -> (b: NetworkConnectionBuilder)
        ensures
            b == (NetworkConnectionBuilder { src_port: Some(v), ..self }),
    {
        NetworkConnectionBuilder { src_port: Some(v), ..self }
    }

    pub fn dst_ip_address(self, v: String) -> (b: NetworkConnectionBuilder)
        ensures
            b == (NetworkConnectionBuilder { dst_ip_address: Some(v), ..self }),
    {
        NetworkConnectionBuilder { dst_ip_address: Some(v), ..self }
    }

    pub fn dst_port(self, v: u16) -> (b: NetworkConnectionBuilder)
        ensures
            b == (NetworkConnectionBuilder { dst_port: Some(v), ..self }),
    {
        NetworkConnectionBuilder { dst_port: Some(v), ..self }
    }

    pub fn state(self, v: NetworkConnectionState) -> (b: NetworkConnectionBuilder)
        ensures
            b == (NetworkConnectionBuilder { state: Some(v), ..self }),
    {
        NetworkConnectionBuilder { state: Some(v), ..self }
    }

    pub fn timestamp(self, v: u64) -> (b: NetworkConnectionBuilder)
        ensures
            b == (NetworkConnectionBuilder { timestamp: Some(v), ..self }),
    {
        NetworkConnectionBuilder { timestamp: Some(v), ..self }
    }

    /// The node, when every required field is set.
    pub fn build(self) -> (r: Result<Node, ValidationError>)
        ensures
            r is Ok <==> missing_network_connection_fields(self).len() == 0,
            r is Ok ==> r->Ok_0 == Node::NetworkConnection(
                NetworkConnectionNode {
                    src_ip_address: self.src_ip_address->Some_0,
                    src_port: self.src_port->Some_0,
                    dst_ip_address: self.dst_ip_address->Some_0,
                    dst_port: self.dst_port->Some_0,
                    state: self.state->Some_0,
                    timestamp: self.timestamp->Some_0,
                },
            ),
            r is Err ==> (r->Err_0).missing@ == missing_network_connection_fields(self),
    {
        let ghost b = self;
        match (
            self.src_ip_address,
            self.src_port,
            self.dst_ip_address,
            self.dst_port,
            self.state,
            self.timestamp,
        ) {
            (
                Some(src_ip_address),
                Some(src_port),
                Some(dst_ip_address),
                Some(dst_port),
                Some(state),
                Some(timestamp),
            ) => Ok(
                Node::NetworkConnection(NetworkConnectionNode {
                    src_ip_address,
                    src_port,
                    dst_ip_address,
                    dst_port,
                    state,
                    timestamp,
                }),
            ),
            (src_ip_address, src_port, dst_ip_address, dst_port, state, timestamp) => {
                let mut missing: Vec<Field> = Vec::new();
                note_missing(&mut missing, src_ip_address.is_none(), Field::SrcIpAddress);
                note_missing(&mut missing, src_port.is_none(), Field::SrcPort);
                note_missing(&mut missing, dst_ip_address.is_none(), Field::DstIpAddress);
                note_missing(&mut missing, dst_port.is_none(), Field::DstPort);
                note_missing(&mut missing, state.is_none(), Field::State);
                note_missing(&mut missing, timestamp.is_none(), Field::Timestamp);
                assert(missing@ =~= missing_network_connection_fields(b));
                Err(ValidationError { missing })
            },
        }
    }
}

/// Collects the fields of an inbound connection node.
pub struct InboundConnectionBuilder {
    pub hostname: Option<String>,
    pub ip_address: Option<String>,
    pub port: Option<u16>,
    pub protocol: Option<String>,
    pub state: Option<InboundConnectionState>,
    pub timestamp: Option<u64>,
}


/// The required fields of an inbound connection node that `b` leaves unset.
pub open spec fn missing_inbound_connection_fields(b: InboundConnectionBuilder) -> Seq<Field> {
    Seq::empty()
        + missing_if(b.hostname is None, Field::Hostname)
        + missing_if(b.ip_address is None, Field::IpAddress)
        + missing_if(b.port is None, Field::Port)
        + missing_if(b.protocol is None, Field::Protocol)
        + missing_if(b.state is None, Field::State)
        + missing_if(b.timestamp is None, Field::Timestamp)
}

impl InboundConnectionBuilder {
    pub fn new() -> (b: InboundConnectionBuilder)
        ensures
            b.hostname is None,
            b.ip_address is None,
            b.port is None,
            b.protocol is None,
            b.state is None,
            b.timestamp is None,
    {
        InboundConnectionBuilder {
            hostname: None,
            ip_address: None,
            port: None,
            protocol: None,
            state: None,
            timestamp: None,
        }
    }

    pub fn hostname(self, v: String) -> (b: InboundConnectionBuilder)
        ensures
            b == (InboundConnectionBuilder { hostname: Some(v), ..self }),
    {
        InboundConnectionBuilder { hostname: Some(v), ..self }
    }

    pub fn ip_address(self, v: String) -> (b: InboundConnectionBuilder)
        ensures
            b == (InboundConnectionBuilder { ip_address: Some(v), ..self }),
    {
        InboundConnectionBuilder { ip_address: Some(v), ..self }
    }

    pub fn port(self, v: u16) -> (b: InboundConnectionBuilder)
        ensures
            b == (InboundConnectionBuilder { port: Some(v), ..self }),
    {
        InboundConnectionBuilder { port: Some(v), ..self }
    }

    pub fn protocol(self, v: String) -> (b: InboundConnectionBuilder)
        ensures
            b == (InboundConnectionBuilder { protocol: Some(v), ..self }),
    {
        InboundConnectionBuilder { protocol: Some(v), ..self }
    }

    pub fn state(self, v: InboundConnectionState) -> (b: InboundConnectionBuilder)
        ensures
            b == (InboundConnectionBuilder { state: Some(v), ..self }),
    {
        InboundConnectionBuilder { state: Some(v), ..self }
    }

    pub fn timestamp(self, v: u64) -> (b: InboundConnectionBuilder)
        ensures
            b == (InboundConnectionBuilder { timestamp: Some(v), ..self }),
    {
        InboundConnectionBuilder { timestamp: Some(v), ..self }
    }

    /// The node, when every required field is set.
    pub fn build(self) -> (r: Result<Node, ValidationError>)
        ensures
            r is Ok <==> missing_inbound_connection_fields(self).len() == 0,
            r is Ok ==> r->Ok_0 == Node::InboundConnection(
                InboundConnectionNode {
                    hostname: self.hostname->Some_0,
                    ip_address: self.ip_address->Some_0,
                    port: self.port->Some_0,
                    protocol: self.protocol->Some_0,
                    state: self.state->Some_0,
                    timestamp: self.timestamp->Some_0,
                },
            ),
            r is Err ==> (r->Err_0).missing@ == missing_inbound_connection_fields(self),
    {
        let ghost b = self;
        match (
            self.hostname,
            self.ip_address,
            self.port,
            self.protocol,
            self.state,
            self.timestamp,
        ) {
            (
                Some(hostname),
                Some(ip_address),
                Some(port),
                Some(protocol),
                Some(state),
                Some(timestamp),
            ) => Ok(
                Node::InboundConnection(InboundConnectionNode {
                    hostname,
                    ip_address,
                    port,
                    protocol,
                    state,
                    timestamp,
                }),
            ),
            (hostname, ip_address, port, protocol, state, timestamp) => {
                let mut missing: Vec<Field> = Vec::new();
                note_missing(&mut missing, hostname.is_none(), Field::Hostname);
                note_missing(&mut missing, ip_address.is_none(), Field::IpAddress);
                note_missing(&mut missing, port.is_none(), Field::Port);
                note_missing(&mut missing, protocol.is_none(), Field::Protocol);
                note_missing(&mut missing, state.is_none(), Field::State);
                note_missing(&mut missing, timestamp.is_none(), Field::Timestamp);
                assert(missing@ =~= missing_inbound_connection_fields(b));
                Err(ValidationError { missing })
            },
        }
    }
}

} // verus!
