use vstd::prelude::*;

use crate::error::{ClientError, RemoteStatus};
use crate::model::{EdgeDirection, EdgePropertyQuery, EdgeQuery, VertexPropertyQuery, VertexQuery};
use crate::wire::{
    WireEdge, WireEdgeKey, WireEdgeProperties, WireEdgeProperty, WireVertex,
    WireVertexProperties, WireVertexProperty,
};

verus! {

/// The operation a request asks the remote peer to perform.
#[derive(Debug, PartialEq, Eq)]
pub enum RequestVariant {
    CreateVertex(WireVertex),
    CreateVertexFromType(String),
    GetVertices(VertexQuery),
    DeleteVertices(VertexQuery),
    GetVertexCount,
    CreateEdge(WireEdgeKey),
    GetEdges(EdgeQuery),
    DeleteEdges(EdgeQuery),
    GetEdgeCount { id: Vec<u8>, t: Option<String>, direction: EdgeDirection },
    GetVertexProperties(VertexPropertyQuery),
    SetVertexProperties(VertexPropertyQuery, String),
    DeleteVertexProperties(VertexPropertyQuery),
    GetEdgeProperties(EdgePropertyQuery),
    SetEdgeProperties(EdgePropertyQuery, String),
    DeleteEdgeProperties(EdgePropertyQuery),
    GetAllVertexProperties(VertexQuery),
    GetAllEdgeProperties(EdgeQuery),
}

/// A request tagged with its call identifier.
#[derive(Debug, PartialEq, Eq)]
pub struct TransactionRequest {
    pub request_id: u32,
    pub request: RequestVariant,
}

/// The payload of one reply. `Empty` ends a multi-value reply.
#[derive(Debug, Clone, PartialEq, Eq)]
pub enum ResponseVariant {
    Empty,
    Bool(bool),
    Id(Vec<u8>),
    Count(u64),
    Vertex(WireVertex),
    Edge(WireEdge),
    VertexProperty(WireVertexProperty),
    VertexProperties(WireVertexProperties),
    EdgeProperty(WireEdgeProperty),
    EdgeProperties(WireEdgeProperties),
}

/// A reply tagged with the call identifier it answers; the body may be absent.
#[derive(Debug, Clone, PartialEq, Eq)]
pub struct TransactionResponse {
    pub request_id: u32,
    pub response: Option<ResponseVariant>,
}

/// What reading the inbound stream once gives.
#[derive(Debug, Clone)]
pub enum Inbound {
    /// A reply arrived.
    Message(TransactionResponse),
    /// The stream ended.
    Ended,
    /// The stream failed with a status from the remote peer.
    Failed(RemoteStatus),
}

} // verus!
