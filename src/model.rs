use vstd::prelude::*;

verus! {

/// A vertex: its identifier (a UUID as a 128-bit number) and its type.
#[derive(Debug, Clone, PartialEq, Eq)]
pub struct Vertex {
    pub id: u128,
    pub t: String,
}

/// The key of an edge: the vertex it leaves, its type, the vertex it enters.
#[derive(Debug, Clone, PartialEq, Eq)]
pub struct EdgeKey {
    pub outbound_id: u128,
    pub t: String,
    pub inbound_id: u128,
}

/// An edge: its key and when it was created, in nanoseconds since the epoch.
#[derive(Debug, Clone, PartialEq, Eq)]
pub struct Edge {
    pub key: EdgeKey,
    pub created_datetime: i64,
}

/// A named property value, the value written as JSON text.
#[derive(Debug, Clone, PartialEq, Eq)]
pub struct NamedProperty {
    pub name: String,
    pub value: String,
}

/// One property of one vertex.
#[derive(Debug, Clone, PartialEq, Eq)]
pub struct VertexProperty {
    pub id: u128,
    pub value: String,
}

/// A vertex with all of its properties.
#[derive(Debug, Clone, PartialEq, Eq)]
pub struct VertexProperties {
    pub vertex: Vertex,
    pub props: Vec<NamedProperty>,
}

/// One property of one edge.
#[derive(Debug, Clone, PartialEq, Eq)]
pub struct EdgeProperty {
    pub key: EdgeKey,
    pub value: String,
}

/// An edge with all of its properties.
#[derive(Debug, Clone, PartialEq, Eq)]
pub struct EdgeProperties {
    pub edge: Edge,
    pub props: Vec<NamedProperty>,
}

/// Which end of an edge a query follows.
#[derive(Debug, Clone, Copy, PartialEq, Eq, Structural)]
pub enum EdgeDirection {
    Outbound,
    Inbound,
}

/// Selects vertices. The remote peer evaluates it.
#[derive(Debug, PartialEq, Eq)]
pub enum VertexQuery {
    Range { start_id: Option<u128>, limit: u32, t: Option<String> },
    Specific { ids: Vec<u128> },
    Pipe { inner: Box<EdgeQuery>, direction: EdgeDirection, limit: u32, t: Option<String> },
}

/// Selects edges. The remote peer evaluates it.
#[derive(Debug, PartialEq, Eq)]
pub enum EdgeQuery {
    Specific { keys: Vec<EdgeKey> },
    Pipe {
        inner: Box<VertexQuery>,
        direction: EdgeDirection,
        limit: u32,
        t: Option<String>,
        high: Option<i64>,
        low: Option<i64>,
    },
}

/// Selects one named property of the vertices a query selects.
#[derive(Debug, PartialEq, Eq)]
pub struct VertexPropertyQuery {
    pub inner: VertexQuery,
    pub name: String,
}

/// Selects one named property of the edges a query selects.
#[derive(Debug, PartialEq, Eq)]
pub struct EdgePropertyQuery {
    pub inner: EdgeQuery,
    pub name: String,
}

/// One record of a bulk load.
#[derive(Debug, Clone, PartialEq, Eq)]
pub enum BulkInsertItem {
    Vertex(Vertex),
    Edge(EdgeKey),
    VertexProperty(u128, String, String),
    EdgeProperty(EdgeKey, String, String),
}

} // verus!
