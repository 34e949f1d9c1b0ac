use vstd::prelude::*;

use crate::error::ConversionError;
use crate::model::{
    Edge, EdgeKey, EdgeProperties, EdgeProperty, NamedProperty, Vertex, VertexProperties,
    VertexProperty,
};

verus! {

/// The number that a sequence of bytes spells, most significant byte first.
pub open spec fn be_value(s: Seq<u8>) -> int
    decreases s.len(),
{
    if s.len() == 0 {
        0
    } else {
        be_value(s.drop_last()) * 256 + s.last()
    }
}

/// What a UUID on the wire decodes to: sixteen bytes give their number, any
/// other length is refused.
pub open spec fn uuid_of(b: Seq<u8>) -> Result<u128, ConversionError> {
    if b.len() == 16 {
        Ok(be_value(b) as u128)
    } else {
        Err(ConversionError::InvalidUuid { len: b.len() as usize })
    }
}

/// Relies on uuid::Uuid::from_u128 and Uuid::as_bytes: the sixteen bytes of
/// the number, most significant first.
#[verifier::external_body]
fn uuid_bytes(id: u128) -> (r: Vec<u8>)
    ensures
        r@.len() == 16,
        be_value(r@) == id as int,
{
    uuid::Uuid::from_u128(id).as_bytes().to_vec()
}

/// Relies on uuid::Uuid::from_slice and Uuid::as_u128: a slice of exactly
/// sixteen bytes is read most significant first, any other length is refused.
#[verifier::external_body]
fn uuid_from_slice(b: &Vec<u8>) -> (r: Option<u128>)
    ensures
        r is Some <==> b@.len() == 16,
        r matches Some(v) ==> v as int == be_value(b@),
{
    match uuid::Uuid::from_slice(b.as_slice()) {
        Ok(u) => Some(u.as_u128()),
        Err(_) => None,
    }
}

/// Encodes a vertex identifier for the wire.
pub fn encode_uuid(id: u128) -> (r: Vec<u8>)
    ensures
        uuid_of(r@) == Ok::<u128, ConversionError>(id),
{
    uuid_bytes(id)
}

/// Decodes a vertex identifier from the wire.
pub fn decode_uuid(b: &Vec<u8>) -> (r: Result<u128, ConversionError>)
    ensures
        r == uuid_of(b@),
{
    match uuid_from_slice(b) {
        Some(v) => Ok(v),
        None => Err(ConversionError::InvalidUuid { len: b.len() }),
    }
}

/// A vertex as it travels: its identifier as bytes.
#[derive(Debug, Clone, PartialEq, Eq)]
pub struct WireVertex {
    pub id: Vec<u8>,
    pub t: String,
}

/// An edge key as it travels.
#[derive(Debug, Clone, PartialEq, Eq)]
pub struct WireEdgeKey {
    pub outbound_id: Vec<u8>,
    pub t: String,
    pub inbound_id: Vec<u8>,
}

/// An edge as it travels.
#[derive(Debug, Clone, PartialEq, Eq)]
pub struct WireEdge {
    pub key: WireEdgeKey,
    pub created_datetime: i64,
}

/// A vertex property as it travels.
#[derive(Debug, Clone, PartialEq, Eq)]
pub struct WireVertexProperty {
    pub id: Vec<u8>,
    pub value: String,
}

/// A vertex with its properties as it travels.
#[derive(Debug, Clone, PartialEq, Eq)]
pub struct WireVertexProperties {
    pub vertex: WireVertex,
    pub props: Vec<NamedProperty>,
}

/// An edge property as it travels.
#[derive(Debug, Clone, PartialEq, Eq)]
pub struct WireEdgeProperty {
    pub key: WireEdgeKey,
    pub value: String,
}

/// An edge with its properties as it travels.
#[derive(Debug, Clone, PartialEq, Eq)]
pub struct WireEdgeProperties {
    pub edge: WireEdge,
    pub props: Vec<NamedProperty>,
}

pub open spec fn vertex_of(w: WireVertex) -> Result<Vertex, ConversionError> {
    match uuid_of(w.id@) {
        Ok(id) => Ok(Vertex { id, t: w.t }),
        Err(e) => Err(e),
    }
}

pub open spec fn edge_key_of(w: WireEdgeKey) -> Result<EdgeKey, ConversionError> {
    match (uuid_of(w.outbound_id@), uuid_of(w.inbound_id@)) {
        (Ok(o), Ok(i)) => Ok(EdgeKey { outbound_id: o, t: w.t, inbound_id: i }),
        (Err(e), _) => Err(e),
        (_, Err(e)) => Err(e),
    }
}

pub open spec fn edge_of(w: WireEdge) -> Result<Edge, ConversionError> {
    match edge_key_of(w.key) {
        Ok(key) => Ok(Edge { key, created_datetime: w.created_datetime }),
        Err(e) => Err(e),
    }
}

pub open spec fn vertex_property_of(w: WireVertexProperty) -> Result<VertexProperty, ConversionError> {
    match uuid_of(w.id@) {
        Ok(id) => Ok(VertexProperty { id, value: w.value }),
        Err(e) => Err(e),
    }
}

pub open spec fn vertex_properties_of(w: WireVertexProperties) -> Result<VertexProperties, ConversionError> {
    match vertex_of(w.vertex) {
        Ok(vertex) => Ok(VertexProperties { vertex, props: w.props }),
        Err(e) => Err(e),
    }
}

pub open spec fn edge_property_of(w: WireEdgeProperty) -> Result<EdgeProperty, ConversionError> {
    match edge_key_of(w.key) {
        Ok(key) => Ok(EdgeProperty { key, value: w.value }),
        Err(e) => Err(e),
    }
}

pub open spec fn edge_properties_of(w: WireEdgeProperties) -> Result<EdgeProperties, ConversionError> {
    match edge_of(w.edge) {
        Ok(edge) => Ok(EdgeProperties { edge, props: w.props }),
        Err(e) => Err(e),
    }
}

/// Encodes a vertex for the wire.
pub fn encode_vertex(v: &Vertex) -> (w: WireVertex)
    ensures
        vertex_of(w) == Ok::<Vertex, ConversionError>(*v),
{
    WireVertex { id: encode_uuid(v.id), t: v.t.clone() }
}

/// Encodes an edge key for the wire.
pub fn encode_edge_key(k: &EdgeKey) -> (w: WireEdgeKey)
    ensures
        edge_key_of(w) == Ok::<EdgeKey, ConversionError>(*k),
{
    WireEdgeKey {
        outbound_id: encode_uuid(k.outbound_id),
        t: k.t.clone(),
        inbound_id: encode_uuid(k.inbound_id),
    }
}

/// Decodes a vertex from the wire.
pub fn decode_vertex(w: WireVertex) -> (r: Result<Vertex, ConversionError>)
    ensures
        r == vertex_of(w),
{
    let id = decode_uuid(&w.id)?;
    Ok(Vertex { id, t: w.t })
}

/// Decodes an edge key from the wire.
pub fn decode_edge_key(w: WireEdgeKey) -> (r: Result<EdgeKey, ConversionError>)
    ensures
        r == edge_key_of(w),
{
    let outbound_id = decode_uuid(&w.outbound_id)?;
    let inbound_id = decode_uuid(&w.inbound_id)?;
    Ok(EdgeKey { outbound_id, t: w.t, inbound_id })
}

/// Decodes an edge from the wire.
pub fn decode_edge(w: WireEdge) -> (r: Result<Edge, ConversionError>)
    ensures
        r == edge_of(w),
{
    let key = decode_edge_key(w.key)?;
    Ok(Edge { key, created_datetime: w.created_datetime })
}

/// Decodes a vertex property from the wire.
pub fn decode_vertex_property(w: WireVertexProperty) -> (r: Result<VertexProperty, ConversionError>)
    ensures
        r == vertex_property_of(w),
{
    let id = decode_uuid(&w.id)?;
    Ok(VertexProperty { id, value: w.value })
}

/// Decodes a vertex with its properties from the wire.
pub fn decode_vertex_properties(w: WireVertexProperties) -> (r: Result<VertexProperties, ConversionError>)
    ensures
        r == vertex_properties_of(w),
{
    let vertex = decode_vertex(w.vertex)?;
    Ok(VertexProperties { vertex, props: w.props })
}

/// Decodes an edge property from the wire.
pub fn decode_edge_property(w: WireEdgeProperty) -> (r: Result<EdgeProperty, ConversionError>)
    ensures
        r == edge_property_of(w),
{
    let key = decode_edge_key(w.key)?;
    Ok(EdgeProperty { key, value: w.value })
}

/// Decodes an edge with its properties from the wire.
pub fn decode_edge_properties(w: WireEdgeProperties) -> (r: Result<EdgeProperties, ConversionError>)
    ensures
        r == edge_properties_of(w),
{
    let edge = decode_edge(w.edge)?;
    Ok(EdgeProperties { edge, props: w.props })
}

} // verus!
