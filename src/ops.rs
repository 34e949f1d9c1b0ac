use vstd::prelude::*;

use crate::error::ConversionError;
use crate::messages::{RequestVariant, TransactionRequest};
use crate::model::{EdgeDirection, EdgeKey, EdgePropertyQuery, EdgeQuery, Vertex, VertexPropertyQuery, VertexQuery};
use crate::transaction::{ReplyShape, Transaction};
use crate::wire::{edge_key_of, encode_edge_key, encode_uuid, encode_vertex, uuid_of, vertex_of};

verus! {

impl Transaction {
    /// Starts creating a vertex. The reply tells whether it was created (`bool_from_reply`);
    /// it is not when a vertex with the same identifier exists.
    pub fn create_vertex(&mut self, vertex: &Vertex) -> (r: TransactionRequest)
        requires
            old(self).can_issue(),
        ensures
            Transaction::issued(*old(self), *final(self), r.request_id, ReplyShape::Single),
            r.request matches RequestVariant::CreateVertex(w) && vertex_of(w) == Ok::<Vertex, ConversionError>(*vertex),
    {
        self.request(RequestVariant::CreateVertex(encode_vertex(vertex)), ReplyShape::Single)
    }

    /// Starts creating a vertex of type `t` with an identifier the peer picks. The reply
    /// holds that identifier (`id_from_reply`).
    pub fn create_vertex_from_type(&mut self, t: String) -> (r: TransactionRequest)
        requires
            old(self).can_issue(),
        ensures
            Transaction::issued(*old(self), *final(self), r.request_id, ReplyShape::Single),
            r.request == RequestVariant::CreateVertexFromType(t),
    {
        self.request(RequestVariant::CreateVertexFromType(t), ReplyShape::Single)
    }

    /// Starts reading the vertices a query selects (`vertex_list_from_replies`).
    pub fn get_vertices(&mut self, q: VertexQuery) -> (r: TransactionRequest)
        requires
            old(self).can_issue(),
        ensures
            Transaction::issued(*old(self), *final(self), r.request_id, ReplyShape::Multi),
            r.request == RequestVariant::GetVertices(q),
    {
        self.request(RequestVariant::GetVertices(q), ReplyShape::Multi)
    }

    /// Starts deleting the vertices a query selects (`unit_from_reply`).
    pub fn delete_vertices(&mut self, q: VertexQuery) -> (r: TransactionRequest)
        requires
            old(self).can_issue(),
        ensures
            Transaction::issued(*old(self), *final(self), r.request_id, ReplyShape::Single),
            r.request == RequestVariant::DeleteVertices(q),
    {
        self.request(RequestVariant::DeleteVertices(q), ReplyShape::Single)
    }

    /// Starts counting the vertices of the store (`count_from_reply`).
    pub fn get_vertex_count(&mut self) -> (r: TransactionRequest)
        requires
            old(self).can_issue(),
        ensures
            Transaction::issued(*old(self), *final(self), r.request_id, ReplyShape::Single),
            r.request == RequestVariant::GetVertexCount,
    {
        self.request(RequestVariant::GetVertexCount, ReplyShape::Single)
    }

    /// Starts creating an edge. The reply tells whether it was created (`bool_from_reply`);
    /// it is not when one of its vertices is missing.
    pub fn create_edge(&mut self, key: &EdgeKey) -> (r: TransactionRequest)
        requires
            old(self).can_issue(),
        ensures
            Transaction::issued(*old(self), *final(self), r.request_id, ReplyShape::Single),
            r.request matches RequestVariant::CreateEdge(w) && edge_key_of(w) == Ok::<EdgeKey, ConversionError>(*key),
    {
        self.request(RequestVariant::CreateEdge(encode_edge_key(key)), ReplyShape::Single)
    }

    /// Starts reading the edges a query selects (`edge_list_from_replies`).
    pub fn get_edges(&mut self, q: EdgeQuery) -> (r: TransactionRequest)
        requires
            old(self).can_issue(),
        ensures
            Transaction::issued(*old(self), *final(self), r.request_id, ReplyShape::Multi),
            r.request == RequestVariant::GetEdges(q),
    {
        self.request(RequestVariant::GetEdges(q), ReplyShape::Multi)
    }

    /// Starts deleting the edges a query selects (`unit_from_reply`).
    pub fn delete_edges(&mut self, q: EdgeQuery) -> (r: TransactionRequest)
        requires
            old(self).can_issue(),
        ensures
            Transaction::issued(*old(self), *final(self), r.request_id, ReplyShape::Single),
            r.request == RequestVariant::DeleteEdges(q),
    {
        self.request(RequestVariant::DeleteEdges(q), ReplyShape::Single)
    }

    /// Starts reading vertex properties (`vertex_property_list_from_replies`).
    pub fn get_vertex_properties(&mut self, q: VertexPropertyQuery) -> (r: TransactionRequest)
        requires
            old(self).can_issue(),
        ensures
            Transaction::issued(*old(self), *final(self), r.request_id, ReplyShape::Multi),
            r.request == RequestVariant::GetVertexProperties(q),
    {
        self.request(RequestVariant::GetVertexProperties(q), ReplyShape::Multi)
    }

    /// Starts reading the selected vertices with all their properties
    /// (`vertex_properties_list_from_replies`).
    pub fn get_all_vertex_properties(&mut self, q: VertexQuery) -> (r: TransactionRequest)
        requires
            old(self).can_issue(),
        ensures
            Transaction::issued(*old(self), *final(self), r.request_id, ReplyShape::Multi),
            r.request == RequestVariant::GetAllVertexProperties(q),
    {
        self.request(RequestVariant::GetAllVertexProperties(q), ReplyShape::Multi)
    }

    /// Starts setting vertex properties to a JSON value (`unit_from_reply`).
    pub fn set_vertex_properties(&mut self, q: VertexPropertyQuery, value: &String) -> (r: TransactionRequest)
        requires
            old(self).can_issue(),
        ensures
            Transaction::issued(*old(self), *final(self), r.request_id, ReplyShape::Single),
            r.request == RequestVariant::SetVertexProperties(q, *value),
    {
        self.request(RequestVariant::SetVertexProperties(q, value.clone()), ReplyShape::Single)
    }

    /// Starts deleting vertex properties (`unit_from_reply`).
    pub fn delete_vertex_properties(&mut self, q: VertexPropertyQuery) -> (r: TransactionRequest)
        requires
            old(self).can_issue(),
        ensures
            Transaction::issued(*old(self), *final(self), r.request_id, ReplyShape::Single),
            r.request == RequestVariant::DeleteVertexProperties(q),
    {
        self.request(RequestVariant::DeleteVertexProperties(q), ReplyShape::Single)
    }

    /// Starts reading edge properties (`edge_property_list_from_replies`).
    pub fn get_edge_properties(&mut self, q: EdgePropertyQuery) -> (r: TransactionRequest)
        requires
            old(self).can_issue(),
        ensures
            Transaction::issued(*old(self), *final(self), r.request_id, ReplyShape::Multi),
            r.request == RequestVariant::GetEdgeProperties(q),
    {
        self.request(RequestVariant::GetEdgeProperties(q), ReplyShape::Multi)
    }

    /// Starts reading the selected edges with all their properties
    /// (`edge_properties_list_from_replies`).
    pub fn get_all_edge_properties(&mut self, q: EdgeQuery) -> (r: TransactionRequest)
        requires
            old(self).can_issue(),
        ensures
            Transaction::issued(*old(self), *final(self), r.request_id, ReplyShape::Multi),
            r.request == RequestVariant::GetAllEdgeProperties(q),
    {
        self.request(RequestVariant::GetAllEdgeProperties(q), ReplyShape::Multi)
    }

    /// Starts setting edge properties to a JSON value (`unit_from_reply`).
    pub fn set_edge_properties(&mut self, q: EdgePropertyQuery, value: &String) -> (r: TransactionRequest)
        requires
            old(self).can_issue(),
        ensures
            Transaction::issued(*old(self), *final(self), r.request_id, ReplyShape::Single),
            r.request == RequestVariant::SetEdgeProperties(q, *value),
    {
        self.request(RequestVariant::SetEdgeProperties(q, value.clone()), ReplyShape::Single)
    }

    /// Starts deleting edge properties (`unit_from_reply`).
    pub fn delete_edge_properties(&mut self, q: EdgePropertyQuery) -> (r: TransactionRequest)
        requires
            old(self).can_issue(),
        ensures
            Transaction::issued(*old(self), *final(self), r.request_id, ReplyShape::Single),
            r.request == RequestVariant::DeleteEdgeProperties(q),
    {
        self.request(RequestVariant::DeleteEdgeProperties(q), ReplyShape::Single)
    }

    /// Starts counting the edges of a vertex, of one type or of all, in one
    /// direction (`count_from_reply`).
    pub fn get_edge_count(&mut self, id: u128, t: Option<&String>, direction: EdgeDirection) -> (r: TransactionRequest)
        requires
            old(self).can_issue(),
        ensures
            Transaction::issued(*old(self), *final(self), r.request_id, ReplyShape::Single),
            r.request matches RequestVariant::GetEdgeCount { id: b, t: t2, direction: d }
                && uuid_of(b@) == Ok::<u128, ConversionError>(id) && d == direction
                && t2 == match t {
                    Some(s) => Some(*s),
                    None => None::<String>,
                },
    {
        let t2 = match t {
            Some(s) => Some(s.clone()),
            None => None,
        };
        let request = RequestVariant::GetEdgeCount { id: encode_uuid(id), t: t2, direction };
        self.request(request, ReplyShape::Single)
    }
}

} // verus!
