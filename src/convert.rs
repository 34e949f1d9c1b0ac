use vstd::prelude::*;

use crate::error::ConversionError;
use crate::messages::ResponseVariant;
use crate::model::{
    Edge, EdgeProperties, EdgeProperty, Vertex, VertexProperties, VertexProperty,
};
use crate::wire::{
    decode_edge, decode_edge_properties, decode_edge_property, decode_uuid, decode_vertex,
    decode_vertex_properties, decode_vertex_property, edge_of, edge_properties_of,
    edge_property_of, uuid_of, vertex_of, vertex_properties_of, vertex_property_of,
};

verus! {

/// Converts each payload in order; the first that fails decides the error.
pub open spec fn all_of<T>(
    s: Seq<ResponseVariant>,
    f: spec_fn(ResponseVariant) -> Result<T, ConversionError>,
) -> Result<Seq<T>, ConversionError>
    decreases s.len(),
{
    if s.len() == 0 {
        Ok(Seq::empty())
    } else {
        match all_of(s.drop_last(), f) {
            Ok(p) => match f(s.last()) {
                Ok(v) => Ok(p.push(v)),
                Err(e) => Err(e),
            },
            Err(e) => Err(e),
        }
    }
}

/// Once a prefix fails, the whole sequence fails with the same error.
proof fn lemma_all_of_failed_prefix<T>(
    s: Seq<ResponseVariant>,
    f: spec_fn(ResponseVariant) -> Result<T, ConversionError>,
    k: int,
)
    requires
        0 <= k <= s.len(),
        all_of(s.take(k), f) is Err,
    ensures
        all_of(s, f) == all_of(s.take(k), f),
    decreases s.len() - k,
{
    if k < s.len() {
        assert(s.take(k + 1).drop_last() =~= s.take(k));
        lemma_all_of_failed_prefix(s, f, k + 1);
    } else {
        assert(s.take(k) =~= s);
    }
}

/// What a payload gives where the call expects a boolean.
pub open spec fn bool_reply_of(r: ResponseVariant) -> Result<bool, ConversionError> {
    match r {
        ResponseVariant::Bool(b) => Ok(b),
        _ => Err(ConversionError::UnexpectedResponseType),
    }
}

/// Reads a boolean from a reply payload; any other payload is refused.
pub fn bool_from_reply(r: ResponseVariant) -> (res: Result<bool, ConversionError>)
    ensures
        res == bool_reply_of(r),
{
    match r {
        ResponseVariant::Bool(b) => Ok(b),
        _ => Err(ConversionError::UnexpectedResponseType),
    }
}

/// What a payload gives where the call expects no value.
pub open spec fn unit_reply_of(r: ResponseVariant) -> Result<(), ConversionError> {
    match r {
        ResponseVariant::Empty => Ok(()),
        _ => Err(ConversionError::UnexpectedResponseType),
    }
}

/// Reads no value from a reply payload; any other payload is refused.
pub fn unit_from_reply(r: ResponseVariant) -> (res: Result<(), ConversionError>)
    ensures
        res == unit_reply_of(r),
{
    match r {
        ResponseVariant::Empty => Ok(()),
        _ => Err(ConversionError::UnexpectedResponseType),
    }
}

/// What a payload gives where the call expects a count.
pub open spec fn count_reply_of(r: ResponseVariant) -> Result<u64, ConversionError> {
    match r {
        ResponseVariant::Count(c) => Ok(c),
        _ => Err(ConversionError::UnexpectedResponseType),
    }
}

/// Reads a count from a reply payload; any other payload is refused.
pub fn count_from_reply(r: ResponseVariant) -> (res: Result<u64, ConversionError>)
    ensures
        res == count_reply_of(r),
{
    match r {
        ResponseVariant::Count(c) => Ok(c),
        _ => Err(ConversionError::UnexpectedResponseType),
    }
}

/// What a payload gives where the call expects a vertex identifier.
pub open spec fn id_reply_of(r: ResponseVariant) -> Result<u128, ConversionError> {
    match r {
        ResponseVariant::Id(b) => uuid_of(b@),
        _ => Err(ConversionError::UnexpectedResponseType),
    }
}

/// Reads a vertex identifier from a reply payload; any other payload is refused.
pub fn id_from_reply(r: ResponseVariant) -> (res: Result<u128, ConversionError>)
    ensures
        res == id_reply_of(r),
{
    match r {
        ResponseVariant::Id(b) => decode_uuid(&b),
        _ => Err(ConversionError::UnexpectedResponseType),
    }
}

/// What a payload gives where the call expects a vertex.
pub open spec fn vertex_reply_of(r: ResponseVariant) -> Result<Vertex, ConversionError> {
    match r {
        ResponseVariant::Vertex(w) => vertex_of(w),
        _ => Err(ConversionError::UnexpectedResponseType),
    }
}

/// `vertex_reply_of` as a value, to hand to `all_of`.
pub open spec fn vertex_reply() -> spec_fn(ResponseVariant) -> Result<Vertex, ConversionError> {
    |r: ResponseVariant| vertex_reply_of(r)
}

/// Reads a vertex from a reply payload; any other payload is refused.
pub fn vertex_from_reply(r: ResponseVariant) -> (res: Result<Vertex, ConversionError>)
    ensures
        res == vertex_reply_of(r),
{
    match r {
        ResponseVariant::Vertex(w) => decode_vertex(w),
        _ => Err(ConversionError::UnexpectedResponseType),
    }
}

/// What a payload gives where the call expects an edge.
pub open spec fn edge_reply_of(r: ResponseVariant) -> Result<Edge, ConversionError> {
    match r {
        ResponseVariant::Edge(w) => edge_of(w),
        _ => Err(ConversionError::UnexpectedResponseType),
    }
}

/// `edge_reply_of` as a value, to hand to `all_of`.
pub open spec fn edge_reply() -> spec_fn(ResponseVariant) -> Result<Edge, ConversionError> {
    |r: ResponseVariant| edge_reply_of(r)
}

/// Reads an edge from a reply payload; any other payload is refused.
pub fn edge_from_reply(r: ResponseVariant) -> (res: Result<Edge, ConversionError>)
    ensures
        res == edge_reply_of(r),
{
    match r {
        ResponseVariant::Edge(w) => decode_edge(w),
        _ => Err(ConversionError::UnexpectedResponseType),
    }
}

/// What a payload gives where the call expects a vertex property.
pub open spec fn vertex_property_reply_of(r: ResponseVariant) -> Result<VertexProperty, ConversionError> {
    match r {
        ResponseVariant::VertexProperty(w) => vertex_property_of(w),
        _ => Err(ConversionError::UnexpectedResponseType),
    }
}

/// `vertex_property_reply_of` as a value, to hand to `all_of`.
pub open spec fn vertex_property_reply() -> spec_fn(ResponseVariant) -> Result<VertexProperty, ConversionError> {
    |r: ResponseVariant| vertex_property_reply_of(r)
}

/// Reads a vertex property from a reply payload; any other payload is refused.
pub fn vertex_property_from_reply(r: ResponseVariant) -> (res: Result<VertexProperty, ConversionError>)
    ensures
        res == vertex_property_reply_of(r),
{
    match r {
        ResponseVariant::VertexProperty(w) => decode_vertex_property(w),
        _ => Err(ConversionError::UnexpectedResponseType),
    }
}

/// What a payload gives where the call expects a vertex with its properties.
pub open spec fn vertex_properties_reply_of(r: ResponseVariant) -> Result<VertexProperties, ConversionError> {
    match r {
        ResponseVariant::VertexProperties(w) => vertex_properties_of(w),
        _ => Err(ConversionError::UnexpectedResponseType),
    }
}

/// `vertex_properties_reply_of` as a value, to hand to `all_of`.
pub open spec fn vertex_properties_reply() -> spec_fn(ResponseVariant) -> Result<VertexProperties, ConversionError> {
    |r: ResponseVariant| vertex_properties_reply_of(r)
}

/// Reads a vertex with its properties from a reply payload; any other payload is refused.
pub fn vertex_properties_from_reply(r: ResponseVariant) -> (res: Result<VertexProperties, ConversionError>)
    ensures
        res == vertex_properties_reply_of(r),
{
    match r {
        ResponseVariant::VertexProperties(w) => decode_vertex_properties(w),
        _ => Err(ConversionError::UnexpectedResponseType),
    }
}

/// What a payload gives where the call expects an edge property.
pub open spec fn edge_property_reply_of(r: ResponseVariant) -> Result<EdgeProperty, ConversionError> {
    match r {
        ResponseVariant::EdgeProperty(w) => edge_property_of(w),
        _ => Err(ConversionError::UnexpectedResponseType),
    }
}

/// `edge_property_reply_of` as a value, to hand to `all_of`.
pub open spec fn edge_property_reply() -> spec_fn(ResponseVariant) -> Result<EdgeProperty, ConversionError> {
    |r: ResponseVariant| edge_property_reply_of(r)
}

/// Reads an edge property from a reply payload; any other payload is refused.
pub fn edge_property_from_reply(r: ResponseVariant) -> (res: Result<EdgeProperty, ConversionError>)
    ensures
        res == edge_property_reply_of(r),
{
    match r {
        ResponseVariant::EdgeProperty(w) => decode_edge_property(w),
        _ => Err(ConversionError::UnexpectedResponseType),
    }
}

/// What a payload gives where the call expects an edge with its properties.
pub open spec fn edge_properties_reply_of(r: ResponseVariant) -> Result<EdgeProperties, ConversionError> {
    match r {
        ResponseVariant::EdgeProperties(w) => edge_properties_of(w),
        _ => Err(ConversionError::UnexpectedResponseType),
    }
}

/// `edge_properties_reply_of` as a value, to hand to `all_of`.
pub open spec fn edge_properties_reply() -> spec_fn(ResponseVariant) -> Result<EdgeProperties, ConversionError> {
    |r: ResponseVariant| edge_properties_reply_of(r)
}

/// Reads an edge with its properties from a reply payload; any other payload is refused.
pub fn edge_properties_from_reply(r: ResponseVariant) -> (res: Result<EdgeProperties, ConversionError>)
    ensures
        res == edge_properties_reply_of(r),
{
    match r {
        ResponseVariant::EdgeProperties(w) => decode_edge_properties(w),
        _ => Err(ConversionError::UnexpectedResponseType),
    }
}

/// Reads vertices from the payloads of a multi-value reply, in order.
pub fn vertex_list_from_replies(values: Vec<ResponseVariant>) -> (res: Result<Vec<Vertex>, ConversionError>)
    ensures
        res matches Ok(v) ==> all_of(values@, vertex_reply()) == Ok::<Seq<Vertex>, ConversionError>(v@),
        res matches Err(e) ==> all_of(values@, vertex_reply()) == Err::<Seq<Vertex>, ConversionError>(e),
{
    let ghost all = values@;
    let mut rest = values;
    let mut out: Vec<Vertex> = Vec::new();
    while rest.len() > 0
        invariant
            all == values@,
            all.len() == out@.len() + rest@.len(),
            rest@ == all.skip(out@.len() as int),
            all_of(all.take(out@.len() as int), vertex_reply()) == Ok::<Seq<Vertex>, ConversionError>(out@),
        decreases rest@.len(),
    {
        let ghost k = out@.len() as int;
        let r = rest.remove(0);
        assert(all.take(k + 1).drop_last() =~= all.take(k));
        assert(r == all[k]);
        assert(all.take(k + 1).last() == all[k]);
        match vertex_from_reply(r) {
            Ok(v) => {
                out.push(v);
                assert(rest@ =~= all.skip(k + 1));
            },
            Err(e) => {
                proof {
                            lemma_all_of_failed_prefix(all, vertex_reply(), k + 1);
                }
                return Err(e);
            },
        }
    }
    assert(all.take(out@.len() as int) =~= all);
    Ok(out)
}

/// Reads edges from the payloads of a multi-value reply, in order.
pub fn edge_list_from_replies(values: Vec<ResponseVariant>) -> (res: Result<Vec<Edge>, ConversionError>)
    ensures
        res matches Ok(v) ==> all_of(values@, edge_reply()) == Ok::<Seq<Edge>, ConversionError>(v@),
        res matches Err(e) ==> all_of(values@, edge_reply()) == Err::<Seq<Edge>, ConversionError>(e),
{
    let ghost all = values@;
    let mut rest = values;
    let mut out: Vec<Edge> = Vec::new();
    while rest.len() > 0
        invariant
            all == values@,
            all.len() == out@.len() + rest@.len(),
            rest@ == all.skip(out@.len() as int),
            all_of(all.take(out@.len() as int), edge_reply()) == Ok::<Seq<Edge>, ConversionError>(out@),
        decreases rest@.len(),
    {
        let ghost k = out@.len() as int;
        let r = rest.remove(0);
        assert(all.take(k + 1).drop_last() =~= all.take(k));
        assert(r == all[k]);
        assert(all.take(k + 1).last() == all[k]);
        match edge_from_reply(r) {
            Ok(v) => {
                out.push(v);
                assert(rest@ =~= all.skip(k + 1));
            },
            Err(e) => {
                proof {
                            lemma_all_of_failed_prefix(all, edge_reply(), k + 1);
                }
                return Err(e);
            },
        }
    }
    assert(all.take(out@.len() as int) =~= all);
    Ok(out)
}

/// Reads vertex properties from the payloads of a multi-value reply, in order.
pub fn vertex_property_list_from_replies(values: Vec<ResponseVariant>) -> (res: Result<Vec<VertexProperty>, ConversionError>)
    ensures
        res matches Ok(v) ==> all_of(values@, vertex_property_reply()) == Ok::<Seq<VertexProperty>, ConversionError>(v@),
        res matches Err(e) ==> all_of(values@, vertex_property_reply()) == Err::<Seq<VertexProperty>, ConversionError>(e),
{
    let ghost all = values@;
    let mut rest = values;
    let mut out: Vec<VertexProperty> = Vec::new();
    while rest.len() > 0
        invariant
            all == values@,
            all.len() == out@.len() + rest@.len(),
            rest@ == all.skip(out@.len() as int),
            all_of(all.take(out@.len() as int), vertex_property_reply()) == Ok::<Seq<VertexProperty>, ConversionError>(out@),
        decreases rest@.len(),
    {
        let ghost k = out@.len() as int;
        let r = rest.remove(0);
        assert(all.take(k + 1).drop_last() =~= all.take(k));
        assert(r == all[k]);
        assert(all.take(k + 1).last() == all[k]);
        match vertex_property_from_reply(r) {
            Ok(v) => {
                out.push(v);
                assert(rest@ =~= all.skip(k + 1));
            },
            Err(e) => {
                proof {
                            lemma_all_of_failed_prefix(all, vertex_property_reply(), k + 1);
                }
                return Err(e);
            },
        }
    }
    assert(all.take(out@.len() as int) =~= all);
    Ok(out)
}

/// Reads vertices with their properties from the payloads of a multi-value reply, in order.
pub fn vertex_properties_list_from_replies(values: Vec<ResponseVariant>) -> (res: Result<Vec<VertexProperties>, ConversionError>)
    ensures
        res matches Ok(v) ==> all_of(values@, vertex_properties_reply()) == Ok::<Seq<VertexProperties>, ConversionError>(v@),
        res matches Err(e) ==> all_of(values@, vertex_properties_reply()) == Err::<Seq<VertexProperties>, ConversionError>(e),
{
    let ghost all = values@;
    let mut rest = values;
    let mut out: Vec<VertexProperties> = Vec::new();
    while rest.len() > 0
        invariant
            all == values@,
            all.len() == out@.len() + rest@.len(),
            rest@ == all.skip(out@.len() as int),
            all_of(all.take(out@.len() as int), vertex_properties_reply()) == Ok::<Seq<VertexProperties>, ConversionError>(out@),
        decreases rest@.len(),
    {
        let ghost k = out@.len() as int;
        let r = rest.remove(0);
        assert(all.take(k + 1).drop_last() =~= all.take(k));
        assert(r == all[k]);
        assert(all.take(k + 1).last() == all[k]);
        match vertex_properties_from_reply(r) {
            Ok(v) => {
                out.push(v);
                assert(rest@ =~= all.skip(k + 1));
            },
            Err(e) => {
                proof {
                            lemma_all_of_failed_prefix(all, vertex_properties_reply(), k + 1);
                }
                return Err(e);
            },
        }
    }
    assert(all.take(out@.len() as int) =~= all);
    Ok(out)
}

/// Reads edge properties from the payloads of a multi-value reply, in order.
pub fn edge_property_list_from_replies(values: Vec<ResponseVariant>) -> (res: Result<Vec<EdgeProperty>, ConversionError>)
    ensures
        res matches Ok(v) ==> all_of(values@, edge_property_reply()) == Ok::<Seq<EdgeProperty>, ConversionError>(v@),
        res matches Err(e) ==> all_of(values@, edge_property_reply()) == Err::<Seq<EdgeProperty>, ConversionError>(e),
{
    let ghost all = values@;
    let mut rest = values;
    let mut out: Vec<EdgeProperty> = Vec::new();
    while rest.len() > 0
        invariant
            all == values@,
            all.len() == out@.len() + rest@.len(),
            rest@ == all.skip(out@.len() as int),
            all_of(all.take(out@.len() as int), edge_property_reply()) == Ok::<Seq<EdgeProperty>, ConversionError>(out@),
        decreases rest@.len(),
    {
        let ghost k = out@.len() as int;
        let r = rest.remove(0);
        assert(all.take(k + 1).drop_last() =~= all.take(k));
        assert(r == all[k]);
        assert(all.take(k + 1).last() == all[k]);
        match edge_property_from_reply(r) {
            Ok(v) => {
                out.push(v);
                assert(rest@ =~= all.skip(k + 1));
            },
            Err(e) => {
                proof {
                            lemma_all_of_failed_prefix(all, edge_property_reply(), k + 1);
                }
                return Err(e);
            },
        }
    }
    assert(all.take(out@.len() as int) =~= all);
    Ok(out)
}

/// Reads edges with their properties from the payloads of a multi-value reply, in order.
pub fn edge_properties_list_from_replies(values: Vec<ResponseVariant>) -> (res: Result<Vec<EdgeProperties>, ConversionError>)
    ensures
        res matches Ok(v) ==> all_of(values@, edge_properties_reply()) == Ok::<Seq<EdgeProperties>, ConversionError>(v@),
        res matches Err(e) ==> all_of(values@, edge_properties_reply()) == Err::<Seq<EdgeProperties>, ConversionError>(e),
{
    let ghost all = values@;
    let mut rest = values;
    let mut out: Vec<EdgeProperties> = Vec::new();
    while rest.len() > 0
        invariant
            all == values@,
            all.len() == out@.len() + rest@.len(),
            rest@ == all.skip(out@.len() as int),
            all_of(all.take(out@.len() as int), edge_properties_reply()) == Ok::<Seq<EdgeProperties>, ConversionError>(out@),
        decreases rest@.len(),
    {
        let ghost k = out@.len() as int;
        let r = rest.remove(0);
        assert(all.take(k + 1).drop_last() =~= all.take(k));
        assert(r == all[k]);
        assert(all.take(k + 1).last() == all[k]);
        match edge_properties_from_reply(r) {
            Ok(v) => {
                out.push(v);
                assert(rest@ =~= all.skip(k + 1));
            },
            Err(e) => {
                proof {
                            lemma_all_of_failed_prefix(all, edge_properties_reply(), k + 1);
                }
                return Err(e);
            },
        }
    }
    assert(all.take(out@.len() as int) =~= all);
    Ok(out)
}

} // verus!
