//! The two numbered tables: exchanges and WebSockets, in the order in which they came.
use vstd::prelude::*;

use indexmap::IndexMap;
use std::collections::hash_map::RandomState;

use crate::message::WebsocketMessage;
use crate::traffic::Traffic;

verus! {

#[verifier::external_type_specification]
#[verifier::external_body]
#[verifier::reject_recursive_types(K)]
#[verifier::reject_recursive_types(V)]
#[verifier::reject_recursive_types(S)]
pub struct ExIndexMap<K, V, S>(indexmap::IndexMap<K, V, S>);

/// The exchanges in a table, in order, each with its number.
pub uninterp spec fn traffic_rows(
    m: IndexMap<usize, Traffic, RandomState>,
) -> Seq<(usize, Traffic)>;

/// The WebSockets in a table, in order, each with its number.
pub uninterp spec fn socket_rows(
    m: IndexMap<usize, Vec<WebsocketMessage>, RandomState>,
) -> Seq<(usize, Vec<WebsocketMessage>)>;

/// Whether no exchange in a table has a number.
pub open spec fn lacks_traffic(m: IndexMap<usize, Traffic, RandomState>, id: usize) -> bool {
    forall|i: int| 0 <= i < traffic_rows(m).len() ==> (#[trigger] traffic_rows(m)[i]).0 != id
}

/// Whether no WebSocket in a table has a number.
pub open spec fn lacks_socket(
    m: IndexMap<usize, Vec<WebsocketMessage>, RandomState>,
    id: usize,
) -> bool {
    forall|i: int| 0 <= i < socket_rows(m).len() ==> (#[trigger] socket_rows(m)[i]).0 != id
}

/// Calls `indexmap::IndexMap::new` for exchanges: a table without rows.
#[verifier::external_body]
pub(crate) fn new_traffics() -> (r: IndexMap<usize, Traffic, RandomState>)
    ensures
        traffic_rows(r).len() == 0,
{
    IndexMap::new()
}

/// Calls `indexmap::IndexMap::len` for exchanges. A row takes more than one byte, so that there
/// are fewer rows than `usize` can count.
#[verifier::external_body]
pub(crate) fn traffics_len(m: &IndexMap<usize, Traffic, RandomState>) -> (r: usize)
    ensures
        r == traffic_rows(*m).len(),
        r < usize::MAX,
{
    m.len()
}

/// Calls `indexmap::IndexMap::insert` for exchanges. Under a number that no row has, the new row
/// comes last.
#[verifier::external_body]
pub(crate) fn traffics_insert(
    m: &mut IndexMap<usize, Traffic, RandomState>,
    id: usize,
    traffic: Traffic,
)
    requires
        lacks_traffic(*old(m), id),
    ensures
        traffic_rows(*final(m)) == traffic_rows(*old(m)).push((id, traffic)),
{
    m.insert(id, traffic);
}

/// Calls `indexmap::IndexMap::get` for exchanges: the row with a number.
#[verifier::external_body]
pub(crate) fn traffics_get<'a>(
    m: &'a IndexMap<usize, Traffic, RandomState>,
    id: usize,
) -> (r: Option<&'a Traffic>)
    ensures
        match r {
            Some(t) => traffic_rows(*m).contains((id, *t)),
            None => lacks_traffic(*m, id),
        },
{
    m.get(&id)
}

/// Calls `indexmap::IndexMap::get_index` for exchanges: the row at a place.
#[verifier::external_body]
pub(crate) fn traffics_at<'a>(
    m: &'a IndexMap<usize, Traffic, RandomState>,
    index: usize,
) -> (r: (usize, &'a Traffic))
    requires
        index < traffic_rows(*m).len(),
    ensures
        (r.0, *r.1) == traffic_rows(*m)[index as int],
{
    let (id, traffic) = m.get_index(index).expect("a row");
    (*id, traffic)
}

/// Calls `indexmap::IndexMap::get_index_mut` for exchanges: the exchange in the row at a place, to
/// be changed. The row keeps its place and its number.
#[verifier::external_body]
pub(crate) fn traffics_at_mut<'a>(
    m: &'a mut IndexMap<usize, Traffic, RandomState>,
    index: usize,
) -> (r: &'a mut Traffic)
    requires
        index < traffic_rows(*old(m)).len(),
    ensures
        *r == traffic_rows(*old(m))[index as int].1,
        traffic_rows(*final(m)) == traffic_rows(*old(m)).update(
            index as int,
            (traffic_rows(*old(m))[index as int].0, *final(r)),
        ),
{
    m.get_index_mut(index).expect("a row").1
}

/// Calls `indexmap::IndexMap::new` for WebSockets: a table without rows.
#[verifier::external_body]
pub(crate) fn new_sockets() -> (r: IndexMap<usize, Vec<WebsocketMessage>, RandomState>)
    ensures
        socket_rows(r).len() == 0,
{
    IndexMap::new()
}

/// Calls `indexmap::IndexMap::len` for WebSockets. A row takes more than one byte, so that there
/// are fewer rows than `usize` can count.
#[verifier::external_body]
pub(crate) fn sockets_len(m: &IndexMap<usize, Vec<WebsocketMessage>, RandomState>) -> (r: usize)
    ensures
        r == socket_rows(*m).len(),
        r < usize::MAX,
{
    m.len()
}

/// Calls `indexmap::IndexMap::insert` for WebSockets. Under a number that no row has, the new row
/// comes last.
#[verifier::external_body]
pub(crate) fn sockets_insert(
    m: &mut IndexMap<usize, Vec<WebsocketMessage>, RandomState>,
    id: usize,
    messages: Vec<WebsocketMessage>,
)
    requires
        lacks_socket(*old(m), id),
    ensures
        socket_rows(*final(m)) == socket_rows(*old(m)).push((id, messages)),
{
    m.insert(id, messages);
}

/// Calls `indexmap::IndexMap::get` for WebSockets: the row with a number.
#[verifier::external_body]
pub(crate) fn sockets_get<'a>(
    m: &'a IndexMap<usize, Vec<WebsocketMessage>, RandomState>,
    id: usize,
) -> (r: Option<&'a Vec<WebsocketMessage>>)
    ensures
        match r {
            Some(list) => socket_rows(*m).contains((id, *list)),
            None => lacks_socket(*m, id),
        },
{
    m.get(&id)
}

/// Whether a table is another one but for the messages of one row, which were `before` and are
/// `after`.
pub open spec fn rewritten(
    rows: Seq<(usize, Vec<WebsocketMessage>)>,
    id: usize,
    before: Vec<WebsocketMessage>,
    after: Vec<WebsocketMessage>,
    changed: Seq<(usize, Vec<WebsocketMessage>)>,
) -> bool {
    exists|i: int|
        0 <= i < rows.len() && #[trigger] rows[i] == (id, before) && changed == rows.update(
            i,
            (id, after),
        )
}

/// Calls `indexmap::IndexMap::get_mut` for WebSockets: the messages in the row with a number, to
/// be changed. The row keeps its place and its number.
#[verifier::external_body]
pub(crate) fn sockets_get_mut<'a>(
    m: &'a mut IndexMap<usize, Vec<WebsocketMessage>, RandomState>,
    id: usize,
) -> (r: Option<&'a mut Vec<WebsocketMessage>>)
    ensures
        match r {
            Some(list) => rewritten(
                socket_rows(*old(m)),
                id,
                *list,
                *final(list),
                socket_rows(*final(m)),
            ),
            None => socket_rows(*final(m)) == socket_rows(*old(m)) && lacks_socket(*old(m), id),
        },
{
    m.get_mut(&id)
}

} // verus!
