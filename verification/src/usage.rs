//! Measuring what a batch will move before it starts.

use crate::batch::TransferError;
use vstd::prelude::*;

verus! {

broadcast use vstd::std_specs::vec::group_vec_axioms;

/// Bytes and items of all sources of one batch.
#[derive(Debug, Clone, Copy, PartialEq, Eq, Structural)]
pub struct DiskUsageSnapshot {
    pub total_bytes: u64,
    pub total_items: u64,
}

/// What was found at one source path, and below it.
#[derive(Debug)]
pub enum SourceNode {
    /// A file, a link or another item without children, with its size in bytes.
    Leaf(u64),
    /// A directory with what it holds.
    Directory(Vec<SourceNode>),
    /// The item was gone when it was looked at.
    Vanished,
    /// The item is there and could not be read.
    Unreadable,
}

/// Whether nothing in `node` or below it is unreadable.
pub open spec fn node_readable(node: SourceNode) -> bool
    decreases node,
{
    match node {
        SourceNode::Leaf(_) => true,
        SourceNode::Directory(children) => nodes_readable(children@),
        SourceNode::Vanished => true,
        SourceNode::Unreadable => false,
    }
}

/// Whether nothing in `nodes` or below them is unreadable.
pub open spec fn nodes_readable(nodes: Seq<SourceNode>) -> bool
    decreases nodes,
{
    if nodes.len() == 0 {
        true
    } else {
        nodes_readable(nodes.drop_last()) && node_readable(nodes.last())
    }
}

/// Bytes of all leaves in `node` and below it.
pub open spec fn node_bytes(node: SourceNode) -> nat
    decreases node,
{
    match node {
        SourceNode::Leaf(size) => size as nat,
        SourceNode::Directory(children) => nodes_bytes(children@),
        SourceNode::Vanished => 0,
        SourceNode::Unreadable => 0,
    }
}

/// Bytes of all leaves in `nodes` and below them.
pub open spec fn nodes_bytes(nodes: Seq<SourceNode>) -> nat
    decreases nodes,
{
    if nodes.len() == 0 {
        0
    } else {
        nodes_bytes(nodes.drop_last()) + node_bytes(nodes.last())
    }
}

/// Number of leaves in `node` and below it.
pub open spec fn node_items(node: SourceNode) -> nat
    decreases node,
{
    match node {
        SourceNode::Leaf(_) => 1,
        SourceNode::Directory(children) => nodes_items(children@),
        SourceNode::Vanished => 0,
        SourceNode::Unreadable => 0,
    }
}

/// Number of leaves in `nodes` and below them.
pub open spec fn nodes_items(nodes: Seq<SourceNode>) -> nat
    decreases nodes,
{
    if nodes.len() == 0 {
        0
    } else {
        nodes_items(nodes.drop_last()) + node_items(nodes.last())
    }
}

/// Whether `nodes` can be measured: all of it can be read and both totals fit
/// in 64 bits.
pub open spec fn measurable(nodes: Seq<SourceNode>) -> bool {
    &&& nodes_readable(nodes)
    &&& nodes_bytes(nodes) <= u64::MAX
    &&& nodes_items(nodes) <= u64::MAX
}

/// The totals grow with each node that is added.
pub proof fn lemma_totals_grow(nodes: Seq<SourceNode>, k: int)
    requires
        0 <= k <= nodes.len(),
    ensures
        nodes_bytes(nodes.take(k)) <= nodes_bytes(nodes),
        nodes_items(nodes.take(k)) <= nodes_items(nodes),
        nodes_readable(nodes) ==> nodes_readable(nodes.take(k)),
    decreases nodes.len() - k,
{
    if k == nodes.len() {
        assert(nodes.take(k) =~= nodes);
    } else {
        assert(nodes.drop_last().take(k) =~= nodes.take(k));
        lemma_totals_grow(nodes.drop_last(), k);
    }
}

/// Adds what `node` holds to the running totals. `None` where the node cannot
/// be measured or a total leaves 64 bits.
fn measure_node(node: &SourceNode, bytes: u64, items: u64) -> (totals: Option<(u64, u64)>)
    ensures
        match totals {
            Some((b, i)) => {
                &&& node_readable(*node)
                &&& b == bytes + node_bytes(*node)
                &&& i == items + node_items(*node)
            },
            None => {
                ||| !node_readable(*node)
                ||| bytes + node_bytes(*node) > u64::MAX
                ||| items + node_items(*node) > u64::MAX
            },
        },
    decreases *node,
{
    match node {
        SourceNode::Leaf(size) => {
            match bytes.checked_add(*size) {
                Some(b) => match items.checked_add(1) {
                    Some(i) => Some((b, i)),
                    None => None,
                },
                None => None,
            }
        },
        SourceNode::Directory(children) => measure_nodes(children, bytes, items),
        SourceNode::Vanished => Some((bytes, items)),
        SourceNode::Unreadable => None,
    }
}

/// Adds what `nodes` hold to the running totals. `None` where one of them
/// cannot be measured or a total leaves 64 bits.
fn measure_nodes(nodes: &Vec<SourceNode>, bytes: u64, items: u64) -> (totals: Option<(u64, u64)>)
    ensures
        match totals {
            Some((b, i)) => {
                &&& nodes_readable(nodes@)
                &&& b == bytes + nodes_bytes(nodes@)
                &&& i == items + nodes_items(nodes@)
            },
            None => {
                ||| !nodes_readable(nodes@)
                ||| bytes + nodes_bytes(nodes@) > u64::MAX
                ||| items + nodes_items(nodes@) > u64::MAX
            },
        },
    decreases *nodes,
{
    let mut b: u64 = bytes;
    let mut i: u64 = items;
    let mut k: usize = 0;
    while k < nodes.len()
        invariant
            0 <= k <= nodes.len(),
            nodes_readable(nodes@.take(k as int)),
            b == bytes + nodes_bytes(nodes@.take(k as int)),
            i == items + nodes_items(nodes@.take(k as int)),
        decreases nodes.len() - k,
    {
        proof {
            assert(nodes@.take(k + 1).drop_last() =~= nodes@.take(k as int));
            assert(nodes@.take(k + 1).last() == nodes@[k as int]);
            lemma_totals_grow(nodes@, k + 1);
        }
        match measure_node(&nodes[k], b, i) {
            Some((nb, ni)) => {
                b = nb;
                i = ni;
            },
            None => {
                return None;
            },
        }
        k = k + 1;
    }
    proof {
        assert(nodes@.take(k as int) =~= nodes@);
    }
    Some((b, i))
}

/// Measures the sources of a batch: the bytes and the number of all leaves,
/// directories counted by what they hold, items that have vanished counted as
/// nothing. Fails where a source cannot be read or a total leaves 64 bits.
pub fn measure_size(entries: &Vec<SourceNode>) -> (result: Result<DiskUsageSnapshot, TransferError>)
    ensures
        result is Ok <==> measurable(entries@),
        result matches Ok(snapshot) ==> {
            &&& snapshot.total_bytes == nodes_bytes(entries@)
            &&& snapshot.total_items == nodes_items(entries@)
        },
        result matches Err(e) ==> e is MeasurementFailure,
{
    match measure_nodes(entries, 0, 0) {
        Some((total_bytes, total_items)) => Ok(DiskUsageSnapshot { total_bytes, total_items }),
        None => Err(TransferError::MeasurementFailure),
    }
}

} // verus!
