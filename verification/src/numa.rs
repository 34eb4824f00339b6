//! NUMA topologies as they are requested.

use vstd::prelude::*;

use crate::config::{MemoryConfig, NumaDistance, NumaNode, NumaTopology, VpAssignment};
use crate::refusal::{refusal_of, refuse, Refusal};

verus! {

pub const MB: u64 = 0x100000;

/// The memory of a node as it is requested.
#[derive(Clone, Copy, Debug, PartialEq, Eq, Structural)]
pub struct NodeMemoryRequest {
    pub memory_mb: u64,
    pub host_numa_node: Option<u32>,
    pub prefetch: bool,
    pub private_memory: bool,
    pub transparent_hugepages: Option<bool>,
    pub hugepages: bool,
    pub hugepage_size_bytes: Option<u64>,
}

/// A node as it is requested. Processors that are absent follow the topology;
/// an empty list means a node without processors.
#[derive(Debug)]
pub struct NumaNodeRequest {
    pub memory: Option<NodeMemoryRequest>,
    pub vps: Option<Vec<u32>>,
}

/// A distance as it is requested.
#[derive(Clone, Copy, Debug, PartialEq, Eq, Structural)]
pub struct NumaDistanceRequest {
    pub src: u32,
    pub dst: u32,
    pub distance: u32,
}

/// A topology as it is requested.
#[derive(Debug)]
pub struct NumaRequest {
    pub nodes: Vec<NumaNodeRequest>,
    pub distances: Vec<NumaDistanceRequest>,
}

/// The bytes of memory that a node asks for.
pub open spec fn node_bytes(n: NumaNodeRequest) -> nat {
    match n.memory {
        Some(m) => (m.memory_mb * MB) as nat,
        None => 0,
    }
}

/// The bytes of memory that the first nodes ask for.
pub open spec fn total_bytes(nodes: Seq<NumaNodeRequest>) -> nat
    decreases nodes.len(),
{
    if nodes.len() == 0 {
        0
    } else {
        total_bytes(nodes.drop_last()) + node_bytes(nodes.last())
    }
}

/// The first refusal among the nodes: a node's memory, or their sum.
pub open spec fn nodes_refusal(nodes: Seq<NumaNodeRequest>) -> Option<Seq<char>>
    decreases nodes.len(),
{
    if nodes.len() == 0 {
        None
    } else if nodes_refusal(nodes.drop_last()) is Some {
        nodes_refusal(nodes.drop_last())
    } else if node_bytes(nodes.last()) > u64::MAX {
        Some("invalid node memory size"@)
    } else if total_bytes(nodes) > u64::MAX {
        Some("total memory overflow"@)
    } else {
        None
    }
}

/// The memory configuration that a request describes.
pub open spec fn memory_of(m: NodeMemoryRequest) -> MemoryConfig {
    MemoryConfig {
        mem_size: (m.memory_mb * MB) as u64,
        prefetch_memory: m.prefetch,
        private_memory: m.private_memory,
        transparent_hugepages: match m.transparent_hugepages {
            Some(b) => b,
            None => true,
        },
        hugepages: m.hugepages,
        hugepage_size: m.hugepage_size_bytes,
        host_numa_node: m.host_numa_node,
    }
}

/// The node is the one that a request describes.
pub open spec fn is_node(built: NumaNode, n: NumaNodeRequest) -> bool {
    &&& built.mem == (match n.memory {
        Some(m) => Some(memory_of(m)),
        None => None,
    })
    &&& match n.vps {
        None => built.vps is FromTopology,
        Some(list) => if list@.len() == 0 {
            built.vps is Empty
        } else {
            built.vps matches VpAssignment::Explicit(indices) && indices@ == list@
        },
    }
}

/// The first refusal among the distances.
pub open spec fn distances_refusal(distances: Seq<NumaDistanceRequest>) -> Option<Seq<char>> {
    if exists|i: int| 0 <= i < distances.len() && (#[trigger] distances[i]).distance > 255 {
        Some("distance out of range"@)
    } else {
        None
    }
}

proof fn lemma_nodes_refusal(nodes: Seq<NumaNodeRequest>, k: int)
    requires
        0 <= k <= nodes.len(),
        nodes_refusal(nodes.take(k)) is Some,
    ensures
        nodes_refusal(nodes) == nodes_refusal(nodes.take(k)),
    decreases nodes.len(),
{
    if k == nodes.len() {
        assert(nodes.take(k) =~= nodes);
    } else {
        assert(nodes.drop_last().take(k) =~= nodes.take(k));
        lemma_nodes_refusal(nodes.drop_last(), k);
    }
}

fn copy_indices(list: &Vec<u32>) -> (r: Vec<u32>)
    ensures
        r@ == list@,
{
    let mut out: Vec<u32> = Vec::new();
    let mut i: usize = 0;
    while i < list.len()
        invariant
            i <= list@.len(),
            out@ == list@.take(i as int),
        decreases list@.len() - i,
    {
        out.push(list[i]);
        assert(list@.take(i + 1) =~= list@.take(i as int).push(list@[i as int]));
        i += 1;
    }
    assert(list@.take(i as int) =~= list@);
    out
}

/// Builds a topology, and sums up the memory of its nodes in bytes.
pub fn build_numa_topology(numa: &NumaRequest) -> (r: Result<(NumaTopology, u64), Refusal>)
    ensures
        refusal_of(r) == (if nodes_refusal(numa.nodes@) is Some {
            nodes_refusal(numa.nodes@)
        } else {
            distances_refusal(numa.distances@)
        }),
        r is Ok ==> {
            let (topology, total) = r->Ok_0;
            &&& total == total_bytes(numa.nodes@)
            &&& topology.nodes@.len() == numa.nodes@.len()
            &&& forall|i: int|
                0 <= i < numa.nodes@.len() ==> is_node(
                    #[trigger] topology.nodes@[i],
                    numa.nodes@[i],
                )
            &&& topology.distances@.len() == numa.distances@.len()
            &&& forall|i: int|
                0 <= i < numa.distances@.len() ==> (#[trigger] topology.distances@[i]) == (
                NumaDistance {
                    src: numa.distances@[i].src,
                    dst: numa.distances@[i].dst,
                    distance: numa.distances@[i].distance as u8,
                })
        },
{
    let ghost requested = numa.nodes@;
    let mut total: u64 = 0;
    let mut nodes: Vec<NumaNode> = Vec::new();
    let mut i: usize = 0;
    while i < numa.nodes.len()
        invariant
            i <= requested.len(),
            requested == numa.nodes@,
            nodes@.len() == i,
            total == total_bytes(requested.take(i as int)),
            nodes_refusal(requested.take(i as int)) is None,
            forall|k: int| 0 <= k < i ==> is_node(#[trigger] nodes@[k], requested[k]),
        decreases requested.len() - i,
    {
        let node = &numa.nodes[i];
        proof {
            assert(requested.take(i + 1).drop_last() =~= requested.take(i as int));
            assert(requested.take(i + 1).last() == *node);
        }
        let mem: Option<MemoryConfig> = match node.memory {
            Some(m) => {
                let mem_size: u64 = match m.memory_mb.checked_mul(MB) {
                    Some(size) => size,
                    None => {
                        proof {
                            lemma_nodes_refusal(requested, i + 1);
                        }
                        return Err(refuse("invalid node memory size"));
                    },
                };
                total =
                match total.checked_add(mem_size) {
                    Some(sum) => sum,
                    None => {
                        proof {
                            lemma_nodes_refusal(requested, i + 1);
                        }
                        return Err(refuse("total memory overflow"));
                    },
                };
                let transparent_hugepages: bool = match m.transparent_hugepages {
                    Some(b) => b,
                    None => true,
                };
                Some(
                    MemoryConfig {
                        mem_size,
                        prefetch_memory: m.prefetch,
                        private_memory: m.private_memory,
                        transparent_hugepages,
                        hugepages: m.hugepages,
                        hugepage_size: m.hugepage_size_bytes,
                        host_numa_node: m.host_numa_node,
                    },
                )
            },
            None => None,
        };
        let vps = match &node.vps {
            None => VpAssignment::FromTopology,
            Some(list) => {
                if list.len() == 0 {
                    VpAssignment::Empty
                } else {
                    VpAssignment::Explicit(copy_indices(list))
                }
            },
        };
        nodes.push(NumaNode { mem, vps });
        i += 1;
    }
    assert(requested.take(i as int) =~= requested);
    let mut distances: Vec<NumaDistance> = Vec::new();
    let mut j: usize = 0;
    while j < numa.distances.len()
        invariant
            j <= numa.distances@.len(),
            distances@.len() == j,
            nodes_refusal(numa.nodes@) is None,
            forall|k: int| 0 <= k < j ==> (#[trigger] numa.distances@[k]).distance <= 255,
            forall|k: int|
                0 <= k < j ==> (#[trigger] distances@[k]) == (NumaDistance {
                    src: numa.distances@[k].src,
                    dst: numa.distances@[k].dst,
                    distance: numa.distances@[k].distance as u8,
                }),
        decreases numa.distances@.len() - j,
    {
        let d = numa.distances[j];
        if d.distance > 255 {
            assert(numa.distances@[j as int].distance > 255);
            return Err(refuse("distance out of range"));
        }
        distances.push(NumaDistance { src: d.src, dst: d.dst, distance: d.distance as u8 });
        j += 1;
    }
    Ok((NumaTopology { nodes, distances }, total))
}

/// The memory of a machine with a single node.
pub open spec fn single_node_memory(mem_size: u64) -> MemoryConfig {
    MemoryConfig {
        mem_size,
        prefetch_memory: false,
        private_memory: false,
        transparent_hugepages: true,
        hugepages: false,
        hugepage_size: None,
        host_numa_node: None,
    }
}

/// The topology of a machine with a single node: all of its memory, and all of
/// its processors.
pub open spec fn is_single_node(t: NumaTopology, mem_size: u64) -> bool {
    &&& t.nodes@.len() == 1
    &&& t.nodes@[0].mem == Some(single_node_memory(mem_size))
    &&& t.nodes@[0].vps is FromTopology
    &&& t.distances@.len() == 0
}

pub fn single_node_topology(mem_size: u64) -> (r: NumaTopology)
    ensures
        is_single_node(r, mem_size),
{
    let mem = MemoryConfig {
        mem_size,
        prefetch_memory: false,
        private_memory: false,
        transparent_hugepages: true,
        hugepages: false,
        hugepage_size: None,
        host_numa_node: None,
    };
    let mut nodes: Vec<NumaNode> = Vec::new();
    nodes.push(NumaNode { mem: Some(mem), vps: VpAssignment::FromTopology });
    NumaTopology { nodes, distances: Vec::new() }
}

/// The memory of every node of an accepted topology fits in the machine's
/// address width, and so does their sum.
pub proof fn law_accepted_memory_fits(nodes: Seq<NumaNodeRequest>)
    requires
        nodes_refusal(nodes) is None,
    ensures
        total_bytes(nodes) <= u64::MAX,
        forall|i: int| 0 <= i < nodes.len() ==> node_bytes(#[trigger] nodes[i]) <= total_bytes(nodes),
    decreases nodes.len(),
{
    if nodes.len() > 0 {
        let front = nodes.drop_last();
        law_accepted_memory_fits(front);
        assert forall|i: int| 0 <= i < nodes.len() implies node_bytes(#[trigger] nodes[i])
            <= total_bytes(nodes) by {
            if i < front.len() {
                assert(front[i] == nodes[i]);
            }
        }
    }
}

} // verus!
