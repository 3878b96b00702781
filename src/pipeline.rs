//! The pipeline graph: nodes by id, and the check that every wire ends at a node.
use vstd::prelude::*;

use crate::keyed::{
    keyed_map, keys_unique, lemma_keyed_domain, lemma_keyed_index, lemma_keyed_push,
    lemma_keyed_update, Keyed,
};
use crate::node::Node;
use crate::pad::{pads_of, SourcePad};
use crate::text::text_equals;

verus! {

/// Every sink of the port names a node of `nodes`.
pub open spec fn port_resolves(nodes: Map<Seq<char>, Node>, pad: SourcePad) -> bool {
    forall|k: int|
        0 <= k < pad.sinks@.len() ==> nodes.contains_key(#[trigger] pad.sinks@[k].node@)
}

/// Every wire that leaves the node ends at a node of `nodes`.
pub open spec fn node_resolves(nodes: Map<Seq<char>, Node>, node: Node) -> bool {
    forall|port: Seq<char>|
        #[trigger] node.ports().contains_key(port) ==> port_resolves(nodes, node.ports()[port])
}

/// Every wire of every node ends at a node of the graph. Cycles are allowed.
pub open spec fn wires_resolve(nodes: Map<Seq<char>, Node>) -> bool {
    forall|id: Seq<char>| #[trigger] nodes.contains_key(id) ==> node_resolves(nodes, nodes[id])
}

/// The wire from port `port` of node `node` to a node named `target` ends nowhere.
pub open spec fn is_dangling(
    nodes: Map<Seq<char>, Node>,
    node: Seq<char>,
    port: Seq<char>,
    target: Seq<char>,
) -> bool {
    &&& nodes.contains_key(node)
    &&& nodes[node].ports().contains_key(port)
    &&& exists|k: int|
        0 <= k < nodes[node].ports()[port].sinks@.len()
            && (#[trigger] nodes[node].ports()[port].sinks@[k]).node@ == target
    &&& !nodes.contains_key(target)
}

/// The graph that a node list is accepted as: later nodes replace earlier
/// ones of the same id, and every wire must end at a node.
pub open spec fn accepted(nodes: Seq<Node>) -> Option<Map<Seq<char>, Node>> {
    if wires_resolve(keyed_map(nodes)) {
        Some(keyed_map(nodes))
    } else {
        None
    }
}

/// The nodes that a vector of references points to.
pub open spec fn nodes_of(s: Seq<&Node>) -> Seq<Node> {
    s.map_values(|n: &Node| *n)
}

/// A wire that ends at no node: from port `source_pad` of node `source_node`
/// to the missing node `missing_target`.
#[derive(Clone, Debug, PartialEq, Eq)]
pub struct DanglingPadReference {
    pub source_node: String,
    pub source_pad: String,
    pub missing_target: String,
}

/// The graph: at most one node per id.
#[derive(Debug)]
pub struct Pipeline {
    nodes: Vec<Node>,
}

impl View for Pipeline {
    type V = Map<Seq<char>, Node>;

    closed spec fn view(&self) -> Map<Seq<char>, Node> {
        keyed_map(self.nodes@)
    }
}

impl Pipeline {
    #[verifier::type_invariant]
    closed spec fn ids_unique(&self) -> bool {
        keys_unique(self.nodes@)
    }

    pub fn new() -> (r: Pipeline)
        ensures
            r@ == Map::<Seq<char>, Node>::empty(),
    {
        Pipeline { nodes: Vec::new() }
    }

    /// Adds a node, replacing the node of the same id if there is one. The
    /// wires are not checked here.
    pub fn add_node(&mut self, node: Node)
        ensures
            final(self)@ == old(self)@.insert(node.key(), node),
    {
        proof {
            use_type_invariant(&*self);
        }
        let mut nodes: Vec<Node> = Vec::new();
        core::mem::swap(&mut self.nodes, &mut nodes);
        let n = nodes.len();
        let mut i: usize = 0;
        while i < n
            invariant
                n == nodes@.len(),
                nodes@ == old(self).nodes@,
                i <= n,
                keys_unique(nodes@),
                forall|j: int| 0 <= j < i ==> (#[trigger] nodes@[j]).key() != node.key(),
            decreases n - i,
        {
            if text_equals(nodes[i].id(), node.id()) {
                proof {
                    lemma_keyed_update(nodes@, i as int, node);
                }
                nodes.set(i, node);
                self.nodes = nodes;
                return;
            }
            i = i + 1;
        }
        proof {
            lemma_keyed_domain(nodes@, node.key());
            lemma_keyed_push(nodes@, node);
        }
        nodes.push(node);
        self.nodes = nodes;
    }

    /// Every node, each once, in no particular order.
    pub fn nodes(&self) -> (r: Vec<&Node>)
        ensures
            keys_unique(nodes_of(r@)),
            keyed_map(nodes_of(r@)) == self@,
    {
        proof {
            use_type_invariant(self);
        }
        let n = self.nodes.len();
        let mut r: Vec<&Node> = Vec::new();
        let mut i: usize = 0;
        while i < n
            invariant
                n == self.nodes@.len(),
                i <= n,
                r@.len() == i,
                forall|j: int| 0 <= j < i ==> *(#[trigger] r@[j]) == self.nodes@[j],
            decreases n - i,
        {
            r.push(&self.nodes[i]);
            i = i + 1;
        }
        assert(nodes_of(r@) =~= self.nodes@);
        r
    }

    /// The node with the given id.
    pub fn node_by_id(&self, id: &str) -> (r: Option<&Node>)
        ensures
            r is Some <==> self@.contains_key(id@),
            r matches Some(node) ==> *node == self@[id@],
    {
        proof {
            use_type_invariant(self);
        }
        let n = self.nodes.len();
        let mut i: usize = 0;
        while i < n
            invariant
                n == self.nodes@.len(),
                i <= n,
                keys_unique(self.nodes@),
                forall|j: int| 0 <= j < i ==> (#[trigger] self.nodes@[j]).key() != id@,
            decreases n - i,
        {
            if text_equals(self.nodes[i].id(), id) {
                proof {
                    lemma_keyed_index(self.nodes@, i as int);
                }
                return Some(&self.nodes[i]);
            }
            i = i + 1;
        }
        proof {
            lemma_keyed_domain(self.nodes@, id@);
        }
        None
    }

    /// Every node, each once, in no particular order; the form a pipeline is
    /// written in.
    pub fn into_nodes(self) -> (r: Vec<Node>)
        ensures
            keys_unique(r@),
            keyed_map(r@) == self@,
    {
        proof {
            use_type_invariant(&self);
        }
        let Pipeline { nodes } = self;
        nodes
    }

    /// Builds the graph from a node list, a later node replacing an earlier
    /// one of the same id, and accepts it only if every wire ends at a node;
    /// otherwise reports one wire that does not.
    pub fn from_nodes(nodes: Vec<Node>) -> (r: Result<Pipeline, DanglingPadReference>)
        ensures
            r is Ok <==> accepted(nodes@) is Some,
            r matches Ok(p) ==> accepted(nodes@) == Some(p@),
            r matches Err(e) ==> is_dangling(
                keyed_map(nodes@),
                e.source_node@,
                e.source_pad@,
                e.missing_target@,
            ),
    {
        let ghost all = nodes@;
        let n = nodes.len();
        let mut rest = nodes;
        let mut pipeline = Pipeline::new();
        let mut i: usize = 0;
        proof {
            assert(all.subrange(0, 0) =~= Seq::<Node>::empty());
            assert(rest@ =~= all.subrange(0, n as int));
        }
        while i < n
            invariant
                n == all.len(),
                i <= n,
                rest@ == all.subrange(i as int, n as int),
                pipeline@ == keyed_map(all.subrange(0, i as int)),
            decreases n - i,
        {
            let node = rest.remove(0);
            proof {
                assert(node == all[i as int]);
                assert(all.subrange(0, i + 1).drop_last() =~= all.subrange(0, i as int));
                assert(all.subrange(0, i + 1).last() == node);
                assert(rest@ =~= all.subrange(i + 1, n as int));
            }
            pipeline.add_node(node);
            i = i + 1;
        }
        proof {
            assert(all.subrange(0, n as int) =~= all);
        }
        match pipeline.dangling_reference() {
            Some(e) => Err(e),
            None => Ok(pipeline),
        }
    }

    /// One wire that ends at no node, if there is one.
    pub fn dangling_reference(&self) -> (r: Option<DanglingPadReference>)
        ensures
            r is None <==> wires_resolve(self@),
            r matches Some(e) ==> is_dangling(
                self@,
                e.source_node@,
                e.source_pad@,
                e.missing_target@,
            ),
    {
        let list = self.nodes();
        let ghost g = self@;
        let n = list.len();
        let mut i: usize = 0;
        while i < n
            invariant
                g == self@,
                n == list@.len(),
                i <= n,
                keys_unique(nodes_of(list@)),
                keyed_map(nodes_of(list@)) == g,
                forall|a: int| 0 <= a < i ==> node_resolves(g, *(#[trigger] list@[a])),
            decreases n - i,
        {
            let node: &Node = list[i];
            proof {
                assert(nodes_of(list@)[i as int] == *node);
                lemma_keyed_index(nodes_of(list@), i as int);
            }
            let pads = node.source_pads().all();
            let m = pads.len();
            let mut j: usize = 0;
            while j < m
                invariant
                    g == self@,
                    m == pads@.len(),
                    j <= m,
                    keys_unique(pads_of(pads@)),
                    keyed_map(pads_of(pads@)) == node.ports(),
                    g.contains_key(node.key()),
                    g[node.key()] == *node,
                    forall|b: int| 0 <= b < j ==> port_resolves(g, *(#[trigger] pads@[b])),
                decreases m - j,
            {
                let pad: &SourcePad = pads[j];
                proof {
                    assert(pads_of(pads@)[j as int] == *pad);
                    lemma_keyed_index(pads_of(pads@), j as int);
                }
                let s = pad.sinks.len();
                let mut k: usize = 0;
                while k < s
                    invariant
                        g == self@,
                        s == pad.sinks@.len(),
                        k <= s,
                        g.contains_key(node.key()),
                        g[node.key()] == *node,
                        node.ports().contains_key(pad.key()),
                        node.ports()[pad.key()] == *pad,
                        forall|c: int| 0 <= c < k ==> g.contains_key(#[trigger] pad.sinks@[c].node@),
                    decreases s - k,
                {
                    let target = &pad.sinks[k];
                    if self.node_by_id(target.node.as_str()).is_none() {
                        let e = DanglingPadReference {
                            source_node: String::from_str(node.id()),
                            source_pad: pad.name.clone(),
                            missing_target: target.node.clone(),
                        };
                        proof {
                            assert(g[node.key()].ports()[pad.key()] == *pad);
                            assert(g[node.key()].ports()[pad.key()].sinks@[k as int].node@
                                == e.missing_target@);
                            assert(!port_resolves(g, g[node.key()].ports()[pad.key()]));
                            assert(!node_resolves(g, g[node.key()]));
                        }
                        return Some(e);
                    }
                    k = k + 1;
                }
                j = j + 1;
            }
            proof {
                assert forall|port: Seq<char>| #[trigger]
                    node.ports().contains_key(port) implies port_resolves(
                    g,
                    node.ports()[port],
                ) by {
                    lemma_keyed_domain(pads_of(pads@), port);
                    let b = choose|b: int|
                        0 <= b < pads_of(pads@).len() && (#[trigger] pads_of(pads@)[b]).key()
                            == port;
                    lemma_keyed_index(pads_of(pads@), b);
                    assert(pads_of(pads@)[b] == *pads@[b]);
                }
            }
            i = i + 1;
        }
        proof {
            assert forall|id: Seq<char>| #[trigger] g.contains_key(id) implies node_resolves(
                g,
                g[id],
            ) by {
                lemma_keyed_domain(nodes_of(list@), id);
                let a = choose|a: int|
                    0 <= a < nodes_of(list@).len() && (#[trigger] nodes_of(list@)[a]).key() == id;
                lemma_keyed_index(nodes_of(list@), a);
                assert(nodes_of(list@)[a] == *list@[a]);
            }
        }
        None
    }
}

/// A pipeline whose wires all resolve is accepted again, unchanged, from
/// the node list it is written as, whatever the order of that list.
pub proof fn lemma_pipeline_round_trip(p: Pipeline, written: Seq<Node>)
    requires
        wires_resolve(p@),
        keys_unique(written),
        keyed_map(written) == p@,
    ensures
        accepted(written) == Some(p@),
{
}

} // verus!
