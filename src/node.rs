//! A vertex of the pipeline graph.
use vstd::prelude::*;

use crate::keyed::Keyed;
use crate::node_properties::NodeProperties;
use crate::pad::{SourcePad, SourcePads};

verus! {

/// A node: its id, its properties (which give its kind) and its output ports.
#[derive(Clone, Debug, PartialEq)]
pub struct Node {
    id: String,
    properties: NodeProperties,
    source_pads: SourcePads,
}

impl Keyed for Node {
    open spec fn key(&self) -> Seq<char> {
        self.spec_id()
    }
}

impl Node {
    pub closed spec fn spec_id(&self) -> Seq<char> {
        self.id@
    }

    pub closed spec fn spec_properties(&self) -> NodeProperties {
        self.properties
    }

    pub closed spec fn spec_source_pads(&self) -> SourcePads {
        self.source_pads
    }

    /// The output ports, by name.
    pub open spec fn ports(&self) -> Map<Seq<char>, SourcePad> {
        self.spec_source_pads()@
    }

    /// A node; without ports given it has none.
    pub fn new(id: &str, properties: NodeProperties, source_pads: Option<SourcePads>) -> (r: Node)
        ensures
            r.spec_id() == id@,
            r.spec_properties() == properties,
            source_pads matches Some(p) ==> r.spec_source_pads() == p,
            source_pads is None ==> r.ports() == Map::<Seq<char>, SourcePad>::empty(),
    {
        let source_pads = match source_pads {
            Some(p) => p,
            None => SourcePads::new(),
        };
        Node { id: String::from_str(id), properties, source_pads }
    }

    pub fn id(&self) -> (r: &str)
        ensures
            r@ == self.spec_id(),
    {
        self.id.as_str()
    }

    pub fn properties(&self) -> (r: &NodeProperties)
        ensures
            *r == self.spec_properties(),
    {
        &self.properties
    }

    pub fn properties_mut(&mut self) -> (r: &mut NodeProperties)
        ensures
            *r == old(self).spec_properties(),
            final(self).spec_properties() == *final(r),
            final(self).spec_id() == old(self).spec_id(),
            final(self).spec_source_pads() == old(self).spec_source_pads(),
    {
        &mut self.properties
    }

    pub fn source_pads(&self) -> (r: &SourcePads)
        ensures
            *r == self.spec_source_pads(),
    {
        &self.source_pads
    }

    pub fn source_pads_mut(&mut self) -> (r: &mut SourcePads)
        ensures
            *r == old(self).spec_source_pads(),
            final(self).spec_source_pads() == *final(r),
            final(self).spec_id() == old(self).spec_id(),
            final(self).spec_properties() == old(self).spec_properties(),
    {
        &mut self.source_pads
    }
}

} // verus!
