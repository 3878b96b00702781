//! Ports of a node: output (source) pads, each wired to input (sink) pads of
//! other nodes, named `node_id.port_name`.
use vstd::prelude::*;

use crate::keyed::{
    keyed_map, keys_unique, lemma_keyed_domain, lemma_keyed_index, lemma_keyed_push,
    lemma_keyed_update, Keyed,
};
use crate::resolution::FormatError;
use crate::text::{append_literal, chars_of, piece_bounds, pieces, text_equals};

verus! {

/// A reference to an input port of a node, written `node.name`.
#[derive(Clone, Debug, Default, PartialEq, Eq, Hash)]
pub struct SinkPad {
    pub node: String,
    pub name: String,
}

/// The text form of a sink pad reference.
pub open spec fn sink_text(node: Seq<char>, name: Seq<char>) -> Seq<char> {
    node.push('.') + name
}

impl SinkPad {
    /// Reads `node.name`; the text must hold exactly one `.`.
    pub fn parse(s: &str) -> (r: Result<SinkPad, FormatError>)
        ensures
            r is Ok <==> pieces(s@, '.').len() == 2,
            r matches Ok(pad) ==> pad.node@ == pieces(s@, '.')[0] && pad.name@ == pieces(
                s@,
                '.',
            )[1],
            r matches Err(e) ==> e == FormatError::InvalidFormat,
    {
        let cs = chars_of(s);
        let bounds = piece_bounds(&cs, '.');
        if bounds.len() != 2 {
            return Err(FormatError::InvalidFormat);
        }
        let (a0, a1) = bounds[0];
        let (b0, b1) = bounds[1];
        let node = String::from_str(s.substring_char(a0, a1));
        let name = String::from_str(s.substring_char(b0, b1));
        Ok(SinkPad { node, name })
    }

    /// The text form, `node.name`.
    pub fn to_text(&self) -> (r: String)
        ensures
            r@ == sink_text(self.node@, self.name@),
    {
        let mut out = self.node.clone();
        proof {
            reveal_strlit(".");
        }
        append_literal(&mut out, ".");
        append_literal(&mut out, self.name.as_str());
        out
    }
}

impl core::str::FromStr for SinkPad {
    type Err = FormatError;

    fn from_str(s: &str) -> Result<Self, Self::Err> {
        SinkPad::parse(s)
    }
}

/// A node and a port name without `.` read back from their text form unchanged.
pub proof fn lemma_sink_round_trip(node: Seq<char>, name: Seq<char>)
    requires
        !node.contains('.'),
        !name.contains('.'),
    ensures
        pieces(sink_text(node, name), '.') == seq![node, name],
{
    crate::text::lemma_pieces_single(node, '.');
    crate::text::lemma_pieces_join(node, name, '.');
    assert(pieces(node, '.').push(name) =~= seq![node, name]);
}

/// An output port and the input ports it feeds; `sinks` may be empty.
#[derive(Clone, Debug, PartialEq, Eq)]
pub struct SourcePad {
    pub name: String,
    pub sinks: Vec<SinkPad>,
}

impl Keyed for SourcePad {
    open spec fn key(&self) -> Seq<char> {
        self.name@
    }
}

/// The output ports of a node, at most one per name.
#[derive(Debug, PartialEq, Eq)]
pub struct SourcePads {
    pads: Vec<SourcePad>,
}

impl View for SourcePads {
    type V = Map<Seq<char>, SourcePad>;

    closed spec fn view(&self) -> Map<Seq<char>, SourcePad> {
        keyed_map(self.pads@)
    }
}

/// The ports that a vector of references points to.
pub open spec fn pads_of(s: Seq<&SourcePad>) -> Seq<SourcePad> {
    s.map_values(|p: &SourcePad| *p)
}

impl Clone for SourcePads {
    fn clone(&self) -> Self {
        proof {
            use_type_invariant(self);
        }
        let n = self.pads.len();
        let mut pads: Vec<SourcePad> = Vec::new();
        let mut i: usize = 0;
        while i < n
            invariant
                n == self.pads@.len(),
                i <= n,
                keys_unique(self.pads@),
                pads@.len() == i,
                forall|j: int| 0 <= j < i ==> (#[trigger] pads@[j]).name@ == self.pads@[j].name@,
            decreases n - i,
        {
            let pad = &self.pads[i];
            pads.push(SourcePad { name: pad.name.clone(), sinks: pad.sinks.clone() });
            i = i + 1;
        }
        assert(keys_unique(pads@)) by {
            assert forall|a: int, b: int| 0 <= a < b < pads@.len() implies (#[trigger] pads@[a]).key()
                != (#[trigger] pads@[b]).key() by {
                assert(self.pads@[a].key() != self.pads@[b].key());
            }
        }
        SourcePads { pads }
    }
}

impl SourcePads {
    #[verifier::type_invariant]
    closed spec fn names_unique(&self) -> bool {
        keys_unique(self.pads@)
    }

    pub fn new() -> (r: SourcePads)
        ensures
            r@ == Map::<Seq<char>, SourcePad>::empty(),
    {
        SourcePads { pads: Vec::new() }
    }

    /// Adds a port, replacing the port of the same name if there is one.
    pub fn add(&mut self, pad: SourcePad)
        ensures
            final(self)@ == old(self)@.insert(pad.name@, pad),
    {
        proof {
            use_type_invariant(&*self);
        }
        let mut pads: Vec<SourcePad> = Vec::new();
        core::mem::swap(&mut self.pads, &mut pads);
        let n = pads.len();
        let mut i: usize = 0;
        while i < n
            invariant
                n == pads@.len(),
                pads@ == old(self).pads@,
                i <= n,
                keys_unique(pads@),
                forall|j: int| 0 <= j < i ==> (#[trigger] pads@[j]).name@ != pad.name@,
            decreases n - i,
        {
            if pads[i].name == pad.name {
                proof {
                    lemma_keyed_update(pads@, i as int, pad);
                }
                pads.set(i, pad);
                self.pads = pads;
                return;
            }
            i = i + 1;
        }
        proof {
            lemma_keyed_domain(pads@, pad.name@);
            lemma_keyed_push(pads@, pad);
        }
        pads.push(pad);
        self.pads = pads;
    }

    /// The port of the given name.
    pub fn get(&self, name: &str) -> (r: Option<&SourcePad>)
        ensures
            r is Some <==> self@.contains_key(name@),
            r matches Some(p) ==> *p == self@[name@],
    {
        proof {
            use_type_invariant(self);
        }
        let n = self.pads.len();
        let mut i: usize = 0;
        while i < n
            invariant
                n == self.pads@.len(),
                i <= n,
                keys_unique(self.pads@),
                forall|j: int| 0 <= j < i ==> (#[trigger] self.pads@[j]).name@ != name@,
            decreases n - i,
        {
            if text_equals(self.pads[i].name.as_str(), name) {
                proof {
                    lemma_keyed_index(self.pads@, i as int);
                }
                return Some(&self.pads[i]);
            }
            i = i + 1;
        }
        proof {
            lemma_keyed_domain(self.pads@, name@);
        }
        None
    }

    /// Every port, each once, in no particular order.
    pub fn all(&self) -> (r: Vec<&SourcePad>)
        ensures
            keys_unique(pads_of(r@)),
            keyed_map(pads_of(r@)) == self@,
    {
        proof {
            use_type_invariant(self);
        }
        let n = self.pads.len();
        let mut r: Vec<&SourcePad> = Vec::new();
        let mut i: usize = 0;
        while i < n
            invariant
                n == self.pads@.len(),
                i <= n,
                keys_unique(self.pads@),
                r@.len() == i,
                forall|j: int| 0 <= j < i ==> *(#[trigger] r@[j]) == self.pads@[j],
            decreases n - i,
        {
            r.push(&self.pads[i]);
            i = i + 1;
        }
        assert(pads_of(r@) =~= self.pads@);
        r
    }

    pub fn is_empty(&self) -> (r: bool)
        ensures
            r <==> self@ == Map::<Seq<char>, SourcePad>::empty(),
    {
        proof {
            use_type_invariant(self);
            if self.pads@.len() > 0 {
                lemma_keyed_index(self.pads@, 0);
                assert(!self@.dom().contains(self.pads@[0].name@) ==> false);
                assert(self@ != Map::<Seq<char>, SourcePad>::empty());
            } else {
                assert(self@ =~= Map::<Seq<char>, SourcePad>::empty());
            }
        }
        self.pads.len() == 0
    }
}

} // verus!
