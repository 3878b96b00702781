//! The configuration overlay: drops the node kinds that a later stage
//! configures, and merges per-node property overrides into the rest.
use vstd::prelude::*;

use crate::json::{
    list_text_of, object_of_text, object_of_value, text_of_value, value_list_of, error_text, object_extend, object_get, object_insert, object_into_entries, object_remove,
    object_value, parse_object, parse_value_list, value_into_object, value_list_text, value_text,
    object_entries, JsonObject,
};
use crate::keyed::{
    keyed_map, keys_unique, lemma_keyed_absent, lemma_keyed_domain, lemma_keyed_index,
    lemma_keyed_last, Keyed,
};
use crate::text::text_equals;

verus! {

/// Node kinds that a later stage configures; the overlay drops them.
pub open spec fn is_dynamic_kind(kind: Seq<char>) -> bool {
    ||| kind == "annotate_barcode"@
    ||| kind == "annotate_line_counter"@
    ||| kind == "annotate_lpr"@
    ||| kind == "annotate_motion"@
    ||| kind == "annotate_presence"@
    ||| kind == "annotate_queue"@
    ||| kind == "filter_frames"@
    ||| kind == "log_meta"@
    ||| kind == "overlay_meta"@
    ||| kind == "publish_google_sheets"@
    ||| kind == "stream_rtmp"@
    ||| kind == "transform_blur"@
    ||| kind == "watermark"@
    ||| kind == "webhook_local"@
}

pub fn dynamic_kind(kind: &str) -> (r: bool)
    ensures
        r == is_dynamic_kind(kind@),
{
    text_equals(kind, "annotate_barcode") || text_equals(kind, "annotate_line_counter")
        || text_equals(kind, "annotate_lpr") || text_equals(kind, "annotate_motion")
        || text_equals(kind, "annotate_presence") || text_equals(kind, "annotate_queue")
        || text_equals(kind, "filter_frames") || text_equals(kind, "log_meta") || text_equals(
        kind,
        "overlay_meta",
    ) || text_equals(kind, "publish_google_sheets") || text_equals(kind, "stream_rtmp")
        || text_equals(kind, "transform_blur") || text_equals(kind, "watermark") || text_equals(
        kind,
        "webhook_local",
    )
}

/// A node of the wire form, taken apart into what the overlay reads.
pub struct NodeEntry {
    /// The node's `id`.
    pub id: String,
    /// The `type` tag of its properties.
    pub kind: String,
    /// Its `properties` object.
    pub properties: JsonObject,
    /// The node object without `properties`.
    pub fields: JsonObject,
}

pub ghost struct NodeModel {
    pub id: Seq<char>,
    pub kind: Seq<char>,
    pub properties: Map<Seq<char>, serde_json::Value>,
    pub fields: Map<Seq<char>, serde_json::Value>,
}

impl View for NodeEntry {
    type V = NodeModel;

    open spec fn view(&self) -> NodeModel {
        NodeModel {
            id: self.id@,
            kind: self.kind@,
            properties: object_entries(self.properties),
            fields: object_entries(self.fields),
        }
    }
}

pub open spec fn models(s: Seq<NodeEntry>) -> Seq<NodeModel> {
    s.map_values(|e: NodeEntry| e@)
}

/// Property overrides for one node.
pub struct NodeConfig {
    pub node_id: String,
    pub properties: JsonObject,
}

impl Keyed for NodeConfig {
    open spec fn key(&self) -> Seq<char> {
        self.node_id@
    }
}

/// The overrides by node id; a later entry for an id replaces an earlier one.
pub open spec fn config_view(cfg: Seq<NodeConfig>) -> Map<
    Seq<char>,
    Map<Seq<char>, serde_json::Value>,
> {
    keyed_map(cfg).map_values(|c: NodeConfig| object_entries(c.properties))
}

/// A node with its overrides merged in: keys of the override replace, others
/// stay, unknown keys are added.
pub open spec fn merge_node(n: NodeModel, cfg: Map<Seq<char>, Map<Seq<char>, serde_json::Value>>) -> NodeModel {
    if cfg.contains_key(n.id) {
        NodeModel { properties: n.properties.union_prefer_right(cfg[n.id]), ..n }
    } else {
        n
    }
}

/// The overlay of a node list: non-dynamic nodes in their order, each merged.
pub open spec fn overlay(
    s: Seq<NodeModel>,
    cfg: Map<Seq<char>, Map<Seq<char>, serde_json::Value>>,
) -> Seq<NodeModel>
    decreases s.len(),
{
    if s.len() == 0 {
        Seq::empty()
    } else {
        let r = overlay(s.drop_last(), cfg);
        if is_dynamic_kind(s.last().kind) {
            r
        } else {
            r.push(merge_node(s.last(), cfg))
        }
    }
}

/// Why the overlay could not be applied.
#[derive(Clone, Debug, PartialEq, Eq)]
pub enum OverlayError {
    /// The text is not JSON of the expected shape; the reader's message.
    Json(String),
    /// An element of the node list is not an object.
    NodeNotObject,
    /// A node's `properties` is missing or not an object.
    PropertiesNotObject,
    /// A node's properties have no textual `type`.
    MissingKind,
    /// A node's `id` is missing or not text.
    IdNotText,
    /// The overrides of this node are not an object.
    ConfigurationNotObject(String),
}

/// The position of the entry that holds the overrides of `id`.
fn config_for(cfg: &Vec<NodeConfig>, id: &str) -> (r: Option<usize>)
    ensures
        r is Some <==> keyed_map(cfg@).contains_key(id@),
        r matches Some(j) ==> j < cfg@.len() && keyed_map(cfg@)[id@] == cfg@[j as int],
{
    let m = cfg.len();
    let mut found: Option<usize> = None;
    let mut j: usize = 0;
    while j < m
        invariant
            m == cfg@.len(),
            j <= m,
            found matches Some(f) ==> f < j && cfg@[f as int].key() == id@ && forall|l: int|
                f < l < j ==> (#[trigger] cfg@[l]).key() != id@,
            found is None ==> forall|l: int| 0 <= l < j ==> (#[trigger] cfg@[l]).key() != id@,
        decreases m - j,
    {
        if text_equals(cfg[j].node_id.as_str(), id) {
            found = Some(j);
        }
        j = j + 1;
    }
    proof {
        match found {
            Some(f) => {
                lemma_keyed_last(cfg@, f as int);
            },
            None => {
                lemma_keyed_absent(cfg@, id@);
            },
        }
    }
    found
}

/// Applies the overlay to a node list taken apart.
pub fn configure_nodes(nodes: Vec<NodeEntry>, cfg: &Vec<NodeConfig>) -> (r: Vec<NodeEntry>)
    ensures
        models(r@) == overlay(models(nodes@), config_view(cfg@)),
{
    let ghost all = nodes@;
    let ghost cv = config_view(cfg@);
    let n = nodes.len();
    let mut rest = nodes;
    let mut out: Vec<NodeEntry> = Vec::new();
    let mut i: usize = 0;
    proof {
        assert(models(all.subrange(0, 0)) =~= Seq::<NodeModel>::empty());
        assert(rest@ =~= all.subrange(0, n as int));
        assert(models(out@) =~= Seq::<NodeModel>::empty());
    }
    while i < n
        invariant
            n == all.len(),
            i <= n,
            cv == config_view(cfg@),
            rest@ == all.subrange(i as int, n as int),
            models(out@) == overlay(models(all.subrange(0, i as int)), cv),
        decreases n - i,
    {
        let e = rest.remove(0);
        proof {
            assert(e == all[i as int]);
            assert(rest@ =~= all.subrange(i + 1, n as int));
            assert(models(all.subrange(0, i + 1)).drop_last() =~= models(all.subrange(0, i as int)));
            assert(models(all.subrange(0, i + 1)).last() == e@);
        }
        if !dynamic_kind(e.kind.as_str()) {
            let NodeEntry { id, kind, mut properties, fields } = e;
            match config_for(cfg, id.as_str()) {
                Some(j) => {
                    let patch = cfg[j].properties.clone();
                    object_extend(&mut properties, patch);
                },
                None => {},
            }
            let merged = NodeEntry { id, kind, properties, fields };
            proof {
                assert(merged@ == merge_node(e@, cv));
            }
            out.push(merged);
            proof {
                assert(models(out@) =~= overlay(models(all.subrange(0, i as int)), cv).push(merged@));
            }
        }
        i = i + 1;
    }
    proof {
        assert(all.subrange(0, n as int) =~= all);
    }
    out
}

/// How a JSON value reads as a node: an object whose `properties` is an object
/// with a text `type`, and which has a text `id` unless its kind is dynamic.
/// A dynamic node is dropped by the overlay, so its id is not read; it counts
/// as empty.
pub open spec fn read_node(v: serde_json::Value) -> Result<NodeModel, OverlayError> {
    match object_of_value(v) {
        None => Err(OverlayError::NodeNotObject),
        Some(o) => if !o.contains_key("properties"@) || object_of_value(o["properties"@]) is None {
            Err(OverlayError::PropertiesNotObject)
        } else {
            let p = object_of_value(o["properties"@])->0;
            if !p.contains_key("type"@) || text_of_value(p["type"@]) is None {
                Err(OverlayError::MissingKind)
            } else {
                let kind = text_of_value(p["type"@])->0;
                let fields = o.remove("properties"@);
                if fields.contains_key("id"@) && text_of_value(fields["id"@]) is Some {
                    Ok(NodeModel { id: text_of_value(fields["id"@])->0, kind, properties: p, fields })
                } else if is_dynamic_kind(kind) {
                    Ok(NodeModel { id: Seq::empty(), kind, properties: p, fields })
                } else {
                    Err(OverlayError::IdNotText)
                }
            }
        },
    }
}

/// How a list of JSON values reads as nodes: the first value that is no node
/// gives the error.
pub open spec fn read_nodes(vs: Seq<serde_json::Value>) -> Result<Seq<NodeModel>, OverlayError>
    decreases vs.len(),
{
    if vs.len() == 0 {
        Ok(Seq::empty())
    } else {
        match read_nodes(vs.drop_last()) {
            Err(e) => Err(e),
            Ok(ms) => match read_node(vs.last()) {
                Err(e) => Err(e),
                Ok(m) => Ok(ms.push(m)),
            },
        }
    }
}

/// `v` is the node object written for `m`: its fields, with `properties` set
/// to an object that holds its properties.
pub open spec fn written_as(m: NodeModel, v: serde_json::Value) -> bool {
    &&& object_of_value(v) is Some
    &&& object_of_value(v)->0 == m.fields.insert(
        "properties"@,
        object_of_value(v)->0["properties"@],
    )
    &&& object_of_value(object_of_value(v)->0["properties"@]) == Some(m.properties)
}

pub open spec fn all_written_as(ms: Seq<NodeModel>, vs: Seq<serde_json::Value>) -> bool {
    &&& ms.len() == vs.len()
    &&& forall|i: int| 0 <= i < ms.len() ==> written_as(ms[i], #[trigger] vs[i])
}

/// The error of the first element of a JSON node list that is no node.
pub open spec fn nodes_fault(text: Seq<char>) -> Option<OverlayError> {
    match value_list_of(text) {
        Some(vs) => match read_nodes(vs) {
            Err(e) => Some(e),
            Ok(_) => None,
        },
        None => None,
    }
}

/// `out_text` writes the overlay of the nodes that `in_text` holds.
pub open spec fn overlay_text(
    in_text: Seq<char>,
    cfg: Map<Seq<char>, Map<Seq<char>, serde_json::Value>>,
    out_text: Seq<char>,
) -> bool {
    &&& value_list_of(in_text) is Some
    &&& read_nodes(value_list_of(in_text)->0) is Ok
    &&& exists|out: Seq<serde_json::Value>|
        all_written_as(overlay(read_nodes(value_list_of(in_text)->0)->Ok_0, cfg), out)
            && out_text == list_text_of(out)
}

/// A text that reads as a configuration: a JSON object whose values are objects.
pub open spec fn config_readable(text: Seq<char>) -> bool {
    &&& object_of_text(text) is Some
    &&& forall|k: Seq<char>| #[trigger]
        object_of_text(text)->0.contains_key(k) ==> object_of_value(
            object_of_text(text)->0[k],
        ) is Some
}

/// The overrides that a readable configuration text holds, by node id.
pub open spec fn config_of_text(text: Seq<char>) -> Map<
    Seq<char>,
    Map<Seq<char>, serde_json::Value>,
> {
    object_of_text(text)->0.map_values(|v: serde_json::Value| object_of_value(v)->0)
}

proof fn lemma_read_nodes_err(vs: Seq<serde_json::Value>, k: int, e: OverlayError)
    requires
        0 <= k <= vs.len(),
        read_nodes(vs.subrange(0, k)) == Err::<Seq<NodeModel>, OverlayError>(e),
    ensures
        read_nodes(vs) == Err::<Seq<NodeModel>, OverlayError>(e),
    decreases vs.len() - k,
{
    if k < vs.len() {
        assert(vs.subrange(0, k + 1).drop_last() =~= vs.subrange(0, k));
        lemma_read_nodes_err(vs, k + 1, e);
    } else {
        assert(vs.subrange(0, k) =~= vs);
    }
}

/// Takes a node object apart: its `id`, its `properties` and their `type`.
pub fn entry_of(node: serde_json::Value) -> (r: Result<NodeEntry, OverlayError>)
    ensures
        r matches Ok(e) ==> read_node(node) == Ok::<NodeModel, OverlayError>(e@),
        r matches Err(x) ==> read_node(node) == Err::<NodeModel, OverlayError>(x),
{
    let ghost v = node;
    let mut fields = match value_into_object(node) {
        Ok(m) => m,
        Err(_) => {
            return Err(OverlayError::NodeNotObject);
        },
    };
    let ghost o = object_entries(fields);
    let properties = match object_remove(&mut fields, "properties") {
        Some(pv) => match value_into_object(pv) {
            Ok(m) => m,
            Err(_) => {
                return Err(OverlayError::PropertiesNotObject);
            },
        },
        None => {
            return Err(OverlayError::PropertiesNotObject);
        },
    };
    let kind = match object_get(&properties, "type") {
        Some(t) => match value_text(t) {
            Some(t) => t,
            None => {
                return Err(OverlayError::MissingKind);
            },
        },
        None => {
            return Err(OverlayError::MissingKind);
        },
    };
    let id = match object_get(&fields, "id") {
        Some(t) => value_text(t),
        None => None,
    };
    let id = match id {
        Some(t) => t,
        None => {
            if dynamic_kind(kind.as_str()) {
                String::new()
            } else {
                return Err(OverlayError::IdNotText);
            }
        },
    };
    Ok(NodeEntry { id, kind, properties, fields })
}

/// Puts a node object back together.
pub fn value_of(entry: NodeEntry) -> (r: serde_json::Value)
    ensures
        written_as(entry@, r),
{
    let ghost m = entry@;
    let NodeEntry { id: _, kind: _, properties, mut fields } = entry;
    let pv = object_value(properties);
    object_insert(&mut fields, String::from_str("properties"), pv);
    let r = object_value(fields);
    proof {
        assert(object_of_value(r)->0["properties"@] == pv);
    }
    r
}

/// Reads a configuration: a JSON object from node id to an object of
/// overrides. Each node id comes once.
pub fn parse_configuration(text: &str) -> (r: Result<Vec<NodeConfig>, OverlayError>)
    ensures
        r is Ok <==> config_readable(text@),
        r matches Ok(c) ==> keys_unique(c@) && config_view(c@) == config_of_text(text@),
{
    let object = match parse_object(text) {
        Ok(m) => m,
        Err(e) => {
            return Err(OverlayError::Json(error_text(&e)));
        },
    };
    let ghost om = object_entries(object);
    let entries = object_into_entries(object);
    let ghost all = entries@;
    let n = entries.len();
    let mut rest = entries;
    let mut out: Vec<NodeConfig> = Vec::new();
    let mut i: usize = 0;
    proof {
        assert(rest@ =~= all.subrange(0, n as int));
    }
    while i < n
        invariant
            n == all.len(),
            i <= n,
            om == object_of_text(text@)->0,
            rest@ == all.subrange(i as int, n as int),
            forall|a: int, b: int|
                0 <= a < b < all.len() ==> (#[trigger] all[a]).0@ != (#[trigger] all[b]).0@,
            forall|j: int|
                0 <= j < all.len() ==> om.contains_key((#[trigger] all[j]).0@) && om[all[j].0@]
                    == all[j].1,
            out@.len() == i,
            forall|j: int|
                0 <= j < i ==> (#[trigger] out@[j]).node_id@ == all[j].0@ && object_of_value(
                    all[j].1,
                ) == Some(object_entries(out@[j].properties)),
        decreases n - i,
    {
        let (node_id, value) = rest.remove(0);
        proof {
            assert(node_id@ == all[i as int].0@);
            assert(value == all[i as int].1);
            assert(rest@ =~= all.subrange(i + 1, n as int));
        }
        match value_into_object(value) {
            Ok(properties) => out.push(NodeConfig { node_id, properties }),
            Err(_) => {
                proof {
                    assert(om.contains_key(all[i as int].0@));
                    assert(!config_readable(text@));
                }
                return Err(OverlayError::ConfigurationNotObject(node_id));
            },
        }
        i = i + 1;
    }
    proof {
        assert forall|a: int, b: int| 0 <= a < b < out@.len() implies (#[trigger] out@[a]).key()
            != (#[trigger] out@[b]).key() by {
            assert(out@[a].node_id@ == all[a].0@);
            assert(out@[b].node_id@ == all[b].0@);
        }
        assert forall|k: Seq<char>| #[trigger] om.contains_key(k) implies object_of_value(om[k]) is Some
            && keyed_map(out@).contains_key(k) && object_entries(keyed_map(out@)[k].properties)
            == object_of_value(om[k])->0 by {
            let j = choose|j: int| 0 <= j < all.len() && (#[trigger] all[j]).0@ == k;
            lemma_keyed_index(out@, j);
            assert(out@[j].key() == k);
        }
        assert forall|k: Seq<char>| #[trigger] keyed_map(out@).contains_key(k) implies om.contains_key(
            k,
        ) by {
            lemma_keyed_domain(out@, k);
            let j = choose|j: int| 0 <= j < out@.len() && (#[trigger] out@[j]).key() == k;
            assert(out@[j].node_id@ == all[j].0@);
        }
        assert(config_view(out@) =~= config_of_text(text@));
    }
    Ok(out)
}

/// Applies the overlay to a pipeline written as a JSON node list, in place.
/// It fails where the text is no JSON array, or where an element is no node
/// (see `read_node`); then the text is left as it was.
pub fn update_pipeline_def(pipeline_json: &mut String, configuration: &Vec<NodeConfig>) -> (r:
    Result<(), OverlayError>)
    ensures
        r is Err ==> *final(pipeline_json) == *old(pipeline_json),
        value_list_of(old(pipeline_json)@) is None ==> r is Err,
        nodes_fault(old(pipeline_json)@) is Some ==> r is Err && r->Err_0 == nodes_fault(
            old(pipeline_json)@,
        )->0,
        value_list_of(old(pipeline_json)@) is Some && nodes_fault(old(pipeline_json)@) is None ==> (
        r is Ok || r->Err_0 is Json),
        r is Ok ==> overlay_text(old(pipeline_json)@, config_view(configuration@), final(pipeline_json)@),
{
    let values = match parse_value_list(pipeline_json.as_str()) {
        Ok(v) => v,
        Err(e) => {
            return Err(OverlayError::Json(error_text(&e)));
        },
    };
    let ghost vs = values@;
    let n = values.len();
    let mut rest = values;
    let mut entries: Vec<NodeEntry> = Vec::new();
    let mut i: usize = 0;
    proof {
        assert(rest@ =~= vs.subrange(0, n as int));
        assert(vs.subrange(0, 0) =~= Seq::<serde_json::Value>::empty());
        assert(models(entries@) =~= Seq::<NodeModel>::empty());
    }
    while i < n
        invariant
            n == vs.len(),
            i <= n,
            value_list_of(old(pipeline_json)@) == Some(vs),
            *pipeline_json == *old(pipeline_json),
            rest@ == vs.subrange(i as int, n as int),
            read_nodes(vs.subrange(0, i as int)) == Ok::<Seq<NodeModel>, OverlayError>(
                models(entries@),
            ),
        decreases n - i,
    {
        let v = rest.remove(0);
        proof {
            assert(v == vs[i as int]);
            assert(rest@ =~= vs.subrange(i + 1, n as int));
            assert(vs.subrange(0, i + 1).drop_last() =~= vs.subrange(0, i as int));
        }
        match entry_of(v) {
            Ok(e) => {
                let ghost before = entries@;
                entries.push(e);
                proof {
                    assert(models(entries@) =~= models(before).push(e@));
                }
            },
            Err(e) => {
                proof {
                    lemma_read_nodes_err(vs, i + 1, e);
                }
                return Err(e);
            },
        }
        i = i + 1;
    }
    proof {
        assert(vs.subrange(0, n as int) =~= vs);
    }
    let ghost ms = models(entries@);
    let configured = configure_nodes(entries, configuration);
    let ghost cs = configured@;
    let m = configured.len();
    let mut rest = configured;
    let mut written: Vec<serde_json::Value> = Vec::new();
    let mut j: usize = 0;
    proof {
        assert(rest@ =~= cs.subrange(0, m as int));
    }
    while j < m
        invariant
            m == cs.len(),
            j <= m,
            rest@ == cs.subrange(j as int, m as int),
            written@.len() == j,
            forall|k: int| 0 <= k < j ==> written_as(cs[k]@, #[trigger] written@[k]),
        decreases m - j,
    {
        let e = rest.remove(0);
        proof {
            assert(e == cs[j as int]);
            assert(rest@ =~= cs.subrange(j + 1, m as int));
        }
        written.push(value_of(e));
        j = j + 1;
    }
    proof {
        assert(all_written_as(overlay(ms, config_view(configuration@)), written@)) by {
            assert(models(cs) == overlay(ms, config_view(configuration@)));
            assert forall|k: int| 0 <= k < cs.len() implies written_as(
                overlay(ms, config_view(configuration@))[k],
                #[trigger] written@[k],
            ) by {
                assert(models(cs)[k] == cs[k]@);
            }
        }
    }
    match value_list_text(&written) {
        Ok(text) => {
            *pipeline_json = text;
            Ok(())
        },
        Err(e) => Err(OverlayError::Json(error_text(&e))),
    }
}

/// Overlaying a second time with the same configuration changes nothing.
pub proof fn lemma_overlay_idempotent(
    s: Seq<NodeModel>,
    cfg: Map<Seq<char>, Map<Seq<char>, serde_json::Value>>,
)
    ensures
        overlay(overlay(s, cfg), cfg) == overlay(s, cfg),
    decreases s.len(),
{
    if s.len() > 0 {
        let s0 = s.drop_last();
        lemma_overlay_idempotent(s0, cfg);
        let r0 = overlay(s0, cfg);
        if !is_dynamic_kind(s.last().kind) {
            let m = merge_node(s.last(), cfg);
            let r = r0.push(m);
            assert(r.drop_last() =~= r0);
            assert(merge_node(m, cfg) == m) by {
                if cfg.contains_key(s.last().id) {
                    let p = s.last().properties.union_prefer_right(cfg[s.last().id]);
                    assert(p.union_prefer_right(cfg[s.last().id]) =~= p);
                }
            }
        }
    }
}

/// No node of a dynamic kind is left after the overlay.
pub proof fn lemma_overlay_drops_dynamic(
    s: Seq<NodeModel>,
    cfg: Map<Seq<char>, Map<Seq<char>, serde_json::Value>>,
)
    ensures
        forall|i: int|
            0 <= i < overlay(s, cfg).len() ==> !is_dynamic_kind(#[trigger] overlay(s, cfg)[i].kind),
    decreases s.len(),
{
    if s.len() > 0 {
        let r0 = overlay(s.drop_last(), cfg);
        lemma_overlay_drops_dynamic(s.drop_last(), cfg);
        if !is_dynamic_kind(s.last().kind) {
            let r = r0.push(merge_node(s.last(), cfg));
            assert(merge_node(s.last(), cfg).kind == s.last().kind);
            assert forall|i: int| 0 <= i < r.len() implies !is_dynamic_kind(#[trigger] r[i].kind) by {
                if i < r0.len() {
                    assert(r[i] == r0[i]);
                }
            }
        }
    }
}

} // verus!
