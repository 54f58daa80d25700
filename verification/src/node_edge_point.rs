//! The node-edge-point record: a pair of UUID-valued identifiers.

use crate::json::{field_models, JsonModel, JsonValue};
use crate::uuid_text::{uuid_num_of_text, uuid_of_field, uuid_text, uuid_text_of_num};
use crate::Error;
use vstd::prelude::*;

verus! {

/// A reference to one end of a link: the node-edge-point identifier and the
/// identifier of the node it belongs to. Both are 128-bit UUID values; no
/// relation between the two is required — they may even be equal.
#[derive(Debug, Clone, Copy, PartialEq, Eq, Structural)]
pub struct NodeEdgePoint {
    pub node_edge_point_uuid: u128,
    pub node_uuid: u128,
}

/// The parse of one node-edge-point entry: both `node-edge-point-uuid` and
/// `node-uuid` must be present, string-typed and valid UUID text; the first
/// missing or malformed field decides the error message.
pub open spec fn spec_parse_node_edge_point(v: JsonModel) -> Result<NodeEdgePoint, Seq<char>> {
    match uuid_of_field(v, "node-edge-point-uuid"@) {
        None => Err("Not found node edge point uuid"@),
        Some(nep) => match uuid_of_field(v, "node-uuid"@) {
            None => Err("Not found node uuid"@),
            Some(node) => Ok(NodeEdgePoint { node_edge_point_uuid: nep, node_uuid: node }),
        },
    }
}

/// The serialized form of a node-edge-point: an object with the two identifiers
/// rendered as hyphenated UUID text.
pub open spec fn spec_node_edge_point_model(nep: NodeEdgePoint) -> JsonModel {
    JsonModel::Object(
        seq![
            (
                "node-edge-point-uuid"@,
                JsonModel::Str(uuid_text_of_num(nep.node_edge_point_uuid)),
            ),
            ("node-uuid"@, JsonModel::Str(uuid_text_of_num(nep.node_uuid))),
        ],
    )
}

/// Both identifier texts rendered out of `nep` parse back to the values they
/// were rendered from.
pub open spec fn nep_uuids_round_trip(nep: NodeEdgePoint) -> bool {
    &&& uuid_num_of_text(uuid_text_of_num(nep.node_edge_point_uuid)) == Some(
        nep.node_edge_point_uuid,
    )
    &&& uuid_num_of_text(uuid_text_of_num(nep.node_uuid)) == Some(nep.node_uuid)
}

/// Round trip: a serialized node-edge-point parses back to the same record.
pub proof fn lemma_node_edge_point_round_trip(nep: NodeEdgePoint)
    requires
        nep_uuids_round_trip(nep),
    ensures
        spec_parse_node_edge_point(spec_node_edge_point_model(nep)) == Ok::<
            NodeEdgePoint,
            Seq<char>,
        >(nep),
{
    reveal_strlit("node-edge-point-uuid");
    reveal_strlit("node-uuid");
    assert("node-edge-point-uuid"@.len() != "node-uuid"@.len());
    let m = spec_node_edge_point_model(nep);
    assert(crate::json::spec_get(m, "node-edge-point-uuid"@) == Some(
        JsonModel::Str(uuid_text_of_num(nep.node_edge_point_uuid)),
    ));
    assert(crate::json::obj_lookup_from(m->Object_0, "node-uuid"@, 1) == Some(
        JsonModel::Str(uuid_text_of_num(nep.node_uuid)),
    ));
    assert(crate::json::spec_get(m, "node-uuid"@) == Some(
        JsonModel::Str(uuid_text_of_num(nep.node_uuid)),
    ));
}

impl NodeEdgePoint {
    /// Parses a node-edge-point entry out of an untyped value.
    pub fn from_value(value: &JsonValue) -> (r: Result<Self, Error>)
        ensures
            match r {
                Ok(nep) => spec_parse_node_edge_point(value@) == Ok::<NodeEdgePoint, Seq<char>>(
                    nep,
                ),
                Err(e) => spec_parse_node_edge_point(value@) == Err::<NodeEdgePoint, Seq<char>>(
                    e@,
                ),
            },
    {
        let node_edge_point_uuid = match crate::uuid_text::extract_uuid(
            value,
            "node-edge-point-uuid",
        ) {
            Some(n) => n,
            None => {
                return Err(Error::custom("Not found node edge point uuid"));
            },
        };
        let node_uuid = match crate::uuid_text::extract_uuid(value, "node-uuid") {
            Some(n) => n,
            None => {
                return Err(Error::custom("Not found node uuid"));
            },
        };
        Ok(NodeEdgePoint { node_edge_point_uuid, node_uuid })
    }

    /// Serializes the record back to an untyped value, with the key names of
    /// the wire format. The rendered identifier texts parse back to the same
    /// values, which makes the record round-trip.
    pub fn to_value(&self) -> (r: JsonValue)
        ensures
            r@ == spec_node_edge_point_model(*self),
            nep_uuids_round_trip(*self),
    {
        let mut fields: Vec<(String, JsonValue)> = Vec::new();
        fields.push(
            ("node-edge-point-uuid".to_owned(), JsonValue::Str(uuid_text(self.node_edge_point_uuid))),
        );
        fields.push(("node-uuid".to_owned(), JsonValue::Str(uuid_text(self.node_uuid))));
        let ghost gf = fields@;
        let r = JsonValue::Object(fields);
        proof {
            assert(field_models(gf, 2) =~= Seq::<(Seq<char>, JsonModel)>::empty());
            assert(field_models(gf, 1) =~= seq![(gf[1].0@, gf[1].1@)] + field_models(gf, 2));
            assert(field_models(gf, 0) =~= seq![(gf[0].0@, gf[0].1@)] + field_models(gf, 1));
            assert(r@->Object_0 =~= spec_node_edge_point_model(*self)->Object_0);
        }
        r
    }
}

} // verus!
