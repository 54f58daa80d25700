//! The topology link record and its validating parser.
//!
//! A link is parsed out of an untyped value: a `uuid` field, an ordered
//! `node-edge-point` array (every element must validate), a content fingerprint
//! over the *entire* input value, and a creation timestamp. The timestamp is
//! the wall clock at parse time, sampled once per parse, after the fingerprint;
//! it is held as the RFC 3339 text the clock rendered, since nothing in the
//! crate computes with it.

use crate::canon::spec_fingerprint;
use crate::json::{
    field_models, obj_lookup_from, spec_as_array, spec_as_str, spec_get, JsonModel, JsonValue,
};
use crate::node_edge_point::{
    lemma_node_edge_point_round_trip, nep_uuids_round_trip, spec_node_edge_point_model,
    spec_parse_node_edge_point, NodeEdgePoint,
};
use crate::uuid_text::{extract_uuid, uuid_num_of_text, uuid_of_field, uuid_text, uuid_text_of_num};
use crate::Error;
use vstd::prelude::*;

verus! {

/// A validated topology link.
#[derive(Debug, PartialEq)]
pub struct Link {
    /// The caller-supplied host label; not read from the input.
    pub host: String,
    /// The validated node-edge-point entries, in input order.
    pub node_edge_points: Vec<NodeEdgePoint>,
    /// The link identifier, a 128-bit UUID value.
    pub uuid: u128,
    /// Fingerprint of the whole input value at parse time, for change detection.
    pub hash: u64,
    /// RFC 3339 text of the local wall-clock time at parse time.
    pub date: String,
}

/// The specification-level shape of a [`Link`].
pub struct LinkModel {
    pub host: Seq<char>,
    pub node_edge_points: Seq<NodeEdgePoint>,
    pub uuid: u128,
    pub hash: u64,
    pub date: Seq<char>,
}

impl View for Link {
    type V = LinkModel;

    open spec fn view(&self) -> LinkModel {
        LinkModel {
            host: self.host@,
            node_edge_points: self.node_edge_points@,
            uuid: self.uuid,
            hash: self.hash,
            date: self.date@,
        }
    }
}

/// The parse of the node-edge-point entries from position `i` on: the first
/// failing element aborts the whole parse with its own error.
pub open spec fn spec_parse_points(items: Seq<JsonModel>, i: int) -> Result<
    Seq<NodeEdgePoint>,
    Seq<char>,
>
    decreases items.len() - i,
{
    if i < 0 || i >= items.len() {
        Ok(Seq::empty())
    } else {
        match spec_parse_node_edge_point(items[i]) {
            Err(m) => Err(m),
            Ok(nep) => match spec_parse_points(items, i + 1) {
                Err(m) => Err(m),
                Ok(rest) => Ok(seq![nep] + rest),
            },
        }
    }
}

/// The `node-edge-point` field of `v` as an array, if present and array-shaped.
pub open spec fn spec_points_array(v: JsonModel) -> Option<Seq<JsonModel>> {
    match spec_get(v, "node-edge-point"@) {
        Some(field) => spec_as_array(field),
        None => None,
    }
}

/// The parse of a link out of `v`, with the caller-supplied `host` label and
/// the sampled `date` text. Fail-fast: the link uuid first, then the
/// node-edge-point array, then its elements in order. The hash is the content
/// fingerprint of the whole input value.
pub open spec fn spec_parse_link(v: JsonModel, host: Seq<char>, date: Seq<char>) -> Result<
    LinkModel,
    Seq<char>,
> {
    match uuid_of_field(v, "uuid"@) {
        None => Err("Not found link uuid"@),
        Some(uuid) => match spec_points_array(v) {
            None => Err("Not found node edge points list"@),
            Some(items) => match spec_parse_points(items, 0) {
                Err(m) => Err(m),
                Ok(points) => Ok(
                    LinkModel {
                        host: host,
                        node_edge_points: points,
                        uuid: uuid,
                        hash: spec_fingerprint(v),
                        date: date,
                    },
                ),
            },
        },
    }
}

/// Relies on `chrono::Local::now` and `DateTime::to_rfc3339`: the current local
/// wall-clock time, rendered as RFC 3339 text with the local offset. Nothing is
/// promised of the result; the clock is not a function of the program's state.
#[verifier::external_body]
fn now_rfc3339() -> (r: String) {
    chrono::Local::now().to_rfc3339()
}

impl Link {
    /// Parses a link out of `value` with an injected timestamp text: the
    /// result is exactly the specification parse at that date.
    #[verifier::loop_isolation(false)]
    pub fn from_value_at(value: &JsonValue, host: &str, date: String) -> (r: Result<Self, Error>)
        ensures
            match r {
                Ok(l) => spec_parse_link(value@, host@, date@) == Ok::<LinkModel, Seq<char>>(l@),
                Err(e) => spec_parse_link(value@, host@, date@) == Err::<LinkModel, Seq<char>>(
                    e@,
                ),
            },
    {
        let uuid = match extract_uuid(value, "uuid") {
            Some(u) => u,
            None => {
                return Err(Error::custom("Not found link uuid"));
            },
        };
        let items: &Vec<JsonValue> = match value.get("node-edge-point") {
            Some(field) => match field.as_array() {
                Some(items) => items,
                None => {
                    return Err(Error::custom("Not found node edge points list"));
                },
            },
            None => {
                return Err(Error::custom("Not found node edge points list"));
            },
        };
        let points = match Link::parse_points(items) {
            Ok(points) => points,
            Err(e) => {
                return Err(e);
            },
        };
        let hash = crate::canon::fingerprint(value);
        Ok(Link { host: host.to_owned(), node_edge_points: points, uuid, hash, date })
    }

    /// Parses a link out of `value`, sampling the wall clock for the creation
    /// date after computing the fingerprint. Success, every parsed field and
    /// every error are exactly those of the specification parse; only the
    /// sampled date text is the clock's own.
    pub fn from_value(value: &JsonValue, host: &str) -> (r: Result<Self, Error>)
        ensures
            match r {
                Ok(l) => spec_parse_link(value@, host@, l@.date) == Ok::<LinkModel, Seq<char>>(
                    l@,
                ),
                Err(e) => forall|date: Seq<char>|
                    spec_parse_link(value@, host@, date) == Err::<LinkModel, Seq<char>>(e@),
            },
    {
        let date = now_rfc3339();
        let ghost gdate = date@;
        let r = Link::from_value_at(value, host, date);
        proof {
            if r is Err {
                assert forall|date: Seq<char>|
                    spec_parse_link(value@, host@, date) == Err::<LinkModel, Seq<char>>(
                        r->Err_0@,
                    ) by {
                    lemma_link_date_immaterial_to_errors(value@, host@, gdate, date);
                }
            }
        }
        r
    }
}

/// The serialized forms of the node-edge-point entries, in order.
pub open spec fn spec_points_models(neps: Seq<NodeEdgePoint>) -> Seq<JsonModel> {
    neps.map_values(|nep: NodeEdgePoint| spec_node_edge_point_model(nep))
}

/// The serialized form of a link: an object with the wire-format key names —
/// `host`, `node-edge-point`, `uuid`, `hash` and `date` — in that order.
pub open spec fn spec_link_value(l: LinkModel) -> JsonModel {
    JsonModel::Object(
        seq![
            ("host"@, JsonModel::Str(l.host)),
            ("node-edge-point"@, JsonModel::Array(spec_points_models(l.node_edge_points))),
            ("uuid"@, JsonModel::Str(uuid_text_of_num(l.uuid))),
            ("hash"@, JsonModel::UInt(l.hash)),
            ("date"@, JsonModel::Str(l.date)),
        ],
    )
}

/// The rendered link identifier, and those of every node-edge-point entry,
/// parse back to the values they were rendered from.
pub open spec fn link_uuids_round_trip(l: LinkModel) -> bool {
    &&& uuid_num_of_text(uuid_text_of_num(l.uuid)) == Some(l.uuid)
    &&& forall|i: int|
        0 <= i < l.node_edge_points.len() ==> nep_uuids_round_trip(#[trigger] l.node_edge_points[i])
}

/// Reading a serialized link back: every field a serialized link carries —
/// `host`, the `node-edge-point` entries, `uuid`, `hash` and `date` — is taken
/// from the object itself; nothing is recomputed.
pub open spec fn spec_read_back(v: JsonModel) -> Result<LinkModel, Seq<char>> {
    match spec_get(v, "host"@) {
        Some(host_field) => match spec_as_str(host_field) {
            Some(host) => match spec_points_array(v) {
                Some(items) => match spec_parse_points(items, 0) {
                    Ok(points) => match uuid_of_field(v, "uuid"@) {
                        Some(uuid) => match spec_get(v, "hash"@) {
                            Some(JsonModel::UInt(hash)) => match spec_get(v, "date"@) {
                                Some(JsonModel::Str(date)) => Ok(
                                    LinkModel {
                                        host: host,
                                        node_edge_points: points,
                                        uuid: uuid,
                                        hash: hash,
                                        date: date,
                                    },
                                ),
                                _ => Err("Not found link date"@),
                            },
                            _ => Err("Not found link hash"@),
                        },
                        None => Err("Not found link uuid"@),
                    },
                    Err(m) => Err(m),
                },
                None => Err("Not found node edge points list"@),
            },
            None => Err("Not found link host"@),
        },
        None => Err("Not found link host"@),
    }
}

impl Link {
    /// Serializes the record back to an untyped value, with the key names of
    /// the wire format. The rendered identifier texts parse back to the same
    /// values, which makes the record round-trip.
    pub fn to_value(&self) -> (r: JsonValue)
        ensures
            r@ == spec_link_value(self@),
            link_uuids_round_trip(self@),
    {
        let mut points: Vec<JsonValue> = Vec::new();
        let mut i: usize = 0;
        while i < self.node_edge_points.len()
            invariant
                0 <= i <= self.node_edge_points.len(),
                points@.len() == i,
                forall|j: int|
                    0 <= j < i ==> (#[trigger] points@[j])@ == spec_node_edge_point_model(
                        self.node_edge_points@[j],
                    ),
                forall|j: int|
                    0 <= j < i ==> nep_uuids_round_trip(#[trigger] self.node_edge_points@[j]),
            decreases self.node_edge_points.len() - i,
        {
            points.push(self.node_edge_points[i].to_value());
            i = i + 1;
        }
        proof {
            crate::json::lemma_item_models(points@, 0);
        }
        let ghost gpoints = points@;
        let mut fields: Vec<(String, JsonValue)> = Vec::new();
        fields.push(("host".to_owned(), JsonValue::Str(self.host.clone())));
        fields.push(("node-edge-point".to_owned(), JsonValue::Array(points)));
        fields.push(("uuid".to_owned(), JsonValue::Str(uuid_text(self.uuid))));
        fields.push(("hash".to_owned(), JsonValue::UInt(self.hash)));
        fields.push(("date".to_owned(), JsonValue::Str(self.date.clone())));
        let ghost gf = fields@;
        let r = JsonValue::Object(fields);
        proof {
            assert forall|j: int| 0 <= j < gpoints.len() implies #[trigger] crate::json::item_models(
                gpoints,
                0,
            )[j] == gpoints[j]@ by {
                assert(crate::json::item_models(gpoints, 0)[j - 0] == gpoints[j]@);
            }
            assert(crate::json::item_models(gpoints, 0) =~= spec_points_models(
                self.node_edge_points@,
            ));
            assert(field_models(gf, 5) =~= Seq::<(Seq<char>, JsonModel)>::empty());
            assert(field_models(gf, 4) =~= seq![(gf[4].0@, gf[4].1@)] + field_models(gf, 5));
            assert(field_models(gf, 3) =~= seq![(gf[3].0@, gf[3].1@)] + field_models(gf, 4));
            assert(field_models(gf, 2) =~= seq![(gf[2].0@, gf[2].1@)] + field_models(gf, 3));
            assert(field_models(gf, 1) =~= seq![(gf[1].0@, gf[1].1@)] + field_models(gf, 2));
            assert(field_models(gf, 0) =~= seq![(gf[0].0@, gf[0].1@)] + field_models(gf, 1));
            assert(r@->Object_0 =~= spec_link_value(self@)->Object_0);
        }
        r
    }

    /// Reads a serialized link back into a record, field by field. This is the
    /// inverse of [`Link::to_value`]: nothing is recomputed, so the fingerprint
    /// and the date come back exactly as serialized.
    pub fn from_serialized(value: &JsonValue) -> (r: Result<Self, Error>)
        ensures
            match r {
                Ok(l) => spec_read_back(value@) == Ok::<LinkModel, Seq<char>>(l@),
                Err(e) => spec_read_back(value@) == Err::<LinkModel, Seq<char>>(e@),
            },
    {
        let host: String = match value.get("host") {
            Some(field) => match field.as_str() {
                Some(s) => s.to_owned(),
                None => {
                    return Err(Error::custom("Not found link host"));
                },
            },
            None => {
                return Err(Error::custom("Not found link host"));
            },
        };
        let items: &Vec<JsonValue> = match value.get("node-edge-point") {
            Some(field) => match field.as_array() {
                Some(items) => items,
                None => {
                    return Err(Error::custom("Not found node edge points list"));
                },
            },
            None => {
                return Err(Error::custom("Not found node edge points list"));
            },
        };
        let points = match Link::parse_points(items) {
            Ok(points) => points,
            Err(e) => {
                return Err(e);
            },
        };
        let uuid = match extract_uuid(value, "uuid") {
            Some(u) => u,
            None => {
                return Err(Error::custom("Not found link uuid"));
            },
        };
        let hash: u64 = match value.get("hash") {
            Some(JsonValue::UInt(h)) => *h,
            _ => {
                return Err(Error::custom("Not found link hash"));
            },
        };
        let date: String = match value.get("date") {
            Some(field) => match field.as_str() {
                Some(s) => s.to_owned(),
                None => {
                    return Err(Error::custom("Not found link date"));
                },
            },
            None => {
                return Err(Error::custom("Not found link date"));
            },
        };
        Ok(Link { host, node_edge_points: points, uuid, hash, date })
    }

    /// Parses every element of the array, in order, aborting on the first
    /// failing element with that element's error.
    #[verifier::loop_isolation(false)]
    fn parse_points(items: &Vec<JsonValue>) -> (r: Result<Vec<NodeEdgePoint>, Error>)
        ensures
            match r {
                Ok(points) => spec_parse_points(crate::json::item_models(items@, 0), 0) == Ok::<
                    Seq<NodeEdgePoint>,
                    Seq<char>,
                >(points@),
                Err(e) => spec_parse_points(crate::json::item_models(items@, 0), 0) == Err::<
                    Seq<NodeEdgePoint>,
                    Seq<char>,
                >(e@),
            },
    {
        let ghost models = crate::json::item_models(items@, 0);
        proof {
            crate::json::lemma_item_models(items@, 0);
        }
        let mut points: Vec<NodeEdgePoint> = Vec::new();
        let mut i: usize = 0;
        while i < items.len()
            invariant
                0 <= i <= items.len(),
                points@.len() == i,
                match spec_parse_points(models, i as int) {
                    Ok(rest) => spec_parse_points(models, 0) == Ok::<Seq<NodeEdgePoint>, Seq<char>>(
                        points@ + rest,
                    ),
                    Err(m) => spec_parse_points(models, 0) == Err::<Seq<NodeEdgePoint>, Seq<char>>(
                        m,
                    ),
                },
            decreases items.len() - i,
        {
            let ghost ppre = points@;
            match NodeEdgePoint::from_value(&items[i]) {
                Ok(nep) => {
                    points.push(nep);
                    proof {
                        if let Ok(rest) = spec_parse_points(models, i as int + 1) {
                            assert(points@ + rest =~= ppre + (seq![nep] + rest));
                        }
                    }
                },
                Err(e) => {
                    return Err(e);
                },
            }
            i = i + 1;
        }
        proof {
            assert(points@ + Seq::<NodeEdgePoint>::empty() =~= points@);
        }
        Ok(points)
    }
}

/// When every entry from position `i` on validates, the entry parse succeeds
/// and returns exactly those entries' records, in order.
proof fn lemma_parse_points_all_ok(items: Seq<JsonModel>, i: int)
    requires
        0 <= i <= items.len(),
        forall|j: int|
            i <= j < items.len() ==> (#[trigger] spec_parse_node_edge_point(items[j])) is Ok,
    ensures
        spec_parse_points(items, i) is Ok,
        spec_parse_points(items, i)->Ok_0.len() == items.len() - i,
        forall|j: int|
            i <= j < items.len() ==> #[trigger] spec_parse_node_edge_point(items[j]) == Ok::<
                NodeEdgePoint,
                Seq<char>,
            >(spec_parse_points(items, i)->Ok_0[j - i]),
    decreases items.len() - i,
{
    if i < items.len() {
        lemma_parse_points_all_ok(items, i + 1);
        let nep = spec_parse_node_edge_point(items[i])->Ok_0;
        let rest = spec_parse_points(items, i + 1)->Ok_0;
        assert forall|j: int|
            i <= j < items.len() implies #[trigger] spec_parse_node_edge_point(items[j]) == Ok::<
            NodeEdgePoint,
            Seq<char>,
        >(spec_parse_points(items, i)->Ok_0[j - i]) by {
            if j > i {
                assert((seq![nep] + rest)[j - i] == rest[j - i - 1]);
            } else {
                assert((seq![nep] + rest)[0] == nep);
            }
        }
    }
}

/// When the entries before position `k` validate and entry `k` fails, the
/// entry parse from position `i` fails with entry `k`'s error.
proof fn lemma_parse_points_first_err(items: Seq<JsonModel>, i: int, k: int)
    requires
        0 <= i <= k < items.len(),
        forall|j: int| i <= j < k ==> (#[trigger] spec_parse_node_edge_point(items[j])) is Ok,
        spec_parse_node_edge_point(items[k]) is Err,
    ensures
        spec_parse_points(items, i) == Err::<Seq<NodeEdgePoint>, Seq<char>>(
            spec_parse_node_edge_point(items[k])->Err_0,
        ),
    decreases k - i,
{
    if i < k {
        lemma_parse_points_first_err(items, i + 1, k);
    }
}

/// For any input holding a well-formed `uuid` and a `node-edge-point` array
/// whose every element validates, the link parse succeeds, and the parsed
/// entries preserve the array's order and length exactly.
pub proof fn lemma_link_preserves_points(v: JsonModel, host: Seq<char>, date: Seq<char>)
    requires
        uuid_of_field(v, "uuid"@) is Some,
        spec_points_array(v) is Some,
        forall|j: int|
            0 <= j < spec_points_array(v)->Some_0.len() ==> (#[trigger] spec_parse_node_edge_point(
                spec_points_array(v)->Some_0[j],
            )) is Ok,
    ensures
        spec_parse_link(v, host, date) is Ok,
        spec_parse_link(v, host, date)->Ok_0.node_edge_points.len() == spec_points_array(
            v,
        )->Some_0.len(),
        forall|j: int|
            0 <= j < spec_points_array(v)->Some_0.len() ==> #[trigger] spec_parse_node_edge_point(
                spec_points_array(v)->Some_0[j],
            ) == Ok::<NodeEdgePoint, Seq<char>>(
                spec_parse_link(v, host, date)->Ok_0.node_edge_points[j],
            ),
{
    lemma_parse_points_all_ok(spec_points_array(v)->Some_0, 0);
}

/// The fixed error of each missing or malformed piece. No usable `uuid` fails
/// with "Not found link uuid"; a missing or non-array `node-edge-point` fails
/// with "Not found node edge points list"; and when the entries before
/// position `k` validate while entry `k` carries a usable
/// `node-edge-point-uuid` but no `node-uuid` key, the whole parse aborts with
/// entry `k`'s "Not found node uuid".
pub proof fn lemma_link_error_cases(v: JsonModel, host: Seq<char>, date: Seq<char>, k: int)
    ensures
        uuid_of_field(v, "uuid"@) is None ==> spec_parse_link(v, host, date) == Err::<
            LinkModel,
            Seq<char>,
        >("Not found link uuid"@),
        uuid_of_field(v, "uuid"@) is Some && spec_points_array(v) is None ==> spec_parse_link(
            v,
            host,
            date,
        ) == Err::<LinkModel, Seq<char>>("Not found node edge points list"@),
        ({
            &&& uuid_of_field(v, "uuid"@) is Some
            &&& spec_points_array(v) is Some
            &&& 0 <= k < spec_points_array(v)->Some_0.len()
            &&& forall|j: int|
                0 <= j < k ==> (#[trigger] spec_parse_node_edge_point(
                    spec_points_array(v)->Some_0[j],
                )) is Ok
            &&& uuid_of_field(spec_points_array(v)->Some_0[k], "node-edge-point-uuid"@) is Some
            &&& spec_get(spec_points_array(v)->Some_0[k], "node-uuid"@) is None
        }) ==> spec_parse_link(v, host, date) == Err::<LinkModel, Seq<char>>(
            "Not found node uuid"@,
        ),
{
    if uuid_of_field(v, "uuid"@) is Some && spec_points_array(v) is Some {
        let items = spec_points_array(v)->Some_0;
        if 0 <= k < items.len() && (forall|j: int|
            0 <= j < k ==> (#[trigger] spec_parse_node_edge_point(items[j])) is Ok)
            && uuid_of_field(items[k], "node-edge-point-uuid"@) is Some && spec_get(
            items[k],
            "node-uuid"@,
        ) is None {
            assert(spec_parse_node_edge_point(items[k]) == Err::<NodeEdgePoint, Seq<char>>(
                "Not found node uuid"@,
            ));
            lemma_parse_points_first_err(items, 0, k);
        }
    }
}

/// Re-parsing byte-identical input at another time succeeds alike and yields
/// the same content fingerprint; each record's date is exactly the time
/// sampled for it, so distinct samplings give distinct dates.
pub proof fn lemma_reparse_fingerprint(v: JsonModel, host: Seq<char>, d1: Seq<char>, d2: Seq<char>)
    requires
        spec_parse_link(v, host, d1) is Ok,
    ensures
        spec_parse_link(v, host, d2) is Ok,
        spec_parse_link(v, host, d2)->Ok_0.hash == spec_parse_link(v, host, d1)->Ok_0.hash,
        spec_parse_link(v, host, d1)->Ok_0.date == d1,
        spec_parse_link(v, host, d2)->Ok_0.date == d2,
{
}

/// The serialized entries read back to the records they were rendered from,
/// in order.
proof fn lemma_points_round_trip(neps: Seq<NodeEdgePoint>, i: int)
    requires
        0 <= i <= neps.len(),
        forall|j: int| 0 <= j < neps.len() ==> nep_uuids_round_trip(#[trigger] neps[j]),
    ensures
        spec_parse_points(spec_points_models(neps), i) == Ok::<Seq<NodeEdgePoint>, Seq<char>>(
            neps.skip(i),
        ),
    decreases neps.len() - i,
{
    if i < neps.len() {
        lemma_node_edge_point_round_trip(neps[i]);
        lemma_points_round_trip(neps, i + 1);
        assert(seq![neps[i]] + neps.skip(i + 1) =~= neps.skip(i));
    } else {
        assert(neps.skip(i) =~= Seq::<NodeEdgePoint>::empty());
    }
}

/// Round trip: a serialized link reads back equal in every field, the
/// fingerprint and the date included.
pub proof fn lemma_link_round_trip(l: LinkModel)
    requires
        link_uuids_round_trip(l),
    ensures
        spec_read_back(spec_link_value(l)) == Ok::<LinkModel, Seq<char>>(l),
{
    reveal_strlit("host");
    reveal_strlit("node-edge-point");
    reveal_strlit("uuid");
    reveal_strlit("hash");
    reveal_strlit("date");
    assert("host"@[0] != "uuid"@[0]);
    assert("host"@[1] != "hash"@[1]);
    assert("host"@[0] != "date"@[0]);
    assert("uuid"@[0] != "hash"@[0]);
    assert("uuid"@[0] != "date"@[0]);
    assert("hash"@[0] != "date"@[0]);
    assert("node-edge-point"@.len() != "host"@.len());
    let sv = spec_link_value(l);
    let fields = sv->Object_0;
    assert(obj_lookup_from(fields, "host"@, 0) == Some(JsonModel::Str(l.host)));
    assert(obj_lookup_from(fields, "node-edge-point"@, 1) == Some(
        JsonModel::Array(spec_points_models(l.node_edge_points)),
    ));
    assert(obj_lookup_from(fields, "node-edge-point"@, 0) == obj_lookup_from(
        fields,
        "node-edge-point"@,
        1,
    ));
    assert(obj_lookup_from(fields, "uuid"@, 2) == Some(JsonModel::Str(uuid_text_of_num(l.uuid))));
    assert(obj_lookup_from(fields, "uuid"@, 1) == obj_lookup_from(fields, "uuid"@, 2));
    assert(obj_lookup_from(fields, "uuid"@, 0) == obj_lookup_from(fields, "uuid"@, 1));
    assert(obj_lookup_from(fields, "hash"@, 3) == Some(JsonModel::UInt(l.hash)));
    assert(obj_lookup_from(fields, "hash"@, 2) == obj_lookup_from(fields, "hash"@, 3));
    assert(obj_lookup_from(fields, "hash"@, 1) == obj_lookup_from(fields, "hash"@, 2));
    assert(obj_lookup_from(fields, "hash"@, 0) == obj_lookup_from(fields, "hash"@, 1));
    assert(obj_lookup_from(fields, "date"@, 4) == Some(JsonModel::Str(l.date)));
    assert(obj_lookup_from(fields, "date"@, 3) == obj_lookup_from(fields, "date"@, 4));
    assert(obj_lookup_from(fields, "date"@, 2) == obj_lookup_from(fields, "date"@, 3));
    assert(obj_lookup_from(fields, "date"@, 1) == obj_lookup_from(fields, "date"@, 2));
    assert(obj_lookup_from(fields, "date"@, 0) == obj_lookup_from(fields, "date"@, 1));
    lemma_points_round_trip(l.node_edge_points, 0);
    assert(l.node_edge_points.skip(0) =~= l.node_edge_points);
}

/// Whether a link parse fails, and with which message, does not depend on the
/// sampled date.
pub proof fn lemma_link_date_immaterial_to_errors(
    v: JsonModel,
    host: Seq<char>,
    d1: Seq<char>,
    d2: Seq<char>,
)
    ensures
        spec_parse_link(v, host, d1) is Err ==> spec_parse_link(v, host, d2) == spec_parse_link(
            v,
            host,
            d1,
        ),
{
}

} // verus!
