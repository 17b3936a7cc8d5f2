//! Decoding of the structured sources' JSON summary document into the
//! canonical model.  The unverified edge parses the response body into a
//! [`JsonValue`] tree; everything from the tree to a [`StatusPageSummary`]
//! is decided here.  A document decodes as a whole or not at all: any
//! missing required field or wrongly typed value yields `None`, which the
//! adapter surfaces as a decode failure.

use vstd::prelude::*;
use crate::models::AffectedComponent;
use crate::models::Component;
use crate::models::ComponentStatus;
use crate::models::Incident;
use crate::models::IncidentImpact;
use crate::models::IncidentStatus;
use crate::models::IncidentUpdate;
use crate::models::IncidentUpdateStatus;
use crate::models::MaintenanceStatus;
use crate::models::OverallStatus;
use crate::models::Page;
use crate::models::ScheduledMaintenance;
use crate::models::StatusIndicator;
use crate::models::StatusPageSummary;
use crate::text::str_eq;

verus! {

/// A parsed JSON document.  A number carries its integer value when it has
/// one; an object keeps its fields in wire order.
#[derive(Debug)]
pub enum JsonValue {
    Null,
    Bool(bool),
    Number(Option<i64>),
    Text(String),
    Array(Vec<JsonValue>),
    Object(Vec<JsonField>),
}

/// One field of a JSON object.
#[derive(Debug)]
pub struct JsonField {
    pub key: String,
    pub value: JsonValue,
}

/// The value of the first field named `key`, if any.
pub open spec fn spec_lookup(fields: Seq<JsonField>, key: Seq<char>) -> Option<JsonValue>
    decreases fields.len()
{
    if fields.len() == 0 {
        Option::None
    } else if fields[0].key@ == key {
        Option::Some(fields[0].value)
    } else {
        spec_lookup(fields.drop_first(), key)
    }
}

proof fn lemma_lookup_step(fields: Seq<JsonField>, key: Seq<char>, i: int)
    requires
        0 <= i <= fields.len(),
        forall|k: int| 0 <= k < i ==> fields[k].key@ != key,
    ensures
        spec_lookup(fields, key) == spec_lookup(fields.skip(i), key),
    decreases i,
{
    if i > 0 {
        lemma_lookup_step(fields, key, i - 1);
        assert(fields.skip(i - 1).drop_first() =~= fields.skip(i));
        assert(fields.skip(i - 1)[0] == fields[i - 1]);
    } else {
        assert(fields.skip(0) =~= fields);
    }
}

/// Looks up the first field named `key`.
pub fn lookup<'a>(fields: &'a Vec<JsonField>, key: &str) -> (r: Option<&'a JsonValue>)
    ensures
        match r {
            Option::Some(v) => spec_lookup(fields@, key@) == Option::Some(*v),
            Option::None => spec_lookup(fields@, key@) is None,
        },
{
    let mut i: usize = 0;
    while i < fields.len()
        invariant
            i <= fields@.len(),
            forall|k: int| 0 <= k < i ==> fields@[k].key@ != key@,
        decreases fields@.len() - i,
    {
        if str_eq(fields[i].key.as_str(), key) {
            proof {
                lemma_lookup_step(fields@, key@, i as int);
                assert(fields@.skip(i as int)[0] == fields@[i as int]);
            }
            return Option::Some(&fields[i].value);
        }
        i = i + 1;
    }
    proof {
        lemma_lookup_step(fields@, key@, fields@.len() as int);
        assert(fields@.skip(fields@.len() as int) =~= Seq::<JsonField>::empty());
    }
    Option::None
}

/// A required string field: present and textual.
pub open spec fn spec_req_string(fields: Seq<JsonField>, key: Seq<char>) -> Option<String> {
    match spec_lookup(fields, key) {
        Option::Some(JsonValue::Text(s)) => Option::Some(s),
        _ => Option::None,
    }
}

/// Reads a required string field.
pub fn req_string(fields: &Vec<JsonField>, key: &str) -> (r: Option<String>)
    ensures
        r == spec_req_string(fields@, key@),
{
    match lookup(fields, key) {
        Option::Some(JsonValue::Text(s)) => Option::Some(s.clone()),
        _ => Option::None,
    }
}

/// An optional string field: absent and `null` read as `None`; a wrongly
/// typed value fails the decode.
pub open spec fn spec_opt_string(fields: Seq<JsonField>, key: Seq<char>) -> Option<
    Option<String>,
> {
    match spec_lookup(fields, key) {
        Option::None => Option::Some(Option::None),
        Option::Some(JsonValue::Null) => Option::Some(Option::None),
        Option::Some(JsonValue::Text(s)) => Option::Some(Option::Some(s)),
        _ => Option::None,
    }
}

/// Reads an optional string field.
pub fn opt_string(fields: &Vec<JsonField>, key: &str) -> (r: Option<Option<String>>)
    ensures
        r == spec_opt_string(fields@, key@),
{
    match lookup(fields, key) {
        Option::None => Option::Some(Option::None),
        Option::Some(JsonValue::Null) => Option::Some(Option::None),
        Option::Some(JsonValue::Text(s)) => Option::Some(Option::Some(s.clone())),
        _ => Option::None,
    }
}

/// An optional boolean field: absent and `null` read as `None`.
pub open spec fn spec_opt_bool(fields: Seq<JsonField>, key: Seq<char>) -> Option<Option<bool>> {
    match spec_lookup(fields, key) {
        Option::None => Option::Some(Option::None),
        Option::Some(JsonValue::Null) => Option::Some(Option::None),
        Option::Some(JsonValue::Bool(b)) => Option::Some(Option::Some(b)),
        _ => Option::None,
    }
}

/// Reads an optional boolean field.
pub fn opt_bool(fields: &Vec<JsonField>, key: &str) -> (r: Option<Option<bool>>)
    ensures
        r == spec_opt_bool(fields@, key@),
{
    match lookup(fields, key) {
        Option::None => Option::Some(Option::None),
        Option::Some(JsonValue::Null) => Option::Some(Option::None),
        Option::Some(JsonValue::Bool(b)) => Option::Some(Option::Some(*b)),
        _ => Option::None,
    }
}

/// A boolean field that defaults to `false` when absent.
pub open spec fn spec_default_bool(fields: Seq<JsonField>, key: Seq<char>) -> Option<bool> {
    match spec_lookup(fields, key) {
        Option::None => Option::Some(false),
        Option::Some(JsonValue::Bool(b)) => Option::Some(b),
        _ => Option::None,
    }
}

/// Reads a boolean field that defaults to `false` when absent.
pub fn default_bool(fields: &Vec<JsonField>, key: &str) -> (r: Option<bool>)
    ensures
        r == spec_default_bool(fields@, key@),
{
    match lookup(fields, key) {
        Option::None => Option::Some(false),
        Option::Some(JsonValue::Bool(b)) => Option::Some(*b),
        _ => Option::None,
    }
}

/// A required nonnegative integer field that fits in 32 bits.
pub open spec fn spec_req_u32(fields: Seq<JsonField>, key: Seq<char>) -> Option<u32> {
    match spec_lookup(fields, key) {
        Option::Some(JsonValue::Number(Option::Some(n))) => if 0 <= n <= u32::MAX {
            Option::Some(n as u32)
        } else {
            Option::None
        },
        _ => Option::None,
    }
}

/// Reads a required 32-bit nonnegative integer field.
pub fn req_u32(fields: &Vec<JsonField>, key: &str) -> (r: Option<u32>)
    ensures
        r == spec_req_u32(fields@, key@),
{
    match lookup(fields, key) {
        Option::Some(JsonValue::Number(Option::Some(n))) => {
            let n = *n;
            if 0 <= n && n <= u32::MAX as i64 {
                Option::Some(n as u32)
            } else {
                Option::None
            }
        },
        _ => Option::None,
    }
}

/// The fields of an object value.
pub open spec fn obj_fields(v: JsonValue) -> Option<Seq<JsonField>> {
    match v {
        JsonValue::Object(fields) => Option::Some(fields@),
        _ => Option::None,
    }
}

/// The value is an object whose `indicator` and `description` fields are
/// strings.
pub open spec fn overall_ok(v: JsonValue) -> bool {
    &&& obj_fields(v) matches Option::Some(f)
    &&& spec_req_string(f, "indicator"@) is Some
    &&& spec_req_string(f, "description"@) is Some
}

/// `o` is the overall status the object denotes: the indicator string run
/// through the closed indicator vocabulary, the description kept verbatim.
pub open spec fn overall_decodes_to(v: JsonValue, o: OverallStatus) -> bool {
    &&& overall_ok(v)
    &&& obj_fields(v) matches Option::Some(f)
    &&& spec_req_string(f, "indicator"@) matches Option::Some(ind) && o.indicator
        == StatusIndicator::spec_from_wire(ind@)
    &&& Option::Some(o.description) == spec_req_string(f, "description"@)
}

/// Decodes the page-wide status object.
pub fn decode_overall(v: &JsonValue) -> (r: Option<OverallStatus>)
    ensures
        r is Some <==> overall_ok(*v),
        r matches Option::Some(o) ==> overall_decodes_to(*v, o),
{
    let fields = match v {
        JsonValue::Object(fields) => fields,
        _ => {
            return Option::None;
        },
    };
    let indicator = match req_string(fields, "indicator") {
        Option::Some(s) => s,
        Option::None => {
            return Option::None;
        },
    };
    let description = match req_string(fields, "description") {
        Option::Some(s) => s,
        Option::None => {
            return Option::None;
        },
    };
    Option::Some(OverallStatus { indicator: StatusIndicator::from_wire(indicator.as_str()), description })
}

/// The value is an object carrying the page identity fields.
pub open spec fn page_ok(v: JsonValue) -> bool {
    &&& obj_fields(v) matches Option::Some(f)
    &&& spec_req_string(f, "id"@) is Some
    &&& spec_req_string(f, "name"@) is Some
    &&& spec_req_string(f, "url"@) is Some
    &&& spec_req_string(f, "updated_at"@) is Some
    &&& spec_opt_string(f, "time_zone"@) is Some
}

/// `p` is the page record the object denotes.
pub open spec fn page_decodes_to(v: JsonValue, p: Page) -> bool {
    &&& page_ok(v)
    &&& obj_fields(v) matches Option::Some(f)
    &&& Option::Some(p.id) == spec_req_string(f, "id"@)
    &&& Option::Some(p.name) == spec_req_string(f, "name"@)
    &&& Option::Some(p.url) == spec_req_string(f, "url"@)
    &&& Option::Some(p.updated_at) == spec_req_string(f, "updated_at"@)
    &&& Option::Some(p.time_zone) == spec_opt_string(f, "time_zone"@)
}

/// Decodes the page identity object.
pub fn decode_page(v: &JsonValue) -> (r: Option<Page>)
    ensures
        r is Some <==> page_ok(*v),
        r matches Option::Some(p) ==> page_decodes_to(*v, p),
{
    let fields = match v {
        JsonValue::Object(fields) => fields,
        _ => {
            return Option::None;
        },
    };
    let id = match req_string(fields, "id") {
        Option::Some(s) => s,
        Option::None => {
            return Option::None;
        },
    };
    let name = match req_string(fields, "name") {
        Option::Some(s) => s,
        Option::None => {
            return Option::None;
        },
    };
    let url = match req_string(fields, "url") {
        Option::Some(s) => s,
        Option::None => {
            return Option::None;
        },
    };
    let updated_at = match req_string(fields, "updated_at") {
        Option::Some(s) => s,
        Option::None => {
            return Option::None;
        },
    };
    let time_zone = match opt_string(fields, "time_zone") {
        Option::Some(t) => t,
        Option::None => {
            return Option::None;
        },
    };
    Option::Some(Page { id, name, url, updated_at, time_zone })
}

/// The value is an object carrying every component field in its wire type.
pub open spec fn component_ok(v: JsonValue) -> bool {
    &&& obj_fields(v) matches Option::Some(f)
    &&& spec_req_string(f, "id"@) is Some
    &&& spec_req_string(f, "name"@) is Some
    &&& spec_req_string(f, "status"@) is Some
    &&& spec_req_string(f, "created_at"@) is Some
    &&& spec_req_string(f, "updated_at"@) is Some
    &&& spec_req_u32(f, "position"@) is Some
    &&& spec_opt_string(f, "description"@) is Some
    &&& spec_opt_string(f, "group_id"@) is Some
    &&& spec_opt_bool(f, "group"@) is Some
    &&& spec_default_bool(f, "only_show_if_degraded"@) is Some
}

/// `c` is the component the object denotes; its status string runs through
/// the closed component vocabulary.
pub open spec fn component_decodes_to(v: JsonValue, c: Component) -> bool {
    &&& component_ok(v)
    &&& obj_fields(v) matches Option::Some(f)
    &&& Option::Some(c.id) == spec_req_string(f, "id"@)
    &&& Option::Some(c.name) == spec_req_string(f, "name"@)
    &&& spec_req_string(f, "status"@) matches Option::Some(s) && c.status
        == ComponentStatus::spec_from_wire(s@)
    &&& Option::Some(c.created_at) == spec_req_string(f, "created_at"@)
    &&& Option::Some(c.updated_at) == spec_req_string(f, "updated_at"@)
    &&& Option::Some(c.position) == spec_req_u32(f, "position"@)
    &&& Option::Some(c.description) == spec_opt_string(f, "description"@)
    &&& Option::Some(c.group_id) == spec_opt_string(f, "group_id"@)
    &&& Option::Some(c.group) == spec_opt_bool(f, "group"@)
    &&& Option::Some(c.only_show_if_degraded) == spec_default_bool(f, "only_show_if_degraded"@)
}

/// Decodes one component object.
pub fn decode_component(v: &JsonValue) -> (r: Option<Component>)
    ensures
        r is Some <==> component_ok(*v),
        r matches Option::Some(c) ==> component_decodes_to(*v, c),
{
    let fields = match v {
        JsonValue::Object(fields) => fields,
        _ => {
            return Option::None;
        },
    };
    let id = match req_string(fields, "id") {
        Option::Some(s) => s,
        Option::None => {
            return Option::None;
        },
    };
    let name = match req_string(fields, "name") {
        Option::Some(s) => s,
        Option::None => {
            return Option::None;
        },
    };
    let status_s = match req_string(fields, "status") {
        Option::Some(s) => s,
        Option::None => {
            return Option::None;
        },
    };
    let created_at = match req_string(fields, "created_at") {
        Option::Some(s) => s,
        Option::None => {
            return Option::None;
        },
    };
    let updated_at = match req_string(fields, "updated_at") {
        Option::Some(s) => s,
        Option::None => {
            return Option::None;
        },
    };
    let position = match req_u32(fields, "position") {
        Option::Some(n) => n,
        Option::None => {
            return Option::None;
        },
    };
    let description = match opt_string(fields, "description") {
        Option::Some(t) => t,
        Option::None => {
            return Option::None;
        },
    };
    let group_id = match opt_string(fields, "group_id") {
        Option::Some(t) => t,
        Option::None => {
            return Option::None;
        },
    };
    let group = match opt_bool(fields, "group") {
        Option::Some(t) => t,
        Option::None => {
            return Option::None;
        },
    };
    let only_show_if_degraded = match default_bool(fields, "only_show_if_degraded") {
        Option::Some(b) => b,
        Option::None => {
            return Option::None;
        },
    };
    Option::Some(
        Component {
            id,
            name,
            status: ComponentStatus::from_wire(status_s.as_str()),
            created_at,
            updated_at,
            position,
            description,
            group_id,
            group,
            only_show_if_degraded,
        },
    )
}

/// Every element of the array is a well-formed component object.
pub open spec fn components_ok(a: Seq<JsonValue>) -> bool {
    forall|k: int| 0 <= k < a.len() ==> component_ok(#[trigger] a[k])
}

/// `s` holds the components the array denotes, one per element, in array
/// order.
pub open spec fn components_decode_to(a: Seq<JsonValue>, s: Seq<Component>) -> bool {
    &&& s.len() == a.len()
    &&& forall|k: int| 0 <= k < a.len() ==> component_decodes_to(#[trigger] a[k], s[k])
}

/// Decodes an array of component objects, keeping the array order.
pub fn decode_components(a: &Vec<JsonValue>) -> (r: Option<Vec<Component>>)
    ensures
        r is Some <==> components_ok(a@),
        r matches Option::Some(s) ==> components_decode_to(a@, s@),
{
    let mut out: Vec<Component> = Vec::new();
    let mut i: usize = 0;
    while i < a.len()
        invariant
            i <= a@.len(),
            out@.len() == i,
            forall|k: int| 0 <= k < i ==> component_decodes_to(#[trigger] a@[k], out@[k]),
        decreases a@.len() - i,
    {
        match decode_component(&a[i]) {
            Option::Some(c) => out.push(c),
            Option::None => {
                return Option::None;
            },
        }
        i = i + 1;
    }
    Option::Some(out)
}

/// The value is an object whose every field value is a string.
pub open spec fn affected_ok(v: JsonValue) -> bool {
    &&& obj_fields(v) matches Option::Some(f)
    &&& forall|k: int| 0 <= k < f.len() ==> (#[trigger] f[k].value) is Text
}

/// `a` holds the object's key/value pairs, in wire order.
pub open spec fn affected_decodes_to(v: JsonValue, a: AffectedComponent) -> bool {
    &&& affected_ok(v)
    &&& obj_fields(v) matches Option::Some(f)
    &&& a.entries@.len() == f.len()
    &&& forall|k: int| 0 <= k < f.len() ==> ((#[trigger] f[k].value) matches JsonValue::Text(s)
        && a.entries@[k] == (f[k].key, s))
}

/// Decodes one affected-component object into its key/value pairs.
pub fn decode_affected(v: &JsonValue) -> (r: Option<AffectedComponent>)
    ensures
        r is Some <==> affected_ok(*v),
        r matches Option::Some(a) ==> affected_decodes_to(*v, a),
{
    let fields = match v {
        JsonValue::Object(fields) => fields,
        _ => {
            return Option::None;
        },
    };
    let mut entries: Vec<(String, String)> = Vec::new();
    let mut i: usize = 0;
    while i < fields.len()
        invariant
            i <= fields@.len(),
            entries@.len() == i,
            obj_fields(*v) == Option::Some(fields@),
            forall|k: int| 0 <= k < i ==> ((#[trigger] fields@[k].value) matches JsonValue::Text(
                s,
            ) && entries@[k] == (fields@[k].key, s)),
        decreases fields@.len() - i,
    {
        match &fields[i].value {
            JsonValue::Text(s) => {
                entries.push((fields[i].key.clone(), s.clone()));
            },
            _ => {
                assert(!(fields@[i as int].value is Text));
                return Option::None;
            },
        }
        i = i + 1;
    }
    Option::Some(AffectedComponent { entries })
}

/// Every element of the array is a well-formed affected-component object.
pub open spec fn affected_list_ok(a: Seq<JsonValue>) -> bool {
    forall|k: int| 0 <= k < a.len() ==> affected_ok(#[trigger] a[k])
}

/// `s` holds the affected-component records the array denotes, in order.
pub open spec fn affected_list_decodes_to(a: Seq<JsonValue>, s: Seq<AffectedComponent>) -> bool {
    &&& s.len() == a.len()
    &&& forall|k: int| 0 <= k < a.len() ==> affected_decodes_to(#[trigger] a[k], s[k])
}

/// Decodes an array of affected-component objects.
pub fn decode_affected_list(a: &Vec<JsonValue>) -> (r: Option<Vec<AffectedComponent>>)
    ensures
        r is Some <==> affected_list_ok(a@),
        r matches Option::Some(s) ==> affected_list_decodes_to(a@, s@),
{
    let mut out: Vec<AffectedComponent> = Vec::new();
    let mut i: usize = 0;
    while i < a.len()
        invariant
            i <= a@.len(),
            out@.len() == i,
            forall|k: int| 0 <= k < i ==> affected_decodes_to(#[trigger] a@[k], out@[k]),
        decreases a@.len() - i,
    {
        match decode_affected(&a[i]) {
            Option::Some(x) => out.push(x),
            Option::None => {
                return Option::None;
            },
        }
        i = i + 1;
    }
    Option::Some(out)
}

/// The `affected_components` field is absent, `null`, or an array of
/// well-formed affected-component objects.
pub open spec fn update_affected_ok(f: Seq<JsonField>) -> bool {
    match spec_lookup(f, "affected_components"@) {
        Option::None => true,
        Option::Some(JsonValue::Null) => true,
        Option::Some(JsonValue::Array(arr)) => affected_list_ok(arr@),
        _ => false,
    }
}

/// `ac` is what the `affected_components` field denotes: `None` when absent
/// or `null`, otherwise the decoded array.
pub open spec fn update_affected_decodes_to(
    f: Seq<JsonField>,
    ac: Option<Vec<AffectedComponent>>,
) -> bool {
    match spec_lookup(f, "affected_components"@) {
        Option::None => ac is None,
        Option::Some(JsonValue::Null) => ac is None,
        Option::Some(JsonValue::Array(arr)) => ac matches Option::Some(list)
            && affected_list_decodes_to(arr@, list@),
        _ => false,
    }
}

/// The value is an object carrying every update-entry field in its wire type.
pub open spec fn update_ok(v: JsonValue) -> bool {
    &&& obj_fields(v) matches Option::Some(f)
    &&& spec_req_string(f, "id"@) is Some
    &&& spec_req_string(f, "status"@) is Some
    &&& spec_req_string(f, "body"@) is Some
    &&& spec_opt_string(f, "display_at"@) is Some
    &&& spec_opt_string(f, "incident_id"@) is Some
    &&& update_affected_ok(f)
    &&& spec_opt_bool(f, "delights_resolved"@) is Some
}

/// `u` is the update entry the object denotes; its status string runs through
/// the closed update vocabulary.
pub open spec fn update_decodes_to(v: JsonValue, u: IncidentUpdate) -> bool {
    &&& update_ok(v)
    &&& obj_fields(v) matches Option::Some(f)
    &&& Option::Some(u.id) == spec_req_string(f, "id"@)
    &&& spec_req_string(f, "status"@) matches Option::Some(s) && u.status
        == IncidentUpdateStatus::spec_from_wire(s@)
    &&& Option::Some(u.body) == spec_req_string(f, "body"@)
    &&& Option::Some(u.display_at) == spec_opt_string(f, "display_at"@)
    &&& Option::Some(u.incident_id) == spec_opt_string(f, "incident_id"@)
    &&& update_affected_decodes_to(f, u.affected_components)
    &&& Option::Some(u.delights_resolved) == spec_opt_bool(f, "delights_resolved"@)
}

/// Decodes one update-entry object.
pub fn decode_update(v: &JsonValue) -> (r: Option<IncidentUpdate>)
    ensures
        r is Some <==> update_ok(*v),
        r matches Option::Some(u) ==> update_decodes_to(*v, u),
{
    let fields = match v {
        JsonValue::Object(fields) => fields,
        _ => {
            return Option::None;
        },
    };
    let id = match req_string(fields, "id") {
        Option::Some(s) => s,
        Option::None => {
            return Option::None;
        },
    };
    let status_s = match req_string(fields, "status") {
        Option::Some(s) => s,
        Option::None => {
            return Option::None;
        },
    };
    let body = match req_string(fields, "body") {
        Option::Some(s) => s,
        Option::None => {
            return Option::None;
        },
    };
    let display_at = match opt_string(fields, "display_at") {
        Option::Some(t) => t,
        Option::None => {
            return Option::None;
        },
    };
    let incident_id = match opt_string(fields, "incident_id") {
        Option::Some(t) => t,
        Option::None => {
            return Option::None;
        },
    };
    let affected_components = match lookup(fields, "affected_components") {
        Option::None => Option::None,
        Option::Some(JsonValue::Null) => Option::None,
        Option::Some(JsonValue::Array(arr)) => {
            match decode_affected_list(arr) {
                Option::Some(list) => Option::Some(list),
                Option::None => {
                    return Option::None;
                },
            }
        },
        _ => {
            return Option::None;
        },
    };
    let delights_resolved = match opt_bool(fields, "delights_resolved") {
        Option::Some(t) => t,
        Option::None => {
            return Option::None;
        },
    };
    Option::Some(
        IncidentUpdate {
            id,
            status: IncidentUpdateStatus::from_wire(status_s.as_str()),
            body,
            display_at,
            incident_id,
            affected_components,
            delights_resolved,
        },
    )
}

/// Every element of the array is a well-formed update-entry object.
pub open spec fn updates_ok(a: Seq<JsonValue>) -> bool {
    forall|k: int| 0 <= k < a.len() ==> update_ok(#[trigger] a[k])
}

/// `s` holds the update entries the array denotes, in order.
pub open spec fn updates_decode_to(a: Seq<JsonValue>, s: Seq<IncidentUpdate>) -> bool {
    &&& s.len() == a.len()
    &&& forall|k: int| 0 <= k < a.len() ==> update_decodes_to(#[trigger] a[k], s[k])
}

/// Decodes an array of update-entry objects, keeping the array order.
pub fn decode_updates(a: &Vec<JsonValue>) -> (r: Option<Vec<IncidentUpdate>>)
    ensures
        r is Some <==> updates_ok(a@),
        r matches Option::Some(s) ==> updates_decode_to(a@, s@),
{
    let mut out: Vec<IncidentUpdate> = Vec::new();
    let mut i: usize = 0;
    while i < a.len()
        invariant
            i <= a@.len(),
            out@.len() == i,
            forall|k: int| 0 <= k < i ==> update_decodes_to(#[trigger] a@[k], out@[k]),
        decreases a@.len() - i,
    {
        match decode_update(&a[i]) {
            Option::Some(u) => out.push(u),
            Option::None => {
                return Option::None;
            },
        }
        i = i + 1;
    }
    Option::Some(out)
}

/// The `incident_updates` field is an array of well-formed update entries.
pub open spec fn record_updates_ok(f: Seq<JsonField>) -> bool {
    spec_lookup(f, "incident_updates"@) matches Option::Some(JsonValue::Array(arr))
        && updates_ok(arr@)
}

/// `s` is what the `incident_updates` field denotes.
pub open spec fn record_updates_decode_to(f: Seq<JsonField>, s: Seq<IncidentUpdate>) -> bool {
    spec_lookup(f, "incident_updates"@) matches Option::Some(JsonValue::Array(arr))
        && updates_decode_to(arr@, s)
}

/// The value is an object carrying every incident field in its wire type.
pub open spec fn incident_ok(v: JsonValue) -> bool {
    &&& obj_fields(v) matches Option::Some(f)
    &&& spec_req_string(f, "id"@) is Some
    &&& spec_req_string(f, "name"@) is Some
    &&& spec_req_string(f, "status"@) is Some
    &&& spec_req_string(f, "created_at"@) is Some
    &&& spec_req_string(f, "updated_at"@) is Some
    &&& spec_opt_string(f, "monitoring_at"@) is Some
    &&& spec_opt_string(f, "resolved_at"@) is Some
    &&& spec_req_string(f, "impact"@) is Some
    &&& spec_opt_string(f, "shortlink"@) is Some
    &&& spec_opt_string(f, "page_id"@) is Some
    &&& record_updates_ok(f)
    &&& spec_opt_string(f, "scheduled_for"@) is Some
    &&& spec_opt_string(f, "scheduled_until"@) is Some
    &&& spec_opt_bool(f, "automated"@) is Some
}

/// `x` is the incident the object denotes; its status and impact strings run
/// through their closed vocabularies.
pub open spec fn incident_decodes_to(v: JsonValue, x: Incident) -> bool {
    &&& incident_ok(v)
    &&& obj_fields(v) matches Option::Some(f)
    &&& Option::Some(x.id) == spec_req_string(f, "id"@)
    &&& Option::Some(x.name) == spec_req_string(f, "name"@)
    &&& spec_req_string(f, "status"@) matches Option::Some(s) && x.status
        == IncidentStatus::spec_from_wire(s@)
    &&& Option::Some(x.created_at) == spec_req_string(f, "created_at"@)
    &&& Option::Some(x.updated_at) == spec_req_string(f, "updated_at"@)
    &&& Option::Some(x.monitoring_at) == spec_opt_string(f, "monitoring_at"@)
    &&& Option::Some(x.resolved_at) == spec_opt_string(f, "resolved_at"@)
    &&& spec_req_string(f, "impact"@) matches Option::Some(imp) && x.impact
        == IncidentImpact::spec_from_wire(imp@)
    &&& Option::Some(x.shortlink) == spec_opt_string(f, "shortlink"@)
    &&& Option::Some(x.page_id) == spec_opt_string(f, "page_id"@)
    &&& record_updates_decode_to(f, x.incident_updates@)
    &&& Option::Some(x.scheduled_for) == spec_opt_string(f, "scheduled_for"@)
    &&& Option::Some(x.scheduled_until) == spec_opt_string(f, "scheduled_until"@)
    &&& Option::Some(x.automated) == spec_opt_bool(f, "automated"@)
}

/// Decodes one incident object.
pub fn decode_incident(v: &JsonValue) -> (r: Option<Incident>)
    ensures
        r is Some <==> incident_ok(*v),
        r matches Option::Some(x) ==> incident_decodes_to(*v, x),
{
    let fields = match v {
        JsonValue::Object(fields) => fields,
        _ => {
            return Option::None;
        },
    };
    let id = match req_string(fields, "id") {
        Option::Some(s) => s,
        Option::None => {
            return Option::None;
        },
    };
    let name = match req_string(fields, "name") {
        Option::Some(s) => s,
        Option::None => {
            return Option::None;
        },
    };
    let status_s = match req_string(fields, "status") {
        Option::Some(s) => s,
        Option::None => {
            return Option::None;
        },
    };
    let created_at = match req_string(fields, "created_at") {
        Option::Some(s) => s,
        Option::None => {
            return Option::None;
        },
    };
    let updated_at = match req_string(fields, "updated_at") {
        Option::Some(s) => s,
        Option::None => {
            return Option::None;
        },
    };
    let monitoring_at = match opt_string(fields, "monitoring_at") {
        Option::Some(t) => t,
        Option::None => {
            return Option::None;
        },
    };
    let resolved_at = match opt_string(fields, "resolved_at") {
        Option::Some(t) => t,
        Option::None => {
            return Option::None;
        },
    };
    let impact_s = match req_string(fields, "impact") {
        Option::Some(s) => s,
        Option::None => {
            return Option::None;
        },
    };
    let shortlink = match opt_string(fields, "shortlink") {
        Option::Some(t) => t,
        Option::None => {
            return Option::None;
        },
    };
    let page_id = match opt_string(fields, "page_id") {
        Option::Some(t) => t,
        Option::None => {
            return Option::None;
        },
    };
    let incident_updates = match lookup(fields, "incident_updates") {
        Option::Some(JsonValue::Array(arr)) => {
            match decode_updates(arr) {
                Option::Some(list) => list,
                Option::None => {
                    return Option::None;
                },
            }
        },
        _ => {
            return Option::None;
        },
    };
    let scheduled_for = match opt_string(fields, "scheduled_for") {
        Option::Some(t) => t,
        Option::None => {
            return Option::None;
        },
    };
    let scheduled_until = match opt_string(fields, "scheduled_until") {
        Option::Some(t) => t,
        Option::None => {
            return Option::None;
        },
    };
    let automated = match opt_bool(fields, "automated") {
        Option::Some(t) => t,
        Option::None => {
            return Option::None;
        },
    };
    Option::Some(
        Incident {
            id,
            name,
            status: IncidentStatus::from_wire(status_s.as_str()),
            created_at,
            updated_at,
            monitoring_at,
            resolved_at,
            impact: IncidentImpact::from_wire(impact_s.as_str()),
            shortlink,
            page_id,
            incident_updates,
            scheduled_for,
            scheduled_until,
            automated,
        },
    )
}

/// Every element of the array is a well-formed incident object.
pub open spec fn incidents_ok(a: Seq<JsonValue>) -> bool {
    forall|k: int| 0 <= k < a.len() ==> incident_ok(#[trigger] a[k])
}

/// `s` holds the incidents the array denotes, in order.
pub open spec fn incidents_decode_to(a: Seq<JsonValue>, s: Seq<Incident>) -> bool {
    &&& s.len() == a.len()
    &&& forall|k: int| 0 <= k < a.len() ==> incident_decodes_to(#[trigger] a[k], s[k])
}

/// Decodes an array of incident objects, keeping the array order.
pub fn decode_incidents(a: &Vec<JsonValue>) -> (r: Option<Vec<Incident>>)
    ensures
        r is Some <==> incidents_ok(a@),
        r matches Option::Some(s) ==> incidents_decode_to(a@, s@),
{
    let mut out: Vec<Incident> = Vec::new();
    let mut i: usize = 0;
    while i < a.len()
        invariant
            i <= a@.len(),
            out@.len() == i,
            forall|k: int| 0 <= k < i ==> incident_decodes_to(#[trigger] a@[k], out@[k]),
        decreases a@.len() - i,
    {
        match decode_incident(&a[i]) {
            Option::Some(x) => out.push(x),
            Option::None => {
                return Option::None;
            },
        }
        i = i + 1;
    }
    Option::Some(out)
}

/// The value is an object carrying every maintenance field in its wire type.
pub open spec fn maintenance_ok(v: JsonValue) -> bool {
    &&& obj_fields(v) matches Option::Some(f)
    &&& spec_req_string(f, "id"@) is Some
    &&& spec_req_string(f, "name"@) is Some
    &&& spec_req_string(f, "status"@) is Some
    &&& spec_req_string(f, "created_at"@) is Some
    &&& spec_req_string(f, "updated_at"@) is Some
    &&& spec_opt_string(f, "monitoring_at"@) is Some
    &&& spec_opt_string(f, "resolved_at"@) is Some
    &&& spec_opt_string(f, "shortlink"@) is Some
    &&& record_updates_ok(f)
    &&& spec_opt_string(f, "scheduled_for"@) is Some
    &&& spec_opt_string(f, "scheduled_until"@) is Some
    &&& spec_opt_bool(f, "automated"@) is Some
}

/// `m` is the maintenance record the object denotes; its status string runs
/// through the closed maintenance vocabulary.
pub open spec fn maintenance_decodes_to(v: JsonValue, m: ScheduledMaintenance) -> bool {
    &&& maintenance_ok(v)
    &&& obj_fields(v) matches Option::Some(f)
    &&& Option::Some(m.id) == spec_req_string(f, "id"@)
    &&& Option::Some(m.name) == spec_req_string(f, "name"@)
    &&& spec_req_string(f, "status"@) matches Option::Some(s) && m.status
        == MaintenanceStatus::spec_from_wire(s@)
    &&& Option::Some(m.created_at) == spec_req_string(f, "created_at"@)
    &&& Option::Some(m.updated_at) == spec_req_string(f, "updated_at"@)
    &&& Option::Some(m.monitoring_at) == spec_opt_string(f, "monitoring_at"@)
    &&& Option::Some(m.resolved_at) == spec_opt_string(f, "resolved_at"@)
    &&& Option::Some(m.shortlink) == spec_opt_string(f, "shortlink"@)
    &&& record_updates_decode_to(f, m.incident_updates@)
    &&& Option::Some(m.scheduled_for) == spec_opt_string(f, "scheduled_for"@)
    &&& Option::Some(m.scheduled_until) == spec_opt_string(f, "scheduled_until"@)
    &&& Option::Some(m.automated) == spec_opt_bool(f, "automated"@)
}

/// Decodes one maintenance object.
pub fn decode_maintenance(v: &JsonValue) -> (r: Option<ScheduledMaintenance>)
    ensures
        r is Some <==> maintenance_ok(*v),
        r matches Option::Some(m) ==> maintenance_decodes_to(*v, m),
{
    let fields = match v {
        JsonValue::Object(fields) => fields,
        _ => {
            return Option::None;
        },
    };
    let id = match req_string(fields, "id") {
        Option::Some(s) => s,
        Option::None => {
            return Option::None;
        },
    };
    let name = match req_string(fields, "name") {
        Option::Some(s) => s,
        Option::None => {
            return Option::None;
        },
    };
    let status_s = match req_string(fields, "status") {
        Option::Some(s) => s,
        Option::None => {
            return Option::None;
        },
    };
    let created_at = match req_string(fields, "created_at") {
        Option::Some(s) => s,
        Option::None => {
            return Option::None;
        },
    };
    let updated_at = match req_string(fields, "updated_at") {
        Option::Some(s) => s,
        Option::None => {
            return Option::None;
        },
    };
    let monitoring_at = match opt_string(fields, "monitoring_at") {
        Option::Some(t) => t,
        Option::None => {
            return Option::None;
        },
    };
    let resolved_at = match opt_string(fields, "resolved_at") {
        Option::Some(t) => t,
        Option::None => {
            return Option::None;
        },
    };
    let shortlink = match opt_string(fields, "shortlink") {
        Option::Some(t) => t,
        Option::None => {
            return Option::None;
        },
    };
    let incident_updates = match lookup(fields, "incident_updates") {
        Option::Some(JsonValue::Array(arr)) => {
            match decode_updates(arr) {
                Option::Some(list) => list,
                Option::None => {
                    return Option::None;
                },
            }
        },
        _ => {
            return Option::None;
        },
    };
    let scheduled_for = match opt_string(fields, "scheduled_for") {
        Option::Some(t) => t,
        Option::None => {
            return Option::None;
        },
    };
    let scheduled_until = match opt_string(fields, "scheduled_until") {
        Option::Some(t) => t,
        Option::None => {
            return Option::None;
        },
    };
    let automated = match opt_bool(fields, "automated") {
        Option::Some(t) => t,
        Option::None => {
            return Option::None;
        },
    };
    Option::Some(
        ScheduledMaintenance {
            id,
            name,
            status: MaintenanceStatus::from_wire(status_s.as_str()),
            created_at,
            updated_at,
            monitoring_at,
            resolved_at,
            shortlink,
            incident_updates,
            scheduled_for,
            scheduled_until,
            automated,
        },
    )
}

/// Every element of the array is a well-formed maintenance object.
pub open spec fn maintenances_ok(a: Seq<JsonValue>) -> bool {
    forall|k: int| 0 <= k < a.len() ==> maintenance_ok(#[trigger] a[k])
}

/// `s` holds the maintenance records the array denotes, in order.
pub open spec fn maintenances_decode_to(a: Seq<JsonValue>, s: Seq<ScheduledMaintenance>) -> bool {
    &&& s.len() == a.len()
    &&& forall|k: int| 0 <= k < a.len() ==> maintenance_decodes_to(#[trigger] a[k], s[k])
}

/// Decodes an array of maintenance objects, keeping the array order.
pub fn decode_maintenances(a: &Vec<JsonValue>) -> (r: Option<Vec<ScheduledMaintenance>>)
    ensures
        r is Some <==> maintenances_ok(a@),
        r matches Option::Some(s) ==> maintenances_decode_to(a@, s@),
{
    let mut out: Vec<ScheduledMaintenance> = Vec::new();
    let mut i: usize = 0;
    while i < a.len()
        invariant
            i <= a@.len(),
            out@.len() == i,
            forall|k: int| 0 <= k < i ==> maintenance_decodes_to(#[trigger] a@[k], out@[k]),
        decreases a@.len() - i,
    {
        match decode_maintenance(&a[i]) {
            Option::Some(m) => out.push(m),
            Option::None => {
                return Option::None;
            },
        }
        i = i + 1;
    }
    Option::Some(out)
}

/// The document is a well-formed summary: `page`, `components` and `status`
/// are present and well-formed; `incidents` and `scheduled_maintenances` may
/// be absent (they default to empty) but must be well-formed arrays when
/// present.
pub open spec fn summary_ok(v: JsonValue) -> bool {
    &&& obj_fields(v) matches Option::Some(f)
    &&& spec_lookup(f, "page"@) matches Option::Some(pv) && page_ok(pv)
    &&& spec_lookup(f, "components"@) matches Option::Some(JsonValue::Array(arr))
        && components_ok(arr@)
    &&& match spec_lookup(f, "incidents"@) {
        Option::None => true,
        Option::Some(JsonValue::Array(arr)) => incidents_ok(arr@),
        _ => false,
    }
    &&& match spec_lookup(f, "scheduled_maintenances"@) {
        Option::None => true,
        Option::Some(JsonValue::Array(arr)) => maintenances_ok(arr@),
        _ => false,
    }
    &&& spec_lookup(f, "status"@) matches Option::Some(sv) && overall_ok(sv)
}

/// `s` is the canonical snapshot the document denotes.  In particular the
/// components keep the length and order of the wire array.
pub open spec fn summary_decodes_to(v: JsonValue, s: StatusPageSummary) -> bool {
    &&& summary_ok(v)
    &&& obj_fields(v) matches Option::Some(f)
    &&& spec_lookup(f, "page"@) matches Option::Some(pv) && page_decodes_to(pv, s.page)
    &&& spec_lookup(f, "components"@) matches Option::Some(JsonValue::Array(arr))
        && components_decode_to(arr@, s.components@)
    &&& match spec_lookup(f, "incidents"@) {
        Option::None => s.incidents@ =~= Seq::<Incident>::empty(),
        Option::Some(JsonValue::Array(arr)) => incidents_decode_to(arr@, s.incidents@),
        _ => false,
    }
    &&& match spec_lookup(f, "scheduled_maintenances"@) {
        Option::None => s.scheduled_maintenances@ =~= Seq::<ScheduledMaintenance>::empty(),
        Option::Some(JsonValue::Array(arr)) => maintenances_decode_to(
            arr@,
            s.scheduled_maintenances@,
        ),
        _ => false,
    }
    &&& spec_lookup(f, "status"@) matches Option::Some(sv) && overall_decodes_to(sv, s.status)
}

/// Law: a decoded snapshot's components match the document's wire array in
/// length and order — component `k` of the snapshot is the decode of element
/// `k` of the array.
pub proof fn lemma_decode_keeps_component_order(v: JsonValue, s: StatusPageSummary)
    requires
        summary_decodes_to(v, s),
    ensures
        obj_fields(v) matches Option::Some(f) && (spec_lookup(f, "components"@) matches Option::Some(
            JsonValue::Array(arr),
        ) && s.components@.len() == arr@.len() && forall|k: int|
            0 <= k < arr@.len() ==> component_decodes_to(#[trigger] arr@[k], s.components@[k])),
{
}

/// Decodes a whole summary document into the canonical snapshot.  The decode
/// is atomic: it succeeds exactly on well-formed documents and fails as a
/// whole otherwise.
pub fn decode_summary(v: &JsonValue) -> (r: Option<StatusPageSummary>)
    ensures
        r is Some <==> summary_ok(*v),
        r matches Option::Some(s) ==> summary_decodes_to(*v, s),
{
    let fields = match v {
        JsonValue::Object(fields) => fields,
        _ => {
            return Option::None;
        },
    };
    let page = match lookup(fields, "page") {
        Option::Some(pv) => {
            match decode_page(pv) {
                Option::Some(p) => p,
                Option::None => {
                    return Option::None;
                },
            }
        },
        Option::None => {
            return Option::None;
        },
    };
    let components = match lookup(fields, "components") {
        Option::Some(JsonValue::Array(arr)) => {
            match decode_components(arr) {
                Option::Some(list) => list,
                Option::None => {
                    return Option::None;
                },
            }
        },
        _ => {
            return Option::None;
        },
    };
    let incidents = match lookup(fields, "incidents") {
        Option::None => Vec::new(),
        Option::Some(JsonValue::Array(arr)) => {
            match decode_incidents(arr) {
                Option::Some(list) => list,
                Option::None => {
                    return Option::None;
                },
            }
        },
        _ => {
            return Option::None;
        },
    };
    let scheduled_maintenances = match lookup(fields, "scheduled_maintenances") {
        Option::None => Vec::new(),
        Option::Some(JsonValue::Array(arr)) => {
            match decode_maintenances(arr) {
                Option::Some(list) => list,
                Option::None => {
                    return Option::None;
                },
            }
        },
        _ => {
            return Option::None;
        },
    };
    let status = match lookup(fields, "status") {
        Option::Some(sv) => {
            match decode_overall(sv) {
                Option::Some(o) => o,
                Option::None => {
                    return Option::None;
                },
            }
        },
        Option::None => {
            return Option::None;
        },
    };
    Option::Some(
        StatusPageSummary { page, components, incidents, scheduled_maintenances, status },
    )
}

} // verus!
