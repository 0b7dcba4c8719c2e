use vstd::prelude::*;
use vstd::multiset::Multiset;

verus! {

// The schema engine and the rule evaluators live in the cjval crate; each is
// a pure function of the parsed document and of the attached extension set,
// so its outcome can be given a name and the orchestration proved against
// those names.  `cjval::CJValidator` itself is opaque here: the validator
// carries it through and asks the evaluators about it.
#[verifier::external_type_specification]
#[verifier::external_body]
pub struct ExCJValidator(cjval::CJValidator);

#[verifier::external_type_specification]
#[verifier::external_body]
pub struct ExJsonValue(serde_json::Value);

/// Whether `cjval::CJValidator::from_str` accepts the text as JSON.
pub uninterp spec fn doc_parses(s: Seq<char>) -> bool;

/// The message `cjval::CJValidator::from_str` reports for a text it
/// rejects.
pub uninterp spec fn parse_error_of(s: Seq<char>) -> Seq<char>;

/// The builtin-schema version string that cjval resolved for the document.
pub uninterp spec fn schema_version_of(v: cjval::CJValidator) -> Seq<char>;

/// The findings of cjval's schema stage.
pub uninterp spec fn schema_findings(v: cjval::CJValidator) -> Seq<Seq<char>>;

/// The version code cjval read from the document: 10 for v1.0, 11 for v1.1,
/// 0 for anything else.
pub uninterp spec fn version_of(v: cjval::CJValidator) -> int;

/// The findings of cjval's extension-schema stage, as a multiset: one of
/// its sub-stages walks a freshly seeded hash set, so only the collection
/// of findings — and in particular whether there are any — is a function
/// of the validator; their order is not.
pub uninterp spec fn ext_finding_multiset(v: cjval::CJValidator) -> Multiset<Seq<char>>;

/// The findings of cjval's parent/children consistency stage.
pub uninterp spec fn parent_children_findings(v: cjval::CJValidator) -> Seq<Seq<char>>;

/// The findings of cjval's vertex-index stage.
pub uninterp spec fn vertex_index_findings(v: cjval::CJValidator) -> Seq<Seq<char>>;

/// The findings of cjval's semantics-array stage.
pub uninterp spec fn semantics_findings(v: cjval::CJValidator) -> Seq<Seq<char>>;

/// The findings of cjval's duplicate-vertex stage.
pub uninterp spec fn duplicate_vertex_findings(v: cjval::CJValidator) -> Seq<Seq<char>>;

/// The findings of cjval's extra-root-property stage.
pub uninterp spec fn extra_root_findings(v: cjval::CJValidator) -> Seq<Seq<char>>;

/// The findings of cjval's unused-vertex stage.
pub uninterp spec fn unused_vertex_findings(v: cjval::CJValidator) -> Seq<Seq<char>>;

/// Whether `serde_json::from_str` accepts the text as JSON.
pub uninterp spec fn json_ok(s: Seq<char>) -> bool;

/// The value `serde_json::from_str` yields for a text it accepts.
pub uninterp spec fn json_of(s: Seq<char>) -> serde_json::Value;

/// The member of a JSON value under the given key, as
/// `serde_json::Value::get` resolves it.
pub uninterp spec fn member_of(v: serde_json::Value, key: Seq<char>) -> Option<serde_json::Value>;

/// Whether `serde_json::Value::is_object` holds of the value.
pub uninterp spec fn is_object_of(v: serde_json::Value) -> bool;

/// The member values of a JSON object, in the order of serde_json's map.
pub uninterp spec fn member_values(v: serde_json::Value) -> Seq<serde_json::Value>;

/// The names under which extensions are attached to the validator.
pub uninterp spec fn ext_names(v: cjval::CJValidator) -> Set<Seq<char>>;

/// Every extension attached to the validator holds `extraCityObjects`,
/// `extraRootProperties` and `extraAttributes` object members whose
/// entries are themselves objects, and under `extraAttributes` the
/// per-type entries' entries are objects too — the nesting the extension
/// evaluator indexes and unwraps without checking.  What it does not
/// cover, the evaluator's schema compilation, has its own predicate
/// below.
pub uninterp spec fn exts_shaped(v: cjval::CJValidator) -> bool;

/// Every sub-schema of every attached extension compiles as a JSON
/// schema in cjval's extension context: the evaluator compiles each with
/// an `expect`, which a malformed sub-schema (a bad `pattern` regex, a
/// bad `type`) makes abort.  A validator with no extensions holds this
/// vacuously; no check of this library establishes it for an attached
/// set, so it stands in `validate`'s precondition.
pub uninterp spec fn ext_schemas_compilable(v: cjval::CJValidator) -> bool;

/// Every root property name, city-object type and attribute name of the
/// document is non-empty and starts with a one-byte character: the
/// extension and extra-root-property evaluators slice the first byte of
/// each, which the schema does not constrain.
pub uninterp spec fn names_sliceable(v: cjval::CJValidator) -> bool;

/// Every geometry boundary of the document decodes into the evaluators'
/// index vectors (machine-sized unsigned integers at the declared nesting),
/// and every address location boundary is a non-empty array of such
/// integers: the vertex evaluators unwrap these decodes, and the schema
/// puts no lower bound on the integers.
pub uninterp spec fn boundaries_decodable(v: cjval::CJValidator) -> bool;

/// Every semantics object of the document holds an array `values` with
/// entries of the declared nesting (unsigned integers or null) and a
/// non-empty `surfaces` array: the semantics evaluator unwraps the former
/// and subtracts one from the length of the latter.
pub uninterp spec fn semantics_walkable(v: cjval::CJValidator) -> bool;

/// An object all of whose member values are objects.
pub open spec fn values_are_objects(v: serde_json::Value) -> bool {
    forall|k: int|
        0 <= k < member_values(v).len() ==> is_object_of(#[trigger] member_values(v)[k])
}

/// A member that is present, is an object, and holds only objects.
pub open spec fn schema_map_member(v: serde_json::Value, key: Seq<char>) -> bool {
    match member_of(v, key) {
        Some(m) => is_object_of(m) && values_are_objects(m),
        None => false,
    }
}

/// The `extraAttributes` member: an object of per-type objects, each of
/// which again holds only objects (one sub-schema per attribute).
pub open spec fn attribute_map_member(v: serde_json::Value, key: Seq<char>) -> bool {
    match member_of(v, key) {
        Some(m) => is_object_of(m) && values_are_objects(m) && (forall|k: int|
            0 <= k < member_values(m).len() ==> values_are_objects(
                #[trigger] member_values(m)[k],
            )),
        None => false,
    }
}

/// An extension text the loader may attach: it parses, and it holds the
/// three members at the nesting the extension evaluator indexes.
pub open spec fn ext_attachable(s: Seq<char>) -> bool {
    &&& json_ok(s)
    &&& schema_map_member(json_of(s), "extraCityObjects"@)
    &&& schema_map_member(json_of(s), "extraRootProperties"@)
    &&& attribute_map_member(json_of(s), "extraAttributes"@)
}

/// Relies on serde_json::from_str: it returns Err exactly when the text is
/// not valid JSON, and it never aborts.
#[verifier::external_body]
pub(crate) fn parse_json(s: &str) -> (r: Option<serde_json::Value>)
    ensures
        r is Some <==> json_ok(s@),
        r matches Some(v) ==> v == json_of(s@),
{
    serde_json::from_str(s).ok()
}

/// Relies on serde_json::Value::get: the member under the key, if any.
#[verifier::external_body]
pub(crate) fn get_member<'a>(v: &'a serde_json::Value, key: &str) -> (r: Option<
    &'a serde_json::Value,
>)
    ensures
        r is Some <==> member_of(*v, key@) is Some,
        r matches Some(m) ==> member_of(*v, key@) == Some(*m),
{
    v.get(key)
}

/// Relies on serde_json::Value::is_object.
#[verifier::external_body]
pub(crate) fn is_object(v: &serde_json::Value) -> (r: bool)
    ensures
        r == is_object_of(*v),
{
    v.is_object()
}

/// Relies on serde_json::Map::values, reached through Value::as_object:
/// the member values of a JSON object, in the map's order.
#[verifier::external_body]
fn object_values(v: &serde_json::Value) -> (r: Vec<serde_json::Value>)
    requires
        is_object_of(*v),
    ensures
        r@ == member_values(*v),
{
    v.as_object().unwrap().values().cloned().collect()
}

/// Whether every member value of the object is itself an object.
fn values_all_objects(v: &serde_json::Value) -> (r: bool)
    requires
        is_object_of(*v),
    ensures
        r == values_are_objects(*v),
{
    let vals = object_values(v);
    let mut i: usize = 0;
    while i < vals.len()
        invariant
            i <= vals@.len(),
            vals@ == member_values(*v),
            forall|k: int| 0 <= k < i ==> is_object_of(#[trigger] member_values(*v)[k]),
        decreases vals@.len() - i,
    {
        if !is_object(&vals[i]) {
            return false;
        }
        i = i + 1;
    }
    true
}

/// Whether the value holds the key with an object of objects under it.
fn has_schema_map_member(v: &serde_json::Value, key: &str) -> (r: bool)
    ensures
        r == schema_map_member(*v, key@),
{
    match get_member(v, key) {
        Some(m) => is_object(m) && values_all_objects(m),
        None => false,
    }
}

/// Whether the value holds the key with an object of objects of objects
/// under it — the nesting of `extraAttributes`.
fn has_attribute_map_member(v: &serde_json::Value, key: &str) -> (r: bool)
    ensures
        r == attribute_map_member(*v, key@),
{
    match get_member(v, key) {
        Some(m) => {
            if !is_object(m) {
                return false;
            }
            let types = object_values(m);
            let mut i: usize = 0;
            while i < types.len()
                invariant
                    i <= types@.len(),
                    types@ == member_values(*m),
                    member_of(*v, key@) == Some(*m),
                    is_object_of(*m),
                    forall|k: int|
                        0 <= k < i ==> is_object_of(#[trigger] member_values(*m)[k])
                            && values_are_objects(member_values(*m)[k]),
                decreases types@.len() - i,
            {
                if !is_object(&types[i]) {
                    proof {
                        assert(!is_object_of(member_values(*m)[i as int]));
                    }
                    return false;
                }
                if !values_all_objects(&types[i]) {
                    proof {
                        assert(!values_are_objects(member_values(*m)[i as int]));
                    }
                    return false;
                }
                i = i + 1;
            }
            true
        },
        None => false,
    }
}

/// Whether the loader may attach the text as an extension schema: cjval's
/// extension evaluator indexes this nesting without checking it, so
/// anything else must be turned away as a load error.
pub(crate) fn extension_shape_ok(text: &str) -> (r: bool)
    ensures
        r == ext_attachable(text@),
{
    match parse_json(text) {
        None => false,
        Some(v) => {
            let a = has_schema_map_member(&v, "extraCityObjects");
            let b = has_schema_map_member(&v, "extraRootProperties");
            let c = has_attribute_map_member(&v, "extraAttributes");
            a && b && c
        },
    }
}

/// Relies on cjval::CJValidator::from_str: it returns Err exactly when the
/// text is not valid JSON, the error value is serde's message, a function
/// of the text alone, and a fresh validator carries no extensions.
#[verifier::external_body]
pub(crate) fn parse_document(s: &str) -> (r: Result<cjval::CJValidator, String>)
    ensures
        r is Ok <==> doc_parses(s@),
        r matches Err(e) ==> e@ == parse_error_of(s@),
        r matches Ok(v) ==> ext_names(v) == Set::<Seq<char>>::empty(),
        r matches Ok(v) ==> exts_shaped(v),
        r matches Ok(v) ==> ext_schemas_compilable(v),
{
    cjval::CJValidator::from_str(s)
}

/// Relies on cjval::CJValidator::get_cityjson_schema_version: the version
/// string of the builtin schemas, a function of the validator alone.
#[verifier::external_body]
pub(crate) fn get_schema_version(v: &cjval::CJValidator) -> (r: String)
    ensures
        r@ == schema_version_of(*v),
{
    v.get_cityjson_schema_version()
}

/// Relies on cjval::CJValidator::get_input_cityjson_version: the version
/// code of the document, a function of the validator alone.
#[verifier::external_body]
pub(crate) fn get_input_version(v: &cjval::CJValidator) -> (r: i32)
    ensures
        r == version_of(*v),
{
    v.get_input_cityjson_version()
}

/// Relies on cjval::CJValidator::validate_schema: the schema stage's
/// findings, a function of the parsed document alone; it never aborts.
#[verifier::external_body]
pub(crate) fn validate_schema(v: &cjval::CJValidator) -> (r: Vec<String>)
    ensures
        r.deep_view() == schema_findings(*v),
{
    v.validate_schema()
}

/// Relies on cjval::CJValidator::add_one_extension_from_str: it succeeds
/// exactly when serde parses the text, on success it inserts the parsed
/// value under the given name, and on failure it changes nothing.  Only
/// the attached extension set ever changes, so the schema findings, the
/// resolved schema version, the version code and the document-side domain
/// predicates are untouched.  The caller keeps the attached set shaped by
/// only handing over texts that pass the shape check.
#[verifier::external_body]
pub(crate) fn add_extension(v: &mut cjval::CJValidator, name: &str, text: &str) -> (r: Result<
    (),
    String,
>)
    requires
        ext_attachable(text@),
    ensures
        r is Ok <==> json_ok(text@),
        r matches Err(_) ==> *final(v) == *old(v),
        r is Ok ==> ext_names(*final(v)) == ext_names(*old(v)).insert(name@),
        exts_shaped(*old(v)) ==> exts_shaped(*final(v)),
        schema_findings(*final(v)) == schema_findings(*old(v)),
        schema_version_of(*final(v)) == schema_version_of(*old(v)),
        version_of(*final(v)) == version_of(*old(v)),
        names_sliceable(*final(v)) == names_sliceable(*old(v)),
        boundaries_decodable(*final(v)) == boundaries_decodable(*old(v)),
        semantics_walkable(*final(v)) == semantics_walkable(*old(v)),
{
    match v.add_one_extension_from_str(name, text) {
        Ok(()) => Ok(()),
        Err(e) => Err(format!("{}", e)),
    }
}

/// Relies on cjval::CJValidator::validate_extensions: the collection of
/// the extension stage's findings is a function of the validator alone,
/// though their order is not (one sub-stage walks a freshly seeded hash
/// set).  The evaluator indexes the attached extensions' nesting,
/// compiles their sub-schemas, walks a schema-valid document, and
/// byte-slices property and type names, so all four are demanded here.
#[verifier::external_body]
pub(crate) fn validate_extensions(v: &cjval::CJValidator) -> (r: Vec<String>)
    requires
        schema_findings(*v).len() == 0,
        exts_shaped(*v),
        ext_schemas_compilable(*v),
        names_sliceable(*v),
    ensures
        r.deep_view().to_multiset() == ext_finding_multiset(*v),
{
    v.validate_extensions()
}

/// Relies on cjval::CJValidator::parent_children_consistency: that stage's
/// findings, a function of the validator alone; the evaluator assumes a
/// document that passed the schema stage.
#[verifier::external_body]
pub(crate) fn parent_children_consistency(v: &cjval::CJValidator) -> (r: Vec<String>)
    requires
        schema_findings(*v).len() == 0,
    ensures
        r.deep_view() == parent_children_findings(*v),
{
    v.parent_children_consistency()
}

/// Relies on cjval::CJValidator::wrong_vertex_index: that stage's findings,
/// a function of the validator alone; the evaluator assumes a document that
/// passed the schema stage and unwraps the decoded boundary indices (the
/// schema allows negative indices, which the decode rejects).
#[verifier::external_body]
pub(crate) fn wrong_vertex_index(v: &cjval::CJValidator) -> (r: Vec<String>)
    requires
        schema_findings(*v).len() == 0,
        boundaries_decodable(*v),
    ensures
        r.deep_view() == vertex_index_findings(*v),
{
    v.wrong_vertex_index()
}

/// Relies on cjval::CJValidator::semantics_arrays: that stage's findings, a
/// function of the validator alone; the evaluator assumes a document that
/// passed the schema stage and unwraps each semantics object's `values`
/// array (the schema also allows null there) and a non-empty `surfaces`.
#[verifier::external_body]
pub(crate) fn semantics_arrays(v: &cjval::CJValidator) -> (r: Vec<String>)
    requires
        schema_findings(*v).len() == 0,
        semantics_walkable(*v),
    ensures
        r.deep_view() == semantics_findings(*v),
{
    v.semantics_arrays()
}

/// Relies on cjval::CJValidator::duplicate_vertices: that stage's findings,
/// a function of the validator alone; the evaluator assumes a document that
/// passed the schema stage.
#[verifier::external_body]
pub(crate) fn duplicate_vertices(v: &cjval::CJValidator) -> (r: Vec<String>)
    requires
        schema_findings(*v).len() == 0,
    ensures
        r.deep_view() == duplicate_vertex_findings(*v),
{
    v.duplicate_vertices()
}

/// Relies on cjval::CJValidator::extra_root_properties: that stage's
/// findings, a function of the validator alone; the evaluator assumes a
/// document that passed the schema stage and byte-slices every root
/// property name.
#[verifier::external_body]
pub(crate) fn extra_root_properties(v: &cjval::CJValidator) -> (r: Vec<String>)
    requires
        schema_findings(*v).len() == 0,
        names_sliceable(*v),
    ensures
        r.deep_view() == extra_root_findings(*v),
{
    v.extra_root_properties()
}

/// Relies on cjval::CJValidator::unused_vertices: that stage's findings, a
/// function of the validator alone; the evaluator assumes a document that
/// passed the schema stage, unwraps the decoded boundary indices, and
/// counts the referenced vertices against the vertex list, which stays in
/// range only when the vertex-index stage found nothing.
#[verifier::external_body]
pub(crate) fn unused_vertices(v: &cjval::CJValidator) -> (r: Vec<String>)
    requires
        schema_findings(*v).len() == 0,
        boundaries_decodable(*v),
        vertex_index_findings(*v).len() == 0,
    ensures
        r.deep_view() == unused_vertex_findings(*v),
{
    v.unused_vertices()
}

} // verus!
