use cjvalpy::Validator;

// A minimal v1.1 document with no geometry defects, no duplicate or unused
// vertices, and no unexpected root properties.
const CLEAN_DOC: &str = r#"{
  "type": "CityJSON",
  "version": "1.1",
  "CityObjects": { "LondonTower": { "type": "Building" } },
  "vertices": [],
  "transform": { "scale": [0.001, 0.001, 0.001], "translate": [0.0, 0.0, 0.0] }
}"#;

// Identical in spirit to CLEAN_DOC, but the last vertex duplicates the
// first; every vertex is referenced, so only the duplicate is flagged.
const DUP_VERTEX_DOC: &str = r#"{
  "type": "CityJSON",
  "version": "1.1",
  "CityObjects": {
    "LondonTower": {
      "type": "Building",
      "geometry": [
        { "type": "MultiSurface", "lod": "2", "boundaries": [ [[0, 1, 2, 3]] ] }
      ]
    }
  },
  "vertices": [ [0, 0, 0], [1000, 0, 0], [1000, 1000, 0], [0, 0, 0] ],
  "transform": { "scale": [0.001, 0.001, 0.001], "translate": [0.0, 0.0, 0.0] }
}"#;

// One boundary references vertex 9, which does not exist.
const BAD_INDEX_DOC: &str = r#"{
  "type": "CityJSON",
  "version": "1.1",
  "CityObjects": {
    "LondonTower": {
      "type": "Building",
      "geometry": [
        { "type": "MultiSurface", "lod": "2", "boundaries": [ [[0, 1, 9]] ] }
      ]
    }
  },
  "vertices": [ [0, 0, 0], [1000, 0, 0], [1000, 1000, 0] ],
  "transform": { "scale": [0.001, 0.001, 0.001], "translate": [0.0, 0.0, 0.0] }
}"#;

// Parses as JSON but misses the members the schema demands.
const BAD_SCHEMA_DOC: &str = r#"{ "type": "CityJSON", "version": "1.1" }"#;

// A v1.0 document: the legacy major version.
const LEGACY_DOC: &str = r#"{
  "type": "CityJSON",
  "version": "1.0",
  "CityObjects": {},
  "vertices": []
}"#;

// An extension schema with the three members every extension must hold.
const EMPTY_EXTENSION: &str =
    r#"{ "extraCityObjects": {}, "extraRootProperties": {}, "extraAttributes": {} }"#;

fn count_occurrences(haystack: &str, needle: &str) -> usize {
    let mut n: usize = 0;
    let mut rest = haystack;
    while let Some(p) = rest.find(needle) {
        n += 1;
        rest = &rest[p + needle.len()..];
    }
    n
}

#[test]
fn parse_failure_is_hard_error() {
    let re = Validator::new(vec![String::from("{ not json at all")]);
    assert!(re.is_err());
    let msg = re.err().unwrap();
    assert!(msg.starts_with("Invalid JSON file: "));
}

#[test]
fn parse_failure_ignores_extensions() {
    let re = Validator::new(vec![String::from("[1, 2"), String::from("{}")]);
    assert!(re.is_err());
}

#[test]
fn schema_failure_skips_extension_loading() {
    let re = Validator::new(vec![String::from(BAD_SCHEMA_DOC), String::from("{}")]);
    let mut v = re.unwrap();
    let report = v.get_report();
    assert!(report.contains("=== CityJSON syntax ===\n"));
    assert!(!report.contains("=== Extensions schemas ==="));
    assert!(!report.contains("1. ok"));
    let b = v.validate();
    assert!(!b);
    let report = v.get_report();
    assert!(report.contains("❌ File is invalid"));
    assert!(!report.contains("=== parent_children_consistency ==="));
}

#[test]
fn extension_lines_in_order_and_counted() {
    let re = Validator::new(vec![
        String::from(CLEAN_DOC),
        String::from(EMPTY_EXTENSION),
        String::from("certainly not json"),
        String::from(EMPTY_EXTENSION),
    ]);
    let v = re.unwrap();
    let report = v.get_report();
    assert!(report.contains("=== Extensions schemas ===\n"));
    let p1 = report.find("1. ok").unwrap();
    let p2 = report.find("2. ERROR\n(").unwrap();
    let p3 = report.find("3. ok").unwrap();
    assert!(p1 < p2 && p2 < p3);
    let total = count_occurrences(&report, ". ok") + count_occurrences(&report, ". ERROR");
    assert_eq!(total, 3);
}

#[test]
fn attached_extension_validates() {
    let re = Validator::new(vec![String::from(CLEAN_DOC), String::from(EMPTY_EXTENSION)]);
    let mut v = re.unwrap();
    let report = v.get_report();
    assert!(report.contains("=== Extensions schemas ===\n1. ok"));
    let b = v.validate();
    assert!(b);
    assert!(v.get_report().contains("✅ File is valid"));
}

#[test]
fn ill_shaped_extension_is_load_error() {
    let re = Validator::new(vec![String::from(CLEAN_DOC), String::from("{}")]);
    let mut v = re.unwrap();
    let report = v.get_report();
    assert!(report.contains("1. ERROR\n(not an Extension schema"));
    let b = v.validate();
    assert!(!b);
    assert!(v.get_report().contains("❌ File is invalid"));
}

#[test]
fn extension_with_non_object_type_entry_is_load_error() {
    let ext = r#"{ "extraCityObjects": {}, "extraRootProperties": {},
                   "extraAttributes": { "Building": 5 } }"#;
    let re = Validator::new(vec![String::from(CLEAN_DOC), String::from(ext)]);
    let mut v = re.unwrap();
    assert!(v.get_report().contains("1. ERROR\n(not an Extension schema"));
    assert!(!v.validate());
}

#[test]
fn extension_with_non_object_attribute_entry_is_load_error() {
    let ext = r#"{ "extraCityObjects": {}, "extraRootProperties": {},
                   "extraAttributes": { "Building": { "storeys": 5 } } }"#;
    let re = Validator::new(vec![String::from(CLEAN_DOC), String::from(ext)]);
    let mut v = re.unwrap();
    assert!(v.get_report().contains("1. ERROR\n(not an Extension schema"));
    assert!(!v.validate());
}

#[test]
fn extension_load_failure_forces_invalid() {
    let re = Validator::new(vec![String::from(CLEAN_DOC), String::from("nope")]);
    let mut v = re.unwrap();
    let b = v.validate();
    assert!(!b);
    assert!(v.get_report().contains("❌ File is invalid"));
}

#[test]
fn legacy_version_gate() {
    let re = Validator::new(vec![String::from(LEGACY_DOC)]);
    let mut v = re.unwrap();
    let report = v.get_report();
    assert!(report.contains("=== CityJSON syntax ===\nCityJSON schemas used: v1.0"));
    let b = v.validate();
    assert!(!b);
    let report = v.get_report();
    assert!(report.contains("(validation of Extensions is not supported in v1.0, upgrade to v1.1)"));
    assert!(report.contains("❌ File is invalid"));
    assert!(!report.contains("=== parent_children_consistency ==="));
    assert!(!report.contains("=== wrong_vertex_index ==="));
    assert!(!report.contains("=== semantics_arrays ==="));
    assert!(!report.contains("=== duplicate_vertices (warnings) ==="));
    assert!(!report.contains("=== extra_root_properties (warnings) ==="));
    assert!(!report.contains("=== unused_vertices (warnings) ==="));
}

#[test]
fn clean_document_passes() {
    let re = Validator::new(vec![String::from(CLEAN_DOC)]);
    let mut v = re.unwrap();
    let b = v.validate();
    assert!(b);
    let report = v.get_report();
    assert!(report.contains("✅ File is valid"));
    assert!(!report.contains("⚠️"));
    assert!(!report.contains("❌"));
    assert!(report.contains("=== parent_children_consistency ===\nok\n"));
    assert!(report.contains("=== duplicate_vertices (warnings) ===\nok\n"));
    assert!(report.contains("=== unused_vertices (warnings) ===\nok\n"));
}

#[test]
fn duplicate_vertex_warns_but_stays_valid() {
    let re = Validator::new(vec![String::from(DUP_VERTEX_DOC)]);
    let mut v = re.unwrap();
    let b = v.validate();
    assert!(b);
    let report = v.get_report();
    assert!(report.contains("⚠️  File is valid but has warnings"));
    assert!(!report.contains("✅"));
    assert!(!report.contains("❌"));
    assert_eq!(count_occurrences(&report, "duplicated"), 1);
    assert!(report.contains("=== duplicate_vertices (warnings) ===\n  1. "));
}

#[test]
fn wrong_vertex_index_is_fatal_and_skips_warnings() {
    let re = Validator::new(vec![String::from(BAD_INDEX_DOC)]);
    let mut v = re.unwrap();
    let b = v.validate();
    assert!(!b);
    let report = v.get_report();
    assert!(report.contains("❌ File is invalid"));
    assert!(report.contains("=== wrong_vertex_index ===\n  1. "));
    assert!(!report.contains("=== duplicate_vertices (warnings) ==="));
    assert!(!report.contains("=== extra_root_properties (warnings) ==="));
    assert!(!report.contains("=== unused_vertices (warnings) ==="));
}

#[test]
fn extra_root_property_warns() {
    let doc = r#"{
      "type": "CityJSON",
      "version": "1.1",
      "CityObjects": { "LondonTower": { "type": "Building" } },
      "vertices": [],
      "transform": { "scale": [0.001, 0.001, 0.001], "translate": [0.0, 0.0, 0.0] },
      "hugo": "ledoux"
    }"#;
    let re = Validator::new(vec![String::from(doc)]);
    let mut v = re.unwrap();
    let b = v.validate();
    assert!(b);
    let report = v.get_report();
    assert!(report.contains("⚠️  File is valid but has warnings"));
    assert!(report.contains("=== extra_root_properties (warnings) ===\n  1. "));
}

#[test]
fn validate_twice_same_verdict_when_valid() {
    let re = Validator::new(vec![String::from(CLEAN_DOC)]);
    let mut v = re.unwrap();
    let b1 = v.validate();
    let b2 = v.validate();
    assert_eq!(b1, b2);
    assert!(b1);
}

#[test]
fn validate_twice_same_verdict_when_invalid() {
    let re = Validator::new(vec![String::from(BAD_INDEX_DOC)]);
    let mut v = re.unwrap();
    let b1 = v.validate();
    let b2 = v.validate();
    assert_eq!(b1, b2);
    assert!(!b1);
}

#[test]
fn validate_twice_appends_second_run() {
    let re = Validator::new(vec![String::from(CLEAN_DOC)]);
    let mut v = re.unwrap();
    v.validate();
    let first = v.get_report();
    v.validate();
    let second = v.get_report();
    assert!(second.starts_with(&first));
    assert!(second.len() > first.len());
    assert_eq!(count_occurrences(&second, "============ SUMMARY ============"), 2);
}

#[test]
fn report_header_names_builtin_schema() {
    let re = Validator::new(vec![String::from(CLEAN_DOC)]);
    let v = re.unwrap();
    let report = v.get_report();
    assert!(report.starts_with("=== CityJSON syntax ===\nCityJSON schemas used: v1.1"));
    assert!(report.contains(" (builtin)\n\nok\n"));
}
