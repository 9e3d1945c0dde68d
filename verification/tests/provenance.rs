use sim_core::error::ErrorCode;
use sim_core::provenance::{
    validate_provenance, ProvenanceEntry, ProvenanceStatus, SafeRangeCheck, SourceRecord,
    StatusCounts,
};

fn source(id: &str) -> SourceRecord {
    SourceRecord {
        id: id.to_string(),
        title: "Engine manual".to_string(),
        publisher: "Publisher".to_string(),
        technical_status: "2011-06-01".to_string(),
        order_number: "GF47".to_string(),
        scope: "OM 471".to_string(),
        local_path: None,
    }
}

fn published(path: &str) -> ProvenanceEntry {
    ProvenanceEntry {
        path: path.to_string(),
        status: ProvenanceStatus::Published,
        value_note: "132 mm".to_string(),
        source_id: Some("manual".to_string()),
        locator: Some("page 100".to_string()),
        formula: None,
        inputs: Vec::new(),
        purpose: None,
        safe_range: SafeRangeCheck::Missing,
    }
}

fn derived(path: &str) -> ProvenanceEntry {
    ProvenanceEntry {
        status: ProvenanceStatus::Derived,
        source_id: None,
        locator: None,
        formula: Some("pi/4 b^2 s".to_string()),
        inputs: vec!["geometry.bore_m".to_string()],
        ..published(path)
    }
}

fn calibrated(path: &str, range: SafeRangeCheck) -> ProvenanceEntry {
    ProvenanceEntry {
        status: ProvenanceStatus::Calibrated,
        source_id: None,
        locator: None,
        purpose: Some("make it run".to_string()),
        safe_range: range,
        ..published(path)
    }
}

fn expected() -> Vec<String> {
    vec!["a.x".to_string(), "b.y".to_string(), "c.z".to_string()]
}

fn check(entries: Vec<ProvenanceEntry>) -> Result<(), String> {
    validate_provenance(&entries, &expected(), &vec![source("manual")]).map_err(|e| {
        assert_eq!(e.code, ErrorCode::InvalidConfig);
        e.message
    })
}

fn full() -> Vec<ProvenanceEntry> {
    vec![published("a.x"), derived("b.y"), calibrated("c.z", SafeRangeCheck::Holds)]
}

#[test]
fn a_complete_and_well_formed_set_passes() {
    assert_eq!(check(full()), Ok(()));
}

#[test]
fn status_strings_are_lower_case() {
    assert_eq!(ProvenanceStatus::Published.as_str(), "published");
    assert_eq!(ProvenanceStatus::Derived.as_str(), "derived");
    assert_eq!(ProvenanceStatus::Calibrated.as_str(), "calibrated");
    assert!(published("a").is_published());
    assert!(derived("a").is_derived());
    assert!(calibrated("a", SafeRangeCheck::Holds).is_calibrated());
    assert!(!derived("a").is_published());
}

#[test]
fn counts_partition_the_entries() {
    let statuses: Vec<ProvenanceStatus> = full().iter().map(|e| e.status).collect();
    let c = StatusCounts::of(&statuses);
    assert_eq!((c.published, c.derived, c.calibrated), (1, 1, 1));
    let c = StatusCounts::of(&[ProvenanceStatus::Published, ProvenanceStatus::Published]);
    assert_eq!((c.published, c.derived, c.calibrated), (2, 0, 0));
}

#[test]
fn an_unknown_path_is_refused() {
    let mut e = full();
    e.push(published("nope"));
    assert_eq!(check(e), Err("provenance entry names unknown parameter path `nope`".into()));
}

#[test]
fn a_duplicate_path_is_refused() {
    let mut e = full();
    e.insert(1, published("a.x"));
    assert_eq!(check(e), Err("duplicate provenance entry for `a.x`".into()));
}

#[test]
fn a_blank_value_note_is_refused() {
    let mut e = full();
    e[0].value_note = "  ".to_string();
    assert_eq!(check(e), Err("`a.x` provenance needs a value_note".into()));
}

#[test]
fn published_values_need_a_known_source_and_a_locator() {
    let mut e = full();
    e[0].source_id = Some(" ".to_string());
    assert_eq!(check(e), Err("published `a.x` must name a source_id".into()));
    let mut e = full();
    e[0].source_id = None;
    assert_eq!(check(e), Err("published `a.x` must name a source_id".into()));
    let mut e = full();
    e[0].source_id = Some(" other ".to_string());
    assert_eq!(check(e), Err("published `a.x` names unknown source_id `other`".into()));
    let mut e = full();
    e[0].source_id = Some("  manual\t".to_string());
    assert_eq!(check(e), Ok(()), "the source id is compared trimmed");
    let mut e = full();
    e[0].locator = None;
    assert_eq!(
        check(e),
        Err("published `a.x` must give a locator (document, section, or page)".into())
    );
}

#[test]
fn derived_values_need_a_formula_and_inputs() {
    let mut e = full();
    e[1].formula = Some("".to_string());
    assert_eq!(check(e), Err("derived `b.y` must state its formula".into()));
    let mut e = full();
    e[1].inputs.clear();
    assert_eq!(check(e), Err("derived `b.y` must list its inputs".into()));
}

#[test]
fn calibrated_values_need_a_purpose_and_a_range_holding_the_value() {
    let mut e = full();
    e[2].purpose = None;
    assert_eq!(check(e), Err("calibrated `c.z` must state its purpose".into()));
    let mut e = full();
    e[2].safe_range = SafeRangeCheck::Missing;
    assert_eq!(check(e), Err("calibrated `c.z` must give a safe_range".into()));
    let mut e = full();
    e[2].safe_range = SafeRangeCheck::Malformed;
    assert_eq!(check(e), Err("calibrated `c.z` has a malformed safe_range".into()));
    let mut e = full();
    e[2].safe_range = SafeRangeCheck::ValueOutside {
        value: "5".to_string(),
        low: "1".to_string(),
        high: "2".to_string(),
    };
    assert_eq!(check(e), Err("calibrated `c.z` value 5 lies outside its safe_range [1, 2]".into()));
}

#[test]
fn missing_paths_are_listed_in_expected_order() {
    assert_eq!(check(vec![derived("b.y")]), Err("missing provenance for: a.x, c.z".into()));
    assert_eq!(check(Vec::new()), Err("missing provenance for: a.x, b.y, c.z".into()));
}

#[test]
fn the_first_offending_entry_is_the_one_reported() {
    let mut e = full();
    e[1].formula = None;
    e[2].purpose = None;
    assert_eq!(check(e), Err("derived `b.y` must state its formula".into()));
}
