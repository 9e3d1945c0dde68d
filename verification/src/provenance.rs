//! Per-parameter provenance and source records, and the rules they must obey.
//!
//! Every configuration parameter must be labelled `published`, `derived`, or
//! `calibrated`. Published values must name a source record and a locator.
//! Derived values must state their formula and inputs. Calibrated values must
//! state their purpose and a safe range that contains the configured value.
//!
//! Nothing in this module is engine-specific; the rules are enforced uniformly.

use vstd::prelude::*;
use vstd::string::StrSliceExecFns;
use vstd::string::StringExecFns;

use crate::error::{ErrorCode, SimError};
use crate::text::{blank, is_blank, trim, trimmed};

verus! {

/// How a configuration value was obtained.
#[derive(Clone, Copy, Debug, PartialEq, Eq, Structural)]
pub enum ProvenanceStatus {
    /// Printed verbatim in a named source document.
    Published,
    /// Computed from published values by a stated formula.
    Derived,
    /// Chosen by us to make the model run. Never OEM data.
    Calibrated,
}

/// The wire string of each status.
pub open spec fn status_text(status: ProvenanceStatus) -> Seq<char> {
    match status {
        ProvenanceStatus::Published => "published"@,
        ProvenanceStatus::Derived => "derived"@,
        ProvenanceStatus::Calibrated => "calibrated"@,
    }
}

impl ProvenanceStatus {
    /// The lower-case wire string.
    pub fn as_str(self) -> (s: &'static str)
        ensures
            s@ == status_text(self),
    {
        match self {
            ProvenanceStatus::Published => "published",
            ProvenanceStatus::Derived => "derived",
            ProvenanceStatus::Calibrated => "calibrated",
        }
    }
}

/// Each status's wire string is its name in lower case, so distinct statuses
/// have distinct wire strings.
pub proof fn lemma_status_text_injective(a: ProvenanceStatus, b: ProvenanceStatus)
    ensures
        status_text(ProvenanceStatus::Published) == "published"@,
        status_text(ProvenanceStatus::Derived) == "derived"@,
        status_text(ProvenanceStatus::Calibrated) == "calibrated"@,
        status_text(a) == status_text(b) <==> a == b,
{
    reveal_strlit("published");
    reveal_strlit("derived");
    reveal_strlit("calibrated");
    if status_text(a) == status_text(b) && a != b {
        assert(status_text(a)[0] == status_text(b)[0]);
        assert(status_text(a).len() == status_text(b).len());
    }
}

/// A citable document.
#[derive(Clone, Debug, PartialEq, Eq)]
pub struct SourceRecord {
    /// Stable key referenced by [`ProvenanceEntry::source_id`].
    pub id: String,
    pub title: String,
    pub publisher: String,
    /// Technical status date of the document, ISO-8601.
    pub technical_status: String,
    /// Publication / order number.
    pub order_number: String,
    /// Which engine variants and subsystems the document actually covers.
    pub scope: String,
    /// Optional path to a local copy. Never fetched at runtime.
    pub local_path: Option<String>,
}

/// What checking a calibrated value's safe range against the configured value
/// found. The range itself is a pair of reals; only the outcome, and the three
/// numbers rendered as text for the message, reach the rules here.
#[derive(Clone, Debug, PartialEq, Eq)]
pub enum SafeRangeCheck {
    /// No safe range was given.
    Missing,
    /// A bound is not finite, or the lower bound exceeds the upper.
    Malformed,
    /// The configured value lies outside the range.
    ValueOutside { value: String, low: String, high: String },
    /// The range is well formed and holds the value, or the parameter has no
    /// scalar value to hold.
    Holds,
}

/// Provenance for exactly one configuration parameter path.
#[derive(Clone, Debug, PartialEq)]
pub struct ProvenanceEntry {
    /// Dotted path into the configuration, e.g. `geometry.bore_m`.
    pub path: String,
    pub status: ProvenanceStatus,
    /// Human-readable rendering of the value, e.g. `"132 mm"`.
    pub value_note: String,
    /// Required when published.
    pub source_id: Option<String>,
    /// Required when published. Document number / section / page.
    pub locator: Option<String>,
    /// Required when derived.
    pub formula: Option<String>,
    /// Required (non-empty) when derived.
    pub inputs: Vec<String>,
    /// Required when calibrated.
    pub purpose: Option<String>,
    /// Required when calibrated, and must hold the configured value.
    pub safe_range: SafeRangeCheck,
}

impl ProvenanceEntry {
    pub fn is_published(&self) -> (b: bool)
        ensures
            b == (self.status == ProvenanceStatus::Published),
    {
        match self.status {
            ProvenanceStatus::Published => true,
            _ => false,
        }
    }

    pub fn is_derived(&self) -> (b: bool)
        ensures
            b == (self.status == ProvenanceStatus::Derived),
    {
        match self.status {
            ProvenanceStatus::Derived => true,
            _ => false,
        }
    }

    pub fn is_calibrated(&self) -> (b: bool)
        ensures
            b == (self.status == ProvenanceStatus::Calibrated),
    {
        match self.status {
            ProvenanceStatus::Calibrated => true,
            _ => false,
        }
    }
}

/// How many entries carry each classification.
#[derive(Clone, Copy, Debug, PartialEq, Eq, Structural)]
pub struct StatusCounts {
    pub published: usize,
    pub derived: usize,
    pub calibrated: usize,
}

/// How many of `statuses` equal `status`.
pub open spec fn count_status(statuses: Seq<ProvenanceStatus>, status: ProvenanceStatus) -> nat
    decreases statuses.len(),
{
    if statuses.len() == 0 {
        0
    } else {
        count_status(statuses.drop_last(), status) + if statuses.last() == status {
            1nat
        } else {
            0nat
        }
    }
}

impl StatusCounts {
    /// Count the entries of each classification.
    pub fn of(statuses: &[ProvenanceStatus]) -> (counts: Self)
        ensures
            counts.published as nat == count_status(statuses@, ProvenanceStatus::Published),
            counts.derived as nat == count_status(statuses@, ProvenanceStatus::Derived),
            counts.calibrated as nat == count_status(statuses@, ProvenanceStatus::Calibrated),
    {
        let mut counts = StatusCounts { published: 0, derived: 0, calibrated: 0 };
        let n = statuses.len();
        let mut i: usize = 0;
        while i < n
            invariant
                n == statuses@.len(),
                i <= n,
                counts.published as nat == count_status(
                    statuses@.take(i as int),
                    ProvenanceStatus::Published,
                ),
                counts.derived as nat == count_status(
                    statuses@.take(i as int),
                    ProvenanceStatus::Derived,
                ),
                counts.calibrated as nat == count_status(
                    statuses@.take(i as int),
                    ProvenanceStatus::Calibrated,
                ),
                counts.published + counts.derived + counts.calibrated == i,
            decreases n - i,
        {
            assert(statuses@.take(i + 1).drop_last() =~= statuses@.take(i as int));
            match statuses[i] {
                ProvenanceStatus::Published => {
                    counts.published = counts.published + 1;
                },
                ProvenanceStatus::Derived => {
                    counts.derived = counts.derived + 1;
                },
                ProvenanceStatus::Calibrated => {
                    counts.calibrated = counts.calibrated + 1;
                },
            }
            i = i + 1;
        }
        assert(statuses@.take(n as int) =~= statuses@);
        counts
    }
}

/// Every entry carries exactly one classification, so the three counts add
/// up to the number of entries.
pub proof fn lemma_status_counts_partition(statuses: Seq<ProvenanceStatus>)
    ensures
        count_status(statuses, ProvenanceStatus::Published) + count_status(
            statuses,
            ProvenanceStatus::Derived,
        ) + count_status(statuses, ProvenanceStatus::Calibrated) == statuses.len(),
    decreases statuses.len(),
{
    if statuses.len() > 0 {
        lemma_status_counts_partition(statuses.drop_last());
    }
}

/// The text of an optional field, empty when absent.
pub open spec fn opt_text(o: Option<String>) -> Seq<char> {
    match o {
        Some(s) => s@,
        None => Seq::empty(),
    }
}

/// The parameter paths named by a list of entries.
pub open spec fn entry_paths(entries: Seq<ProvenanceEntry>) -> Seq<Seq<char>> {
    entries.map_values(|e: ProvenanceEntry| e.path@)
}

/// The IDs of a list of source records.
pub open spec fn source_ids(sources: Seq<SourceRecord>) -> Seq<Seq<char>> {
    sources.map_values(|s: SourceRecord| s.id@)
}

/// The views of a list of strings.
pub open spec fn texts(items: Seq<String>) -> Seq<Seq<char>> {
    items.map_values(|s: String| s@)
}

/// The first rule one entry breaks, as the message reporting it, or `None`.
///
/// `earlier` holds the paths of the entries before this one.
pub open spec fn entry_fault(
    entry: ProvenanceEntry,
    expected: Seq<Seq<char>>,
    earlier: Seq<Seq<char>>,
    ids: Seq<Seq<char>>,
) -> Option<Seq<char>> {
    let p = entry.path@;
    if !expected.contains(p) {
        Some("provenance entry names unknown parameter path `"@ + p + "`"@)
    } else if earlier.contains(p) {
        Some("duplicate provenance entry for `"@ + p + "`"@)
    } else if blank(entry.value_note@) {
        Some("`"@ + p + "` provenance needs a value_note"@)
    } else {
        match entry.status {
            ProvenanceStatus::Published => {
                let sid = trimmed(opt_text(entry.source_id));
                if sid.len() == 0 {
                    Some("published `"@ + p + "` must name a source_id"@)
                } else if !ids.contains(sid) {
                    Some("published `"@ + p + "` names unknown source_id `"@ + sid + "`"@)
                } else if blank(opt_text(entry.locator)) {
                    Some(
                        "published `"@ + p
                            + "` must give a locator (document, section, or page)"@,
                    )
                } else {
                    None
                }
            },
            ProvenanceStatus::Derived => {
                if blank(opt_text(entry.formula)) {
                    Some("derived `"@ + p + "` must state its formula"@)
                } else if entry.inputs@.len() == 0 {
                    Some("derived `"@ + p + "` must list its inputs"@)
                } else {
                    None
                }
            },
            ProvenanceStatus::Calibrated => {
                if blank(opt_text(entry.purpose)) {
                    Some("calibrated `"@ + p + "` must state its purpose"@)
                } else {
                    match entry.safe_range {
                        SafeRangeCheck::Missing => Some(
                            "calibrated `"@ + p + "` must give a safe_range"@,
                        ),
                        SafeRangeCheck::Malformed => Some(
                            "calibrated `"@ + p + "` has a malformed safe_range"@,
                        ),
                        SafeRangeCheck::ValueOutside { value, low, high } => Some(
                            "calibrated `"@ + p + "` value "@ + value@
                                + " lies outside its safe_range ["@ + low@ + ", "@ + high@
                                + "]"@,
                        ),
                        SafeRangeCheck::Holds => None,
                    }
                }
            },
        }
    }
}

/// The first fault among the first `n` entries, checked in order.
pub open spec fn first_entry_fault(
    entries: Seq<ProvenanceEntry>,
    n: nat,
    expected: Seq<Seq<char>>,
    ids: Seq<Seq<char>>,
) -> Option<Seq<char>>
    decreases n,
{
    if n == 0 {
        None
    } else {
        match first_entry_fault(entries, (n - 1) as nat, expected, ids) {
            Some(m) => Some(m),
            None => entry_fault(
                entries[n - 1],
                expected,
                entry_paths(entries.take(n - 1)),
                ids,
            ),
        }
    }
}

/// The expected paths that no entry covers, in the order they are expected.
pub open spec fn missing_paths(expected: Seq<Seq<char>>, present: Seq<Seq<char>>) -> Seq<
    Seq<char>,
>
    decreases expected.len(),
{
    if expected.len() == 0 {
        Seq::empty()
    } else {
        let prior = missing_paths(expected.drop_last(), present);
        if present.contains(expected.last()) {
            prior
        } else {
            prior.push(expected.last())
        }
    }
}

/// `items` joined with `separator` between neighbours.
pub open spec fn join(items: Seq<Seq<char>>, separator: Seq<char>) -> Seq<char>
    decreases items.len(),
{
    if items.len() == 0 {
        Seq::empty()
    } else if items.len() == 1 {
        items[0]
    } else {
        join(items.drop_last(), separator) + separator + items.last()
    }
}

/// The message of the first provenance rule a configuration breaks, or `None`
/// when every rule holds: each entry is checked in order, and then every
/// expected path must be covered.
pub open spec fn provenance_fault(
    entries: Seq<ProvenanceEntry>,
    expected: Seq<Seq<char>>,
    ids: Seq<Seq<char>>,
) -> Option<Seq<char>> {
    match first_entry_fault(entries, entries.len(), expected, ids) {
        Some(m) => Some(m),
        None => {
            let missing = missing_paths(expected, entry_paths(entries));
            if missing.len() > 0 {
                Some("missing provenance for: "@ + join(missing, ", "@))
            } else {
                None
            }
        },
    }
}

/// The rules one entry must meet beyond its path: a value note, and what its
/// classification demands. A published value names a known source record
/// (compared trimmed) and gives a locator; a derived value states its formula
/// and lists its inputs; a calibrated value states its purpose and gives a
/// well-formed safe range that holds the configured value.
pub open spec fn entry_rules_hold(entry: ProvenanceEntry, ids: Seq<Seq<char>>) -> bool {
    &&& !blank(entry.value_note@)
    &&& match entry.status {
        ProvenanceStatus::Published => {
            &&& trimmed(opt_text(entry.source_id)).len() > 0
            &&& ids.contains(trimmed(opt_text(entry.source_id)))
            &&& !blank(opt_text(entry.locator))
        },
        ProvenanceStatus::Derived => {
            &&& !blank(opt_text(entry.formula))
            &&& entry.inputs@.len() > 0
        },
        ProvenanceStatus::Calibrated => {
            &&& !blank(opt_text(entry.purpose))
            &&& entry.safe_range == SafeRangeCheck::Holds
        },
    }
}

/// Every provenance rule, stated directly: the entries name distinct paths,
/// every one of them expected, together covering every expected path, and
/// each entry meets the rules of its classification.
pub open spec fn provenance_rules_hold(
    entries: Seq<ProvenanceEntry>,
    expected: Seq<Seq<char>>,
    ids: Seq<Seq<char>>,
) -> bool {
    &&& entry_paths(entries).no_duplicates()
    &&& forall|i: int| 0 <= i < entries.len() ==> expected.contains(#[trigger] entries[i].path@)
    &&& forall|j: int| 0 <= j < expected.len() ==> entry_paths(entries).contains(#[trigger] expected[j])
    &&& forall|i: int| 0 <= i < entries.len() ==> entry_rules_hold(#[trigger] entries[i], ids)
}

/// Validation finds no fault exactly when every provenance rule holds.
pub proof fn lemma_provenance_fault_free_iff_rules_hold(
    entries: Seq<ProvenanceEntry>,
    expected: Seq<Seq<char>>,
    ids: Seq<Seq<char>>,
)
    ensures
        provenance_fault(entries, expected, ids) is None <==> provenance_rules_hold(
            entries,
            expected,
            ids,
        ),
{
    let n = entries.len();
    let paths = entry_paths(entries);
    lemma_no_entry_fault(entries, n, expected, ids);
    lemma_missing_empty(expected, paths);
    assert forall|i: int| 0 <= i < n implies #[trigger] entry_paths(entries.take(i)) == paths.take(
        i,
    ) by {
        assert(entry_paths(entries.take(i)) =~= paths.take(i));
    }
    let each_ok = forall|i: int|
        0 <= i < n ==> entry_fault(entries[i], expected, entry_paths(entries.take(i)), ids) is None;
    if each_ok {
        assert forall|a: int, b: int| 0 <= a < paths.len() && 0 <= b < paths.len() && a != b implies paths[a]
            != paths[b] by {
            let (lo, hi) = if a < b {
                (a, b)
            } else {
                (b, a)
            };
            assert(entry_fault(entries[hi], expected, entry_paths(entries.take(hi)), ids) is None);
            assert(paths.take(hi)[lo] == paths[lo]);
            assert(entry_paths(entries.take(hi)) == paths.take(hi));
            assert(paths[hi] == entries[hi].path@);
        }
        assert forall|i: int| 0 <= i < n implies expected.contains(#[trigger] entries[i].path@) && entry_rules_hold(
            entries[i],
            ids,
        ) by {
            assert(entry_fault(entries[i], expected, entry_paths(entries.take(i)), ids) is None);
        }
    }
    if provenance_rules_hold(entries, expected, ids) {
        assert forall|i: int| 0 <= i < n implies entry_fault(
            entries[i],
            expected,
            entry_paths(entries.take(i)),
            ids,
        ) is None by {
            assert(entry_paths(entries.take(i)) == paths.take(i));
            assert(expected.contains(entries[i].path@));
            assert(entry_rules_hold(entries[i], ids));
            if paths.take(i).contains(entries[i].path@) {
                let k = choose|k: int| 0 <= k < paths.take(i).len() && paths.take(i)[k] == entries[i].path@;
                assert(paths[k] == paths[i]);
            }
        }
    }
}

/// No entry among the first `n` is at fault exactly when each of them, taken
/// with the paths before it, is free of faults.
proof fn lemma_no_entry_fault(
    entries: Seq<ProvenanceEntry>,
    n: nat,
    expected: Seq<Seq<char>>,
    ids: Seq<Seq<char>>,
)
    requires
        n <= entries.len(),
    ensures
        first_entry_fault(entries, n, expected, ids) is None <==> forall|i: int|
            0 <= i < n ==> entry_fault(entries[i], expected, entry_paths(entries.take(i)), ids) is None,
    decreases n,
{
    if n > 0 {
        lemma_no_entry_fault(entries, (n - 1) as nat, expected, ids);
    }
}

/// No expected path is missing exactly when every expected path is present.
proof fn lemma_missing_empty(expected: Seq<Seq<char>>, present: Seq<Seq<char>>)
    ensures
        missing_paths(expected, present).len() == 0 <==> forall|j: int|
            0 <= j < expected.len() ==> present.contains(#[trigger] expected[j]),
    decreases expected.len(),
{
    if expected.len() > 0 {
        let prefix = expected.drop_last();
        lemma_missing_empty(prefix, present);
        assert forall|j: int| 0 <= j < prefix.len() implies #[trigger] prefix[j] == expected[j] by {}
        if forall|j: int| 0 <= j < expected.len() ==> present.contains(#[trigger] expected[j]) {
            assert forall|j: int| 0 <= j < prefix.len() implies present.contains(#[trigger] prefix[j]) by {
                assert(present.contains(expected[j]));
            }
            assert(present.contains(expected[expected.len() - 1]));
        }
        if missing_paths(expected, present).len() == 0 {
            assert forall|j: int| 0 <= j < expected.len() implies present.contains(#[trigger] expected[j]) by {
                if j < prefix.len() {
                    assert(present.contains(prefix[j]));
                }
            }
        }
    }
}

/// Whether `items` holds a string equal to `target`.
fn contains_text(items: &Vec<String>, target: &String) -> (found: bool)
    ensures
        found == texts(items@).contains(target@),
{
    let n = items.len();
    let mut i: usize = 0;
    while i < n
        invariant
            n == items@.len(),
            i <= n,
            forall|j: int| 0 <= j < i ==> items@[j]@ != target@,
        decreases n - i,
    {
        if items[i] == *target {
            assert(texts(items@)[i as int] == target@);
            return true;
        }
        i = i + 1;
    }
    assert forall|j: int| 0 <= j < texts(items@).len() implies texts(items@)[j] != target@ by {
        assert(texts(items@)[j] == items@[j]@);
    }
    false
}

/// Whether one of the first `n` entries has path `target`.
fn path_among(entries: &Vec<ProvenanceEntry>, n: usize, target: &String) -> (found: bool)
    requires
        n <= entries@.len(),
    ensures
        found == entry_paths(entries@.take(n as int)).contains(target@),
{
    let mut i: usize = 0;
    while i < n
        invariant
            n <= entries@.len(),
            i <= n,
            forall|j: int| 0 <= j < i ==> entries@[j].path@ != target@,
        decreases n - i,
    {
        if entries[i].path == *target {
            assert(entry_paths(entries@.take(n as int))[i as int] == target@);
            return true;
        }
        i = i + 1;
    }
    assert forall|j: int| 0 <= j < entry_paths(entries@.take(n as int)).len() implies entry_paths(
        entries@.take(n as int),
    )[j] != target@ by {
        assert(entry_paths(entries@.take(n as int))[j] == entries@[j].path@);
    }
    false
}

/// Whether a source record has ID `target`.
fn source_among(sources: &Vec<SourceRecord>, target: &String) -> (found: bool)
    ensures
        found == source_ids(sources@).contains(target@),
{
    let n = sources.len();
    let mut i: usize = 0;
    while i < n
        invariant
            n == sources@.len(),
            i <= n,
            forall|j: int| 0 <= j < i ==> sources@[j].id@ != target@,
        decreases n - i,
    {
        if sources[i].id == *target {
            assert(source_ids(sources@)[i as int] == target@);
            return true;
        }
        i = i + 1;
    }
    assert forall|j: int| 0 <= j < source_ids(sources@).len() implies source_ids(sources@)[j]
        != target@ by {
        assert(source_ids(sources@)[j] == sources@[j].id@);
    }
    false
}

/// `prefix + text + suffix` as a new string.
fn enclose(prefix: &str, text: &str, suffix: &str) -> (s: String)
    ensures
        s@ == prefix@ + text@ + suffix@,
{
    let mut s = String::from_str(prefix);
    s.append(text);
    s.append(suffix);
    s
}

/// Whether an optional text is absent or blank.
fn opt_is_blank(o: &Option<String>) -> (b: bool)
    ensures
        b == blank(opt_text(*o)),
{
    match o {
        Some(s) => is_blank(s.as_str()),
        None => true,
    }
}

/// The first rule entry `index` breaks, given that no earlier entry broke one.
fn check_entry(
    entries: &Vec<ProvenanceEntry>,
    index: usize,
    expected: &Vec<String>,
    sources: &Vec<SourceRecord>,
) -> (fault: Option<String>)
    requires
        index < entries@.len(),
    ensures
        match fault {
            Some(m) => entry_fault(
                entries@[index as int],
                texts(expected@),
                entry_paths(entries@.take(index as int)),
                source_ids(sources@),
            ) == Some(m@),
            None => entry_fault(
                entries@[index as int],
                texts(expected@),
                entry_paths(entries@.take(index as int)),
                source_ids(sources@),
            ) is None,
        },
{
    let entry = &entries[index];
    let path = &entry.path;
    if !contains_text(expected, path) {
        return Some(
            enclose("provenance entry names unknown parameter path `", path.as_str(), "`"),
        );
    }
    if path_among(entries, index, path) {
        return Some(enclose("duplicate provenance entry for `", path.as_str(), "`"));
    }
    if is_blank(entry.value_note.as_str()) {
        return Some(enclose("`", path.as_str(), "` provenance needs a value_note"));
    }
    match entry.status {
        ProvenanceStatus::Published => {
            let sid = match &entry.source_id {
                Some(s) => trim(s.as_str()),
                None => String::new(),
            };
            assert(sid@ == trimmed(opt_text(entry.source_id)));
            if sid.as_str().unicode_len() == 0 {
                return Some(enclose("published `", path.as_str(), "` must name a source_id"));
            }
            if !source_among(sources, &sid) {
                let mut m = enclose("published `", path.as_str(), "` names unknown source_id `");
                m.append(sid.as_str());
                m.append("`");
                return Some(m);
            }
            if opt_is_blank(&entry.locator) {
                return Some(
                    enclose(
                        "published `",
                        path.as_str(),
                        "` must give a locator (document, section, or page)",
                    ),
                );
            }
            None
        },
        ProvenanceStatus::Derived => {
            if opt_is_blank(&entry.formula) {
                return Some(enclose("derived `", path.as_str(), "` must state its formula"));
            }
            if entry.inputs.len() == 0 {
                return Some(enclose("derived `", path.as_str(), "` must list its inputs"));
            }
            None
        },
        ProvenanceStatus::Calibrated => {
            if opt_is_blank(&entry.purpose) {
                return Some(enclose("calibrated `", path.as_str(), "` must state its purpose"));
            }
            match &entry.safe_range {
                SafeRangeCheck::Missing => Some(
                    enclose("calibrated `", path.as_str(), "` must give a safe_range"),
                ),
                SafeRangeCheck::Malformed => Some(
                    enclose("calibrated `", path.as_str(), "` has a malformed safe_range"),
                ),
                SafeRangeCheck::ValueOutside { value, low, high } => {
                    let mut m = enclose("calibrated `", path.as_str(), "` value ");
                    m.append(value.as_str());
                    m.append(" lies outside its safe_range [");
                    m.append(low.as_str());
                    m.append(", ");
                    m.append(high.as_str());
                    m.append("]");
                    Some(m)
                },
                SafeRangeCheck::Holds => None,
            }
        },
    }
}

/// Check every provenance rule.
///
/// `expected` lists the parameter paths that must each carry exactly one
/// entry; missing ones are reported in the order given here.
pub fn validate_provenance(
    entries: &Vec<ProvenanceEntry>,
    expected: &Vec<String>,
    sources: &Vec<SourceRecord>,
) -> (result: Result<(), SimError>)
    ensures
        match result {
            Ok(()) => provenance_fault(entries@, texts(expected@), source_ids(sources@)) is None,
            Err(e) => {
                &&& e.code == ErrorCode::InvalidConfig
                &&& provenance_fault(entries@, texts(expected@), source_ids(sources@)) == Some(
                    e.message@,
                )
            },
        },
{
    let ghost ex = texts(expected@);
    let ghost ids = source_ids(sources@);
    let n = entries.len();
    let mut i: usize = 0;
    while i < n
        invariant
            n == entries@.len(),
            i <= n,
            ex == texts(expected@),
            ids == source_ids(sources@),
            first_entry_fault(entries@, i as nat, ex, ids) is None,
        decreases n - i,
    {
        match check_entry(entries, i, expected, sources) {
            Some(message) => {
                proof {
                    assert(entries@.take(i + 1).take(i as int) =~= entries@.take(i as int));
                    assert(first_entry_fault(entries@, (i + 1) as nat, ex, ids) == Some(
                        message@,
                    ));
                    lemma_first_fault_persists(entries@, (i + 1) as nat, n as nat, ex, ids);
                }
                return Err(SimError { code: ErrorCode::InvalidConfig, message });
            },
            None => {},
        }
        i = i + 1;
    }
    let ghost present = entry_paths(entries@);
    assert(entries@.take(n as int) =~= entries@);
    let mut list = String::new();
    let mut any = false;
    let m = expected.len();
    let mut k: usize = 0;
    while k < m
        invariant
            m == expected@.len(),
            n == entries@.len(),
            k <= m,
            ex == texts(expected@),
            present == entry_paths(entries@),
            entries@.take(n as int) == entries@,
            any == (missing_paths(ex.take(k as int), present).len() > 0),
            list@ == join(missing_paths(ex.take(k as int), present), ", "@),
        decreases m - k,
    {
        assert(ex.take(k + 1).drop_last() =~= ex.take(k as int));
        assert(ex.take(k + 1).last() == expected@[k as int]@);
        let covered = path_among(entries, n, &expected[k]);
        let ghost prior = missing_paths(ex.take(k as int), present);
        if !covered {
            let ghost x = expected@[k as int]@;
            assert(prior.push(x).drop_last() =~= prior);
            assert(prior.push(x).last() == x);
            if any {
                list.append(", ");
            }
            list.append(expected[k].as_str());
            any = true;
        }
        k = k + 1;
    }
    assert(ex.take(m as int) =~= ex);
    if any {
        let mut message = String::from_str("missing provenance for: ");
        message.append(list.as_str());
        Err(SimError { code: ErrorCode::InvalidConfig, message })
    } else {
        Ok(())
    }
}

/// Once some entry is at fault, every longer prefix reports that same fault.
proof fn lemma_first_fault_persists(
    entries: Seq<ProvenanceEntry>,
    i: nat,
    n: nat,
    expected: Seq<Seq<char>>,
    ids: Seq<Seq<char>>,
)
    requires
        i <= n,
        first_entry_fault(entries, i, expected, ids) is Some,
    ensures
        first_entry_fault(entries, n, expected, ids) == first_entry_fault(
            entries,
            i,
            expected,
            ids,
        ),
    decreases n - i,
{
    if i < n {
        lemma_first_fault_persists(entries, i, (n - 1) as nat, expected, ids);
    }
}

} // verus!
