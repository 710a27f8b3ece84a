use vstd::prelude::*;
use crate::text::{has_prefix, line_views, same_text, starts_with};

verus! {

/// Metadata read from the comment header of a scenario script.
pub struct ScenarioMetadata {
    pub name: String,
    pub description: String,
    pub description_long: String,
    pub scenario_type: String,
}

/// Mathematical model of `ScenarioMetadata`: each field as a sequence of characters.
pub struct MetadataView {
    pub name: Seq<char>,
    pub description: Seq<char>,
    pub description_long: Seq<char>,
    pub scenario_type: Seq<char>,
}

impl View for ScenarioMetadata {
    type V = MetadataView;

    open spec fn view(&self) -> MetadataView {
        MetadataView {
            name: self.name@,
            description: self.description@,
            description_long: self.description_long@,
            scenario_type: self.scenario_type@,
        }
    }
}

/// What `str::to_lowercase` returns for a string.
pub uninterp spec fn lowercase_of(s: Seq<char>) -> Seq<char>;

/// What `str::trim` returns for a string.
pub uninterp spec fn trimmed_of(s: Seq<char>) -> Seq<char>;

/// Relies on `str::to_lowercase`: its result depends on the characters alone.
#[verifier::external_body]
fn to_lower(s: &str) -> (r: String)
    ensures
        r@ == lowercase_of(s@),
{
    s.to_lowercase()
}

/// Relies on `str::trim`: its result depends on the characters alone.
#[verifier::external_body]
fn trim_str<'a>(s: &'a str) -> (r: &'a str)
    ensures
        r@ == trimmed_of(s@),
{
    s.trim()
}

/// `--`: every header line starts with it.
pub open spec fn comment_marker() -> Seq<char> {
    seq!['-', '-']
}

/// `-- `: a `key: value` line.
pub open spec fn key_marker() -> Seq<char> {
    seq!['-', '-', ' ']
}

/// `--- `: a line of the long description.
pub open spec fn long_marker() -> Seq<char> {
    seq!['-', '-', '-', ' ']
}

/// `---` alone: a blank line of the long description.
pub open spec fn blank_long_line() -> Seq<char> {
    seq!['-', '-', '-']
}

/// Metadata with every field empty.
pub open spec fn empty_metadata() -> MetadataView {
    MetadataView {
        name: Seq::empty(),
        description: Seq::empty(),
        description_long: Seq::empty(),
        scenario_type: Seq::empty(),
    }
}

/// `i` is the position of the first colon of `s`.
pub open spec fn is_first_colon(s: Seq<char>, i: int) -> bool {
    0 <= i < s.len() && s[i] == ':' && forall|j: int| 0 <= j < i ==> s[j] != ':'
}

/// `s` split at its first colon into the text before and the text after it.
pub open spec fn split_at_colon(s: Seq<char>) -> Option<(Seq<char>, Seq<char>)> {
    if exists|i: int| is_first_colon(s, i) {
        let i = choose|i: int| is_first_colon(s, i);
        Some((s.subrange(0, i), s.subrange(i + 1, s.len() as int)))
    } else {
        None
    }
}

/// Stores `value` in the field that the normalised `key` names; other keys change nothing.
pub open spec fn assign_spec(m: MetadataView, key: Seq<char>, value: Seq<char>) -> MetadataView {
    if key == seq!['n', 'a', 'm', 'e'] {
        MetadataView { name: value, ..m }
    } else if key == seq!['d', 'e', 's', 'c', 'r', 'i', 'p', 't', 'i', 'o', 'n'] {
        MetadataView { description: value, ..m }
    } else if key == seq!['t', 'y', 'p', 'e'] {
        MetadataView { scenario_type: value, ..m }
    } else {
        m
    }
}

/// Effect of a `-- key: value` line: the key is lower-cased then trimmed, the value trimmed.
pub open spec fn key_value_spec(m: MetadataView, line: Seq<char>) -> MetadataView {
    match split_at_colon(line.subrange(3, line.len() as int)) {
        Some((key, value)) => assign_spec(m, trimmed_of(lowercase_of(key)), trimmed_of(value)),
        None => m,
    }
}

/// Effect of one header line; the three line forms are tested one after the other.
pub open spec fn step_spec(m: MetadataView, line: Seq<char>) -> MetadataView {
    let m1 = if starts_with(line, key_marker()) {
        key_value_spec(m, line)
    } else {
        m
    };
    let m2 = if starts_with(line, long_marker()) {
        MetadataView {
            description_long: m1.description_long + line.subrange(4, line.len() as int) + seq![
                '\n',
            ],
            ..m1
        }
    } else {
        m1
    };
    if line == blank_long_line() {
        MetadataView { description_long: m2.description_long + seq!['\n'], ..m2 }
    } else {
        m2
    }
}

/// Applies the lines in order, up to the first one without the comment marker.
pub open spec fn scan_spec(m: MetadataView, lines: Seq<Seq<char>>) -> MetadataView
    decreases lines.len(),
{
    if lines.len() == 0 || !starts_with(lines[0], comment_marker()) {
        m
    } else {
        scan_spec(step_spec(m, lines[0]), lines.drop_first())
    }
}

/// The metadata that a script made of `lines` declares in its header.
pub open spec fn parse_spec(lines: Seq<Seq<char>>) -> MetadataView {
    scan_spec(empty_metadata(), lines)
}

/// The position of the first colon in `s`, if any.
pub fn first_colon(s: &str) -> (r: Option<usize>)
    ensures
        match r {
            Some(i) => is_first_colon(s@, i as int),
            None => forall|i: int| 0 <= i < s@.len() ==> s@[i] != ':',
        },
{
    let n = s.unicode_len();
    let mut i: usize = 0;
    while i < n
        invariant
            n == s@.len(),
            i <= n,
            forall|j: int| 0 <= j < i ==> s@[j] != ':',
        decreases n - i,
    {
        if s.get_char(i) == ':' {
            return Some(i);
        }
        i += 1;
    }
    None
}

proof fn lemma_first_colon_unique(s: Seq<char>, i: int, j: int)
    requires
        is_first_colon(s, i),
        is_first_colon(s, j),
    ensures
        i == j,
{
}

/// Stores `value` in the field named by the already normalised `key`:
/// `name`, `description` or `type`; any other key is ignored.
pub fn assign_field(metadata: &mut ScenarioMetadata, key: &str, value: &str)
    ensures
        final(metadata)@ == assign_spec(old(metadata)@, key@, value@),
{
    proof {
        reveal_strlit("name");
        reveal_strlit("description");
        reveal_strlit("type");
        assert("name"@ =~= seq!['n', 'a', 'm', 'e']);
        assert("description"@ =~= seq!['d', 'e', 's', 'c', 'r', 'i', 'p', 't', 'i', 'o', 'n']);
        assert("type"@ =~= seq!['t', 'y', 'p', 'e']);
    }
    if same_text(key, "name") {
        metadata.name = String::from_str(value);
    } else if same_text(key, "description") {
        metadata.description = String::from_str(value);
    } else if same_text(key, "type") {
        metadata.scenario_type = String::from_str(value);
    }
}

/// Reads a `-- key: value` line into `metadata`.
pub fn parse_key_values(line: &str, metadata: &mut ScenarioMetadata)
    requires
        starts_with(line@, key_marker()),
    ensures
        final(metadata)@ == key_value_spec(old(metadata)@, line@),
{
    let n = line.unicode_len();
    let rest = line.substring_char(3, n);
    match first_colon(rest) {
        Some(i) => {
            let rn = rest.unicode_len();
            let key = rest.substring_char(0, i);
            let value = rest.substring_char(i + 1, rn);
            let lowered = to_lower(key);
            let k = trim_str(lowered.as_str());
            let v = trim_str(value);
            proof {
                let c = choose|c: int| is_first_colon(rest@, c);
                lemma_first_colon_unique(rest@, c, i as int);
            }
            assign_field(metadata, k, v);
        },
        None => {
            proof {
                assert(!exists|c: int| is_first_colon(rest@, c));
            }
        },
    }
}

/// A record with every field empty.
pub fn empty_scenario_metadata() -> (r: ScenarioMetadata)
    ensures
        r@ == empty_metadata(),
{
    ScenarioMetadata {
        name: String::new(),
        description: String::new(),
        description_long: String::new(),
        scenario_type: String::new(),
    }
}

/// Applies one header line to `metadata`.
fn apply_header_line(line: &str, metadata: &mut ScenarioMetadata)
    ensures
        final(metadata)@ == step_spec(old(metadata)@, line@),
{
    proof {
        reveal_strlit("-- ");
        reveal_strlit("--- ");
        reveal_strlit("---");
        reveal_strlit("\n");
        assert("-- "@ =~= key_marker());
        assert("--- "@ =~= long_marker());
        assert("---"@ =~= blank_long_line());
        assert("\n"@ =~= seq!['\n']);
    }
    if has_prefix(line, "-- ") {
        parse_key_values(line, metadata);
    }
    if has_prefix(line, "--- ") {
        let n = line.unicode_len();
        metadata.description_long.append(line.substring_char(4, n));
        metadata.description_long.append("\n");
    }
    if same_text(line, "---") {
        metadata.description_long.append("\n");
    }
}

/// Reads the metadata header of a scenario script given as its lines.
///
/// Lines are taken in order until the first one that does not start with `--`.
/// A `-- key: value` line sets `name`, `description` or `type` (the key is
/// lower-cased and trimmed, the value trimmed); a `--- text` line appends
/// `text` and a newline to the long description, and a bare `---` appends a
/// newline. Fields that no line sets stay empty.
pub fn parse_scenario_metadata(lines: &Vec<String>) -> (r: ScenarioMetadata)
    ensures
        r@ == parse_spec(line_views(lines@)),
{
    let ghost all = line_views(lines@);
    let mut metadata = empty_scenario_metadata();
    let mut i: usize = 0;
    proof {
        assert(all.subrange(0, all.len() as int) =~= all);
    }
    while i < lines.len()
        invariant
            i <= lines.len(),
            all == line_views(lines@),
            all.len() == lines@.len(),
            scan_spec(metadata@, all.subrange(i as int, all.len() as int)) == parse_spec(all),
        ensures
            metadata@ == parse_spec(all),
        decreases lines.len() - i,
    {
        let line = lines[i].as_str();
        let ghost rest = all.subrange(i as int, all.len() as int);
        proof {
            assert(rest[0] == line@);
            reveal_strlit("--");
            assert("--"@ =~= comment_marker());
        }
        if !has_prefix(line, "--") {
            break;
        }
        let ghost before = metadata@;
        apply_header_line(line, &mut metadata);
        proof {
            assert(rest.drop_first() =~= all.subrange(i + 1, all.len() as int));
        }
        i += 1;
    }
    proof {
        if i == lines.len() {
            assert(all.subrange(i as int, all.len() as int).len() == 0);
        }
    }
    metadata
}

proof fn lemma_scan_stops(m: MetadataView, lines: Seq<Seq<char>>, k: int)
    requires
        0 <= k < lines.len(),
        !starts_with(lines[k], comment_marker()),
    ensures
        scan_spec(m, lines) == scan_spec(m, lines.take(k)),
    decreases k,
{
    if k > 0 && starts_with(lines[0], comment_marker()) {
        assert(lines.take(k).drop_first() =~= lines.drop_first().take(k - 1));
        lemma_scan_stops(step_spec(m, lines[0]), lines.drop_first(), k - 1);
    }
}

/// A script whose first line lacks the comment marker declares no metadata:
/// every field is empty.
pub proof fn lemma_no_header_gives_empty(lines: Seq<Seq<char>>)
    requires
        lines.len() > 0,
        !starts_with(lines[0], comment_marker()),
    ensures
        parse_spec(lines) == empty_metadata(),
{
}

/// The header ends at the first line without the comment marker: that line and
/// everything after it have no effect on the metadata.
pub proof fn lemma_header_ends_at_plain_line(lines: Seq<Seq<char>>, k: int)
    requires
        0 <= k < lines.len(),
        !starts_with(lines[k], comment_marker()),
    ensures
        parse_spec(lines) == parse_spec(lines.take(k)),
{
    lemma_scan_stops(empty_metadata(), lines, k);
}

/// The lines that describe one installed scenario in a listing.
pub open spec fn listing_spec(m: MetadataView, file_name: Seq<char>, size: Seq<char>) -> Seq<
    Seq<char>,
> {
    seq![
        "name: "@ + m.name,
        "description: "@ + m.description,
        "long description: "@ + m.description_long,
        " - "@ + file_name + " ("@ + size + ")"@,
    ]
}

fn prefixed(prefix: &str, text: &str) -> (r: String)
    ensures
        r@ == prefix@ + text@,
{
    let mut r = String::from_str(prefix);
    r.append(text);
    r
}

/// Describes one installed scenario: its header fields, then its file name and
/// its size as already formatted.
pub fn listing_lines(metadata: &ScenarioMetadata, file_name: &str, size: &str) -> (r: Vec<String>)
    ensures
        line_views(r@) == listing_spec(metadata@, file_name@, size@),
{
    let mut r: Vec<String> = Vec::new();
    r.push(prefixed("name: ", metadata.name.as_str()));
    r.push(prefixed("description: ", metadata.description.as_str()));
    r.push(prefixed("long description: ", metadata.description_long.as_str()));
    let mut last = prefixed(" - ", file_name);
    last.append(" (");
    last.append(size);
    last.append(")");
    r.push(last);
    assert(line_views(r@) =~= listing_spec(metadata@, file_name@, size@));
    r
}

} // verus!
