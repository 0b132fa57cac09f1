//! The state reader: turns a build-state document into the ordered build
//! records of the channel. Two encodings are accepted — a current one, whose
//! raw times already carry a timezone, and a legacy one, whose raw times
//! gain a UTC marker before parsing — and both resolve to the same record
//! shape.

use vstd::prelude::*;
use vstd::string::StringExecFns;
use crate::json::{Json, obj_get, obj_lookup, opt_prepend};

verus! {

/// One build-state row: a plugin and the instant its current artifact was
/// built, in milliseconds since the epoch.
#[derive(Debug, PartialEq)]
pub struct BuildRecord {
    pub plugin_name: String,
    pub time_built_ms: i64,
}

/// The mathematical content of a [`BuildRecord`].
pub struct BuildRecordModel {
    pub plugin_name: Seq<char>,
    pub time_built_ms: int,
}

impl View for BuildRecord {
    type V = BuildRecordModel;

    open spec fn view(&self) -> BuildRecordModel {
        BuildRecordModel {
            plugin_name: self.plugin_name@,
            time_built_ms: self.time_built_ms as int,
        }
    }
}

/// Why a state document was rejected. Every state error is fatal to the
/// whole run: no partial recovery is attempted.
#[derive(Debug, PartialEq, Eq, Structural)]
pub enum StateError {
    /// The expected nesting of objects was absent somewhere.
    BadShape,
    /// Some raw build time failed to parse as a timestamp.
    BadTimestamp,
}

/// What `chrono::DateTime::parse_from_rfc3339` followed by
/// `timestamp_millis` yields for a text: `Some` of the denoted instant in
/// milliseconds since the epoch when the text is a valid RFC 3339
/// timestamp, `None` otherwise. The result depends on the characters alone.
pub uninterp spec fn rfc3339_millis(s: Seq<char>) -> Option<i64>;

/// Relies on `chrono::DateTime::parse_from_rfc3339`, which accepts exactly
/// the RFC 3339 timestamps, and `chrono::DateTime::timestamp_millis`, which
/// returns the instant in whole milliseconds since the epoch; both depend
/// only on the characters of the input.
#[verifier::external_body]
fn parse_rfc3339_millis(s: &String) -> (r: Option<i64>)
    ensures
        r == rfc3339_millis(s@),
{
    match chrono::DateTime::parse_from_rfc3339(s) {
        Ok(d) => Some(d.timestamp_millis()),
        Err(_) => None,
    }
}

/// The raw build time of one plugin entry: an object holding a string
/// under `TimeBuilt`.
pub open spec fn entry_time(v: Json) -> Option<Seq<char>> {
    match v {
        Json::Obj(fs) => match obj_get(fs@, "TimeBuilt"@) {
            Some(Json::Str(s)) => Some(s@),
            _ => None,
        },
        _ => None,
    }
}

/// The (plugin name, raw time) rows of the plugin table `plugins`, from
/// index `i` on, in encounter order; `None` when some entry is malformed.
pub open spec fn plugin_rows_from(plugins: Seq<(String, Json)>, i: int) -> Option<
    Seq<(Seq<char>, Seq<char>)>,
>
    decreases plugins.len() - i,
{
    if i < 0 || i >= plugins.len() {
        Some(Seq::empty())
    } else {
        match entry_time(plugins[i].1) {
            Some(t) => match plugin_rows_from(plugins, i + 1) {
                Some(rest) => Some(seq![(plugins[i].0@, t)] + rest),
                None => None,
            },
            None => None,
        }
    }
}

/// The rows of one channel value: an object holding a plugin table under
/// `plugins_key`.
pub open spec fn channel_rows_spec(v: Json, plugins_key: Seq<char>) -> Option<
    Seq<(Seq<char>, Seq<char>)>,
> {
    match v {
        Json::Obj(fs) => match obj_get(fs@, plugins_key) {
            Some(Json::Obj(ps)) => plugin_rows_from(ps@, 0),
            _ => None,
        },
        _ => None,
    }
}

/// The rows of every channel of `chs` from index `i` on, concatenated in
/// encounter order.
pub open spec fn channels_rows_from(
    chs: Seq<(String, Json)>,
    i: int,
    plugins_key: Seq<char>,
) -> Option<Seq<(Seq<char>, Seq<char>)>>
    decreases chs.len() - i,
{
    if i < 0 || i >= chs.len() {
        Some(Seq::empty())
    } else {
        match channel_rows_spec(chs[i].1, plugins_key) {
            Some(e) => match channels_rows_from(chs, i + 1, plugins_key) {
                Some(rest) => Some(e + rest),
                None => None,
            },
            None => None,
        }
    }
}

/// All rows of a current-encoding state document: `Channels` → channel
/// name → `Plugins` → plugin name → `TimeBuilt`.
pub open spec fn state_rows_current(doc: Json) -> Option<Seq<(Seq<char>, Seq<char>)>> {
    match doc {
        Json::Obj(fs) => match obj_get(fs@, "Channels"@) {
            Some(Json::Obj(chs)) => channels_rows_from(chs@, 0, "Plugins"@),
            _ => None,
        },
        _ => None,
    }
}

/// All rows of a legacy-encoding state document: channel name at top level
/// → `plugins` → plugin name → `TimeBuilt`.
pub open spec fn state_rows_legacy(doc: Json) -> Option<Seq<(Seq<char>, Seq<char>)>> {
    match doc {
        Json::Obj(chs) => channels_rows_from(chs@, 0, "plugins"@),
        _ => None,
    }
}

/// The views of a vector of (name, raw time) rows.
pub open spec fn rows_view(rows: Seq<(String, String)>) -> Seq<(Seq<char>, Seq<char>)> {
    rows.map_values(|e: (String, String)| (e.0@, e.1@))
}

/// The views of a vector of build records.
pub open spec fn rec_views(recs: Seq<BuildRecord>) -> Seq<BuildRecordModel> {
    recs.map_values(|b: BuildRecord| b@)
}

/// The records that `rows` from index `i` on parse to, once `suffix` is
/// appended to each raw time: `None` when some time is not a valid
/// timestamp.
pub open spec fn parsed_records_from(
    rows: Seq<(Seq<char>, Seq<char>)>,
    i: int,
    suffix: Seq<char>,
) -> Option<Seq<BuildRecordModel>>
    decreases rows.len() - i,
{
    if i < 0 || i >= rows.len() {
        Some(Seq::empty())
    } else {
        match rfc3339_millis(rows[i].1 + suffix) {
            Some(ms) => match parsed_records_from(rows, i + 1, suffix) {
                Some(rest) => Some(
                    seq![
                        BuildRecordModel { plugin_name: rows[i].0, time_built_ms: ms as int },
                    ] + rest,
                ),
                None => None,
            },
            None => None,
        }
    }
}

/// Collects the rows of one channel value, in encounter order.
fn channel_rows(v: &Json, plugins_key: &String) -> (r: Result<Vec<(String, String)>, StateError>)
    ensures
        match r {
            Ok(rows) => channel_rows_spec(*v, plugins_key@) == Some(rows_view(rows@)),
            Err(StateError::BadShape) => channel_rows_spec(*v, plugins_key@) is None,
            Err(_) => false,
        },
{
    let table = match v {
        Json::Obj(fs) => {
            let got = obj_lookup(fs, plugins_key);
            match got {
                Some(Json::Obj(ps)) => ps,
                _ => {
                    return Err(StateError::BadShape);
                },
            }
        },
        _ => {
            return Err(StateError::BadShape);
        },
    };
    let time_key: String = "TimeBuilt".to_owned();
    let mut rows: Vec<(String, String)> = Vec::new();
    let mut i: usize = 0;
    let n: usize = table.len();
    proof {
        assert(rows_view(rows@) =~= Seq::<(Seq<char>, Seq<char>)>::empty());
        match plugin_rows_from(table@, 0) {
            Some(s) => {
                assert(Seq::<(Seq<char>, Seq<char>)>::empty() + s =~= s);
            },
            None => {},
        }
    }
    while i < n
        invariant
            0 <= i <= table@.len(),
            n == table@.len(),
            time_key@ == "TimeBuilt"@,
            channel_rows_spec(*v, plugins_key@) == plugin_rows_from(table@, 0),
            plugin_rows_from(table@, 0) == opt_prepend(
                rows_view(rows@),
                plugin_rows_from(table@, i as int),
            ),
        decreases table@.len() - i,
    {
        let t = match &table[i].1 {
            Json::Obj(fs) => {
                let got = obj_lookup(fs, &time_key);
                match got {
                    Some(Json::Str(s)) => s,
                    _ => {
                        proof {
                            assert(entry_time(table@[i as int].1) is None);
                            assert(plugin_rows_from(table@, i as int) is None);
                        }
                        return Err(StateError::BadShape);
                    },
                }
            },
            _ => {
                proof {
                    assert(entry_time(table@[i as int].1) is None);
                    assert(plugin_rows_from(table@, i as int) is None);
                }
                return Err(StateError::BadShape);
            },
        };
        let ghost prev = rows@;
        let ghost gi = i as int;
        proof {
            assert(entry_time(table@[gi].1) == Some(t@));
        }
        rows.push((table[i].0.clone(), t.clone()));
        proof {
            assert(rows_view(rows@) =~= rows_view(prev) + seq![(table@[gi].0@, t@)]);
            match plugin_rows_from(table@, gi + 1) {
                Some(rest) => {
                    assert((rows_view(prev) + seq![(table@[gi].0@, t@)]) + rest =~= rows_view(
                        prev,
                    ) + (seq![(table@[gi].0@, t@)] + rest));
                },
                None => {},
            }
        }
        i = i + 1;
    }
    proof {
        assert(plugin_rows_from(table@, n as int) == Some(Seq::<(Seq<char>, Seq<char>)>::empty()));
        assert(rows_view(rows@) + Seq::<(Seq<char>, Seq<char>)>::empty() =~= rows_view(rows@));
    }
    Ok(rows)
}

/// Collects the rows of every channel of `chs`, concatenated in encounter
/// order.
fn channels_rows(chs: &Vec<(String, Json)>, plugins_key: &String) -> (r: Result<
    Vec<(String, String)>,
    StateError,
>)
    ensures
        match r {
            Ok(rows) => channels_rows_from(chs@, 0, plugins_key@) == Some(rows_view(rows@)),
            Err(StateError::BadShape) => channels_rows_from(chs@, 0, plugins_key@) is None,
            Err(_) => false,
        },
{
    let mut rows: Vec<(String, String)> = Vec::new();
    let mut i: usize = 0;
    let n: usize = chs.len();
    proof {
        assert(rows_view(rows@) =~= Seq::<(Seq<char>, Seq<char>)>::empty());
        match channels_rows_from(chs@, 0, plugins_key@) {
            Some(s) => {
                assert(Seq::<(Seq<char>, Seq<char>)>::empty() + s =~= s);
            },
            None => {},
        }
    }
    while i < n
        invariant
            0 <= i <= chs@.len(),
            n == chs@.len(),
            channels_rows_from(chs@, 0, plugins_key@) == opt_prepend(
                rows_view(rows@),
                channels_rows_from(chs@, i as int, plugins_key@),
            ),
        decreases chs@.len() - i,
    {
        let ghost gi = i as int;
        let got = channel_rows(&chs[i].1, plugins_key);
        let mut sub = match got {
            Ok(sub) => sub,
            Err(e) => {
                return Err(e);
            },
        };
        let ghost prev = rows@;
        let ghost subv = sub@;
        rows.append(&mut sub);
        proof {
            assert(rows_view(rows@) =~= rows_view(prev) + rows_view(subv));
            match channels_rows_from(chs@, gi + 1, plugins_key@) {
                Some(rest) => {
                    assert((rows_view(prev) + rows_view(subv)) + rest =~= rows_view(prev) + (
                    rows_view(subv) + rest));
                },
                None => {},
            }
        }
        i = i + 1;
    }
    proof {
        assert(channels_rows_from(chs@, n as int, plugins_key@) == Some(
            Seq::<(Seq<char>, Seq<char>)>::empty(),
        ));
        assert(rows_view(rows@) + Seq::<(Seq<char>, Seq<char>)>::empty() =~= rows_view(rows@));
    }
    Ok(rows)
}

/// Turns (name, raw time) rows into build records, appending `suffix` to
/// each raw time before parsing it as a timestamp.
fn parse_entries(rows: &Vec<(String, String)>, suffix: &str) -> (r: Result<
    Vec<BuildRecord>,
    StateError,
>)
    ensures
        match r {
            Ok(recs) => parsed_records_from(rows_view(rows@), 0, suffix@) == Some(
                rec_views(recs@),
            ),
            Err(StateError::BadTimestamp) => parsed_records_from(rows_view(rows@), 0, suffix@)
                is None,
            Err(_) => false,
        },
{
    let ghost rv = rows_view(rows@);
    let mut recs: Vec<BuildRecord> = Vec::new();
    let mut i: usize = 0;
    let n: usize = rows.len();
    proof {
        assert(rec_views(recs@) =~= Seq::<BuildRecordModel>::empty());
        match parsed_records_from(rv, 0, suffix@) {
            Some(s) => {
                assert(Seq::<BuildRecordModel>::empty() + s =~= s);
            },
            None => {},
        }
    }
    while i < n
        invariant
            0 <= i <= rows@.len(),
            n == rows@.len(),
            rv == rows_view(rows@),
            parsed_records_from(rv, 0, suffix@) == opt_prepend(
                rec_views(recs@),
                parsed_records_from(rv, i as int, suffix@),
            ),
        decreases rows@.len() - i,
    {
        let ghost gi = i as int;
        let mut t: String = rows[i].1.clone();
        t.append(suffix);
        proof {
            assert(t@ == rv[gi].1 + suffix@);
        }
        let parsed = parse_rfc3339_millis(&t);
        let ms = match parsed {
            Some(ms) => ms,
            None => {
                return Err(StateError::BadTimestamp);
            },
        };
        let ghost prev = recs@;
        recs.push(BuildRecord { plugin_name: rows[i].0.clone(), time_built_ms: ms });
        proof {
            let m = BuildRecordModel { plugin_name: rv[gi].0, time_built_ms: ms as int };
            assert(rec_views(recs@) =~= rec_views(prev) + seq![m]);
            match parsed_records_from(rv, gi + 1, suffix@) {
                Some(rest) => {
                    assert((rec_views(prev) + seq![m]) + rest =~= rec_views(prev) + (seq![m]
                        + rest));
                },
                None => {},
            }
        }
        i = i + 1;
    }
    proof {
        assert(parsed_records_from(rv, n as int, suffix@) == Some(Seq::<BuildRecordModel>::empty()));
        assert(rec_views(recs@) + Seq::<BuildRecordModel>::empty() =~= rec_views(recs@));
    }
    Ok(recs)
}

/// Reads a current-encoding state document into the channel's build
/// records, in encounter order. The raw times already carry a timezone and
/// parse as they stand. Any failure is fatal: a malformed nesting is
/// `BadShape`, an unparsable time is `BadTimestamp`, and nothing is
/// returned in either case.
pub fn read_state_current(doc: &Json) -> (r: Result<Vec<BuildRecord>, StateError>)
    ensures
        match r {
            Ok(recs) => state_rows_current(*doc) matches Some(es) && parsed_records_from(
                es,
                0,
                Seq::<char>::empty(),
            ) == Some(rec_views(recs@)),
            Err(StateError::BadShape) => state_rows_current(*doc) is None,
            Err(StateError::BadTimestamp) => state_rows_current(*doc) matches Some(es)
                && parsed_records_from(es, 0, Seq::<char>::empty()) is None,
        },
{
    let chs = match doc {
        Json::Obj(fs) => {
            let got = obj_lookup(fs, &"Channels".to_owned());
            match got {
                Some(Json::Obj(chs)) => chs,
                _ => {
                    return Err(StateError::BadShape);
                },
            }
        },
        _ => {
            return Err(StateError::BadShape);
        },
    };
    let rows = match channels_rows(chs, &"Plugins".to_owned()) {
        Ok(rows) => rows,
        Err(e) => {
            return Err(e);
        },
    };
    proof {
        reveal_strlit("");
        assert(""@ =~= Seq::<char>::empty());
    }
    parse_entries(&rows, "")
}

/// Reads a legacy-encoding state document into the channel's build
/// records, in encounter order. The raw times carry no timezone; each
/// gains the UTC marker before parsing. The failure policy is the same as
/// for the current encoding.
pub fn read_state_legacy(doc: &Json) -> (r: Result<Vec<BuildRecord>, StateError>)
    ensures
        match r {
            Ok(recs) => state_rows_legacy(*doc) matches Some(es) && parsed_records_from(
                es,
                0,
                "Z"@,
            ) == Some(rec_views(recs@)),
            Err(StateError::BadShape) => state_rows_legacy(*doc) is None,
            Err(StateError::BadTimestamp) => state_rows_legacy(*doc) matches Some(es)
                && parsed_records_from(es, 0, "Z"@) is None,
        },
{
    let chs = match doc {
        Json::Obj(chs) => chs,
        _ => {
            return Err(StateError::BadShape);
        },
    };
    let rows = match channels_rows(chs, &"plugins".to_owned()) {
        Ok(rows) => rows,
        Err(e) => {
            return Err(e);
        },
    };
    parse_entries(&rows, "Z")
}

/// Law: a successful parse keeps every row — one build record per plugin
/// entry of the state document, in encounter order, each carrying its
/// entry's plugin name.
pub proof fn lemma_parsed_records_keep_rows(
    rows: Seq<(Seq<char>, Seq<char>)>,
    suffix: Seq<char>,
    i: int,
)
    requires
        0 <= i <= rows.len(),
    ensures
        parsed_records_from(rows, i, suffix) matches Some(ms) ==> ms.len() == rows.len() - i
            && forall|k: int| 0 <= k < ms.len() ==> (#[trigger] ms[k]).plugin_name == rows[i + k].0,
    decreases rows.len() - i,
{
    if i < rows.len() {
        lemma_parsed_records_keep_rows(rows, suffix, i + 1);
    }
}

proof fn lemma_equivalent_rows_parse_alike_from(
    legacy: Seq<(Seq<char>, Seq<char>)>,
    current: Seq<(Seq<char>, Seq<char>)>,
    i: int,
)
    requires
        legacy.len() == current.len(),
        forall|j: int| 0 <= j < legacy.len() ==> legacy[j].0 == current[j].0,
        forall|j: int|
            0 <= j < legacy.len() ==> rfc3339_millis(legacy[j].1 + "Z"@) == rfc3339_millis(
                current[j].1,
            ),
    ensures
        parsed_records_from(legacy, i, "Z"@) == parsed_records_from(
            current,
            i,
            Seq::<char>::empty(),
        ),
    decreases legacy.len() - i,
{
    if 0 <= i < legacy.len() {
        assert(current[i].1 + Seq::<char>::empty() =~= current[i].1);
        lemma_equivalent_rows_parse_alike_from(legacy, current, i + 1);
    }
}

/// Law: the two state encodings are interchangeable. Two row sequences
/// with the same plugin names, whose raw times denote the same instants —
/// the legacy time with the UTC marker appended parses to the same
/// milliseconds as the current time — parse to identical build records.
/// Together with the readers' contracts this says that semantically
/// equivalent legacy and current state documents yield the same records.
pub proof fn lemma_encoding_equivalence(
    legacy: Seq<(Seq<char>, Seq<char>)>,
    current: Seq<(Seq<char>, Seq<char>)>,
)
    requires
        legacy.len() == current.len(),
        forall|j: int| 0 <= j < legacy.len() ==> legacy[j].0 == current[j].0,
        forall|j: int|
            0 <= j < legacy.len() ==> rfc3339_millis(legacy[j].1 + "Z"@) == rfc3339_millis(
                current[j].1,
            ),
    ensures
        parsed_records_from(legacy, 0, "Z"@) == parsed_records_from(
            current,
            0,
            Seq::<char>::empty(),
        ),
{
    lemma_equivalent_rows_parse_alike_from(legacy, current, 0);
}

} // verus!
