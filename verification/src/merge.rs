//! The merge engine and index assembler: for each build record in
//! encounter order, the matching manifest is resolved and the derived
//! fields are overwritten by one uniform policy; the finalized records,
//! collected in that order, are the repository index.

use vstd::prelude::*;
use vstd::string::StringExecFns;
use crate::json::Json;
use crate::manifest::{
    ManifestModel,
    ManifestRecord,
    fields_represent,
    manifest_of,
    manifest_to_json,
    parse_manifest,
};
use crate::state::{BuildRecord, BuildRecordModel, rec_views};

verus! {

/// The install link of a plugin: `{host}/stable/{name}/latest.zip`.
pub open spec fn install_link(host: Seq<char>, name: Seq<char>) -> Seq<char> {
    host + "/stable/"@ + name + "/latest.zip"@
}

/// The derived-field overwrite policy, a pure function of the loaded
/// manifest, the build record and the download host. The last update is
/// the build instant in whole seconds (milliseconds divided by a
/// thousand, rounding toward minus infinity); the download count is
/// reset; the three download links coincide for now; the provenance flag
/// and channel name are fixed. Every other field — the changelog
/// included — keeps the manifest's value.
pub open spec fn apply_derivation(
    m: ManifestModel,
    rec: BuildRecordModel,
    host: Seq<char>,
) -> ManifestModel {
    ManifestModel {
        last_update: rec.time_built_ms / 1000,
        download_count: 0,
        download_link_install: install_link(host, rec.plugin_name),
        download_link_update: install_link(host, rec.plugin_name),
        download_link_testing: install_link(host, rec.plugin_name),
        is_dip17_plugin: true,
        dip17_channel: "stable"@,
        ..m
    }
}

/// Law: the overwrite policy, spelled out. For every manifest, build
/// record and host, the emitted entry has a zero download count, the
/// provenance flag set and the channel name `stable`, update and testing
/// links equal to the install link, the install link built from the host
/// and the plugin name, and the last update equal to the build instant in
/// whole seconds; every remaining field keeps the manifest's value,
/// whatever stale derived values the manifest file carried.
pub proof fn lemma_derivation_policy(m: ManifestModel, rec: BuildRecordModel, host: Seq<char>)
    ensures
        apply_derivation(m, rec, host).download_count == 0,
        apply_derivation(m, rec, host).is_dip17_plugin == true,
        apply_derivation(m, rec, host).dip17_channel == "stable"@,
        apply_derivation(m, rec, host).download_link_update == apply_derivation(
            m,
            rec,
            host,
        ).download_link_install,
        apply_derivation(m, rec, host).download_link_testing == apply_derivation(
            m,
            rec,
            host,
        ).download_link_install,
        apply_derivation(m, rec, host).download_link_install == install_link(
            host,
            rec.plugin_name,
        ),
        apply_derivation(m, rec, host).last_update == rec.time_built_ms / 1000,
        apply_derivation(m, rec, host).author == m.author,
        apply_derivation(m, rec, host).name == m.name,
        apply_derivation(m, rec, host).internal_name == m.internal_name,
        apply_derivation(m, rec, host).assembly_version == m.assembly_version,
        apply_derivation(m, rec, host).description == m.description,
        apply_derivation(m, rec, host).applicable_version == m.applicable_version,
        apply_derivation(m, rec, host).repo_url == m.repo_url,
        apply_derivation(m, rec, host).tags == m.tags,
        apply_derivation(m, rec, host).dalamud_api_level == m.dalamud_api_level,
        apply_derivation(m, rec, host).load_required_state == m.load_required_state,
        apply_derivation(m, rec, host).load_sync == m.load_sync,
        apply_derivation(m, rec, host).can_unload_async == m.can_unload_async,
        apply_derivation(m, rec, host).load_priority == m.load_priority,
        apply_derivation(m, rec, host).punchline == m.punchline,
        apply_derivation(m, rec, host).accepts_feedback == m.accepts_feedback,
        apply_derivation(m, rec, host).changelog == m.changelog,
        apply_derivation(m, rec, host).category_tags == m.category_tags,
        apply_derivation(m, rec, host).is_hide == m.is_hide,
        apply_derivation(m, rec, host).testing_assembly_version == m.testing_assembly_version,
        apply_derivation(m, rec, host).is_testing_exclusive == m.is_testing_exclusive,
        apply_derivation(m, rec, host).image_urls == m.image_urls,
        apply_derivation(m, rec, host).icon_url == m.icon_url,
        apply_derivation(m, rec, host).feedback_message == m.feedback_message,
        apply_derivation(m, rec, host).feedback_webhook == m.feedback_webhook,
{
}

/// Law: derivation is idempotent. The derived fields depend only on the
/// build record and the host, never on the run or on previously derived
/// values, so applying the policy twice with the same inputs gives the
/// entry that one application gives.
pub proof fn lemma_derivation_idempotent(m: ManifestModel, rec: BuildRecordModel, host: Seq<char>)
    ensures
        apply_derivation(apply_derivation(m, rec, host), rec, host) == apply_derivation(
            m,
            rec,
            host,
        ),
{
}

/// Builds `{host}/stable/{name}/latest.zip`.
fn build_install_link(host: &str, name: &String) -> (r: String)
    ensures
        r@ == install_link(host@, name@),
{
    let mut s: String = host.to_owned();
    s.append("/stable/");
    s.append(name.as_str());
    s.append("/latest.zip");
    proof {
        assert(s@ =~= host@ + "/stable/"@ + name@ + "/latest.zip"@);
    }
    s
}

/// Whole seconds since the epoch of a millisecond timestamp, rounding
/// toward minus infinity.
fn millis_to_seconds(ms: i64) -> (r: i64)
    ensures
        r as int == (ms as int) / 1000,
{
    if ms >= 0 {
        let q: u64 = (ms as u64) / 1000;
        q as i64
    } else {
        let p: i64 = -(ms + 1);
        let q: i64 = ((p as u64) / 1000) as i64;
        proof {
            let pi = p as int;
            let qi = pi / 1000;
            let ri = pi % 1000;
            assert(pi == 1000 * qi + ri) by {
                vstd::arithmetic::div_mod::lemma_fundamental_div_mod(pi, 1000);
            }
            assert((ms as int) == (-qi - 1) * 1000 + (999 - ri));
            vstd::arithmetic::div_mod::lemma_fundamental_div_mod_converse(
                ms as int,
                1000,
                -qi - 1,
                999 - ri,
            );
        }
        -(q + 1)
    }
}

/// Overlays the derived fields onto a loaded manifest, per the policy of
/// [`apply_derivation`]: the one place the merge engine writes, applied
/// uniformly to every entry on every run.
pub fn derive_fields(m: ManifestRecord, rec: &BuildRecord, host: &str) -> (r: ManifestRecord)
    ensures
        r@ == apply_derivation(m@, rec@, host@),
{
    let link = build_install_link(host, &rec.plugin_name);
    let link_update = link.clone();
    let link_testing = link.clone();
    ManifestRecord {
        last_update: millis_to_seconds(rec.time_built_ms),
        download_count: 0,
        download_link_install: link,
        download_link_update: link_update,
        download_link_testing: link_testing,
        is_dip17_plugin: true,
        dip17_channel: "stable".to_owned(),
        ..m
    }
}

/// The views of a vector of manifest records.
pub open spec fn man_views(v: Seq<ManifestRecord>) -> Seq<ManifestModel> {
    v.map_values(|m: ManifestRecord| m@)
}

/// The index assembled from the records and their manifest documents,
/// from index `i` on: one derived entry per record whose document is
/// present and well-formed, in encounter order; the other records are
/// skipped.
pub open spec fn index_from(
    recs: Seq<BuildRecordModel>,
    docs: Seq<Option<Json>>,
    host: Seq<char>,
    i: int,
) -> Seq<ManifestModel>
    decreases recs.len() - i,
{
    if i < 0 || i >= recs.len() {
        Seq::empty()
    } else {
        match docs[i] {
            Some(doc) => match manifest_of(doc) {
                Some(m) => seq![apply_derivation(m, recs[i], host)] + index_from(
                    recs,
                    docs,
                    host,
                    i + 1,
                ),
                None => index_from(recs, docs, host, i + 1),
            },
            None => index_from(recs, docs, host, i + 1),
        }
    }
}

/// The (record, manifest) pairs that resolve, from index `i` on, in
/// encounter order.
pub open spec fn resolved_from(
    recs: Seq<BuildRecordModel>,
    docs: Seq<Option<Json>>,
    i: int,
) -> Seq<(BuildRecordModel, ManifestModel)>
    decreases recs.len() - i,
{
    if i < 0 || i >= recs.len() {
        Seq::empty()
    } else {
        match docs[i] {
            Some(doc) => match manifest_of(doc) {
                Some(m) => seq![(recs[i], m)] + resolved_from(recs, docs, i + 1),
                None => resolved_from(recs, docs, i + 1),
            },
            None => resolved_from(recs, docs, i + 1),
        }
    }
}

/// Law: the index is the derivation applied, in encounter order, to
/// exactly the build records whose manifest resolved. In particular its
/// length is the number of resolved records, and its entries keep the
/// order in which the records were encountered in the state source.
pub proof fn lemma_index_matches_resolved(
    recs: Seq<BuildRecordModel>,
    docs: Seq<Option<Json>>,
    host: Seq<char>,
)
    ensures
        index_from(recs, docs, host, 0) == resolved_from(recs, docs, 0).map_values(
            |p: (BuildRecordModel, ManifestModel)| apply_derivation(p.1, p.0, host),
        ),
        index_from(recs, docs, host, 0).len() == resolved_from(recs, docs, 0).len(),
{
    lemma_index_matches_resolved_from(recs, docs, host, 0);
}

proof fn lemma_index_matches_resolved_from(
    recs: Seq<BuildRecordModel>,
    docs: Seq<Option<Json>>,
    host: Seq<char>,
    i: int,
)
    ensures
        index_from(recs, docs, host, i) == resolved_from(recs, docs, i).map_values(
            |p: (BuildRecordModel, ManifestModel)| apply_derivation(p.1, p.0, host),
        ),
    decreases recs.len() - i,
{
    let f = |p: (BuildRecordModel, ManifestModel)| apply_derivation(p.1, p.0, host);
    if i < 0 || i >= recs.len() {
        assert(resolved_from(recs, docs, i).map_values(f) =~= Seq::<ManifestModel>::empty());
    } else {
        lemma_index_matches_resolved_from(recs, docs, host, i + 1);
        match docs[i] {
            Some(doc) => match manifest_of(doc) {
                Some(m) => {
                    assert((seq![(recs[i], m)] + resolved_from(recs, docs, i + 1)).map_values(f)
                        =~= seq![f((recs[i], m))] + resolved_from(recs, docs, i + 1).map_values(f));
                },
                None => {},
            },
            None => {},
        }
    }
}

/// Assembles the repository index. `docs` holds, for each build record in
/// encounter order, that plugin's manifest document, or nothing when no
/// manifest file could be read. A record whose document is absent or
/// malformed is skipped — its entry is simply missing from the index —
/// and the run continues with the rest.
pub fn build_index(recs: &Vec<BuildRecord>, docs: &Vec<Option<Json>>, host: &str) -> (r: Vec<
    ManifestRecord,
>)
    requires
        recs@.len() == docs@.len(),
    ensures
        man_views(r@) == index_from(rec_views(recs@), docs@, host@, 0),
{
    let ghost rv = rec_views(recs@);
    let mut out: Vec<ManifestRecord> = Vec::new();
    let mut i: usize = 0;
    let n: usize = recs.len();
    proof {
        assert(man_views(out@) =~= Seq::<ManifestModel>::empty());
        assert(Seq::<ManifestModel>::empty() + index_from(rv, docs@, host@, 0) =~= index_from(
            rv,
            docs@,
            host@,
            0,
        ));
    }
    while i < n
        invariant
            0 <= i <= recs@.len(),
            n == recs@.len(),
            recs@.len() == docs@.len(),
            rv == rec_views(recs@),
            index_from(rv, docs@, host@, 0) == man_views(out@) + index_from(
                rv,
                docs@,
                host@,
                i as int,
            ),
        decreases recs@.len() - i,
    {
        let ghost gi = i as int;
        match &docs[i] {
            Some(doc) => {
                match parse_manifest(doc) {
                    Some(m) => {
                        let entry = derive_fields(m, &recs[i], host);
                        let ghost prev = out@;
                        out.push(entry);
                        proof {
                            assert(man_views(out@) =~= man_views(prev) + seq![entry@]);
                            assert((man_views(prev) + seq![entry@]) + index_from(
                                rv,
                                docs@,
                                host@,
                                gi + 1,
                            ) =~= man_views(prev) + (seq![entry@] + index_from(
                                rv,
                                docs@,
                                host@,
                                gi + 1,
                            )));
                        }
                    },
                    None => {
                    },
                }
            },
            None => {
            },
        }
        i = i + 1;
    }
    proof {
        assert(index_from(rv, docs@, host@, n as int) =~= Seq::<ManifestModel>::empty());
        assert(man_views(out@) + Seq::<ManifestModel>::empty() =~= man_views(out@));
    }
    out
}

/// `j` is an object spelling out the record `m`.
pub open spec fn obj_represents(j: Json, m: ManifestModel) -> bool {
    j matches Json::Obj(fs) && fields_represent(fs@, m)
}

/// Serializes the index: an array holding one manifest document per
/// entry, in index order.
pub fn index_to_json(index: &Vec<ManifestRecord>) -> (r: Json)
    ensures
        r matches Json::Arr(items) && items@.len() == index@.len() && forall|k: int|
            0 <= k < index@.len() ==> #[trigger] obj_represents(items@[k], index@[k]@),
{
    let mut items: Vec<Json> = Vec::new();
    let mut i: usize = 0;
    let n: usize = index.len();
    while i < n
        invariant
            0 <= i <= index@.len(),
            n == index@.len(),
            items@.len() == i,
            forall|k: int| 0 <= k < i ==> #[trigger] obj_represents(items@[k], index@[k]@),
        decreases index@.len() - i,
    {
        items.push(manifest_to_json(&index[i]));
        i = i + 1;
    }
    Json::Arr(items)
}

} // verus!
