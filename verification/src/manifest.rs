//! The manifest loader: turns one plugin's manifest document into a fully
//! populated record, and a record back into a document for the output
//! index. The external field names are a compatibility contract with the
//! manifest-producing tool and are fixed here verbatim; optional fields
//! carry explicit external names as well, and fall back to their declared
//! defaults when absent.

use vstd::prelude::*;
use crate::json::{Json, obj_get, obj_lookup, opt_prepend};

verus! {

/// One plugin's publishable metadata, the unit of the output index.
/// Identity, load-behavior, presentation, feedback and testing fields pass
/// through from the manifest file unchanged; the derived fields
/// (`last_update`, `download_count`, the three download links,
/// `is_dip17_plugin`, `dip17_channel`) are overwritten on every run by the
/// merge engine.
#[derive(Debug, PartialEq)]
pub struct ManifestRecord {
    pub author: String,
    pub name: String,
    pub internal_name: String,
    pub assembly_version: String,
    pub description: String,
    pub applicable_version: String,
    pub repo_url: String,
    pub tags: Vec<String>,
    pub dalamud_api_level: i32,
    pub load_required_state: i32,
    pub load_sync: bool,
    pub can_unload_async: bool,
    pub load_priority: i32,
    pub punchline: String,
    pub accepts_feedback: bool,
    pub is_dip17_plugin: bool,
    pub dip17_channel: String,
    pub changelog: String,
    pub category_tags: Option<Vec<String>>,
    pub is_hide: bool,
    pub testing_assembly_version: Option<String>,
    pub is_testing_exclusive: bool,
    pub download_count: i32,
    pub last_update: i64,
    pub download_link_install: String,
    pub download_link_update: String,
    pub download_link_testing: String,
    pub image_urls: Option<Vec<String>>,
    pub icon_url: Option<String>,
    pub feedback_message: Option<String>,
    pub feedback_webhook: Option<String>,
}

/// The views of a vector of strings.
pub open spec fn strs_view(v: Seq<String>) -> Seq<Seq<char>> {
    v.map_values(|s: String| s@)
}

/// The view of an optional string.
pub open spec fn opt_str_view(o: Option<String>) -> Option<Seq<char>> {
    match o {
        Some(s) => Some(s@),
        None => None,
    }
}

/// The views of an optional vector of strings.
pub open spec fn opt_strs_view(o: Option<Vec<String>>) -> Option<Seq<Seq<char>>> {
    match o {
        Some(v) => Some(strs_view(v@)),
        None => None,
    }
}

/// The mathematical content of a [`ManifestRecord`].
pub struct ManifestModel {
    pub author: Seq<char>,
    pub name: Seq<char>,
    pub internal_name: Seq<char>,
    pub assembly_version: Seq<char>,
    pub description: Seq<char>,
    pub applicable_version: Seq<char>,
    pub repo_url: Seq<char>,
    pub tags: Seq<Seq<char>>,
    pub dalamud_api_level: int,
    pub load_required_state: int,
    pub load_sync: bool,
    pub can_unload_async: bool,
    pub load_priority: int,
    pub punchline: Seq<char>,
    pub accepts_feedback: bool,
    pub is_dip17_plugin: bool,
    pub dip17_channel: Seq<char>,
    pub changelog: Seq<char>,
    pub category_tags: Option<Seq<Seq<char>>>,
    pub is_hide: bool,
    pub testing_assembly_version: Option<Seq<char>>,
    pub is_testing_exclusive: bool,
    pub download_count: int,
    pub last_update: int,
    pub download_link_install: Seq<char>,
    pub download_link_update: Seq<char>,
    pub download_link_testing: Seq<char>,
    pub image_urls: Option<Seq<Seq<char>>>,
    pub icon_url: Option<Seq<char>>,
    pub feedback_message: Option<Seq<char>>,
    pub feedback_webhook: Option<Seq<char>>,
}

impl View for ManifestRecord {
    type V = ManifestModel;

    open spec fn view(&self) -> ManifestModel {
        ManifestModel {
            author: self.author@,
            name: self.name@,
            internal_name: self.internal_name@,
            assembly_version: self.assembly_version@,
            description: self.description@,
            applicable_version: self.applicable_version@,
            repo_url: self.repo_url@,
            tags: strs_view(self.tags@),
            dalamud_api_level: self.dalamud_api_level as int,
            load_required_state: self.load_required_state as int,
            load_sync: self.load_sync,
            can_unload_async: self.can_unload_async,
            load_priority: self.load_priority as int,
            punchline: self.punchline@,
            accepts_feedback: self.accepts_feedback,
            is_dip17_plugin: self.is_dip17_plugin,
            dip17_channel: self.dip17_channel@,
            changelog: self.changelog@,
            category_tags: opt_strs_view(self.category_tags),
            is_hide: self.is_hide,
            testing_assembly_version: opt_str_view(self.testing_assembly_version),
            is_testing_exclusive: self.is_testing_exclusive,
            download_count: self.download_count as int,
            last_update: self.last_update as int,
            download_link_install: self.download_link_install@,
            download_link_update: self.download_link_update@,
            download_link_testing: self.download_link_testing@,
            image_urls: opt_strs_view(self.image_urls),
            icon_url: opt_str_view(self.icon_url),
            feedback_message: opt_str_view(self.feedback_message),
            feedback_webhook: opt_str_view(self.feedback_webhook),
        }
    }
}

/// The string items of `items` from index `i` on; `None` when some item is
/// not a string.
pub open spec fn str_items_from(items: Seq<Json>, i: int) -> Option<Seq<Seq<char>>>
    decreases items.len() - i,
{
    if i < 0 || i >= items.len() {
        Some(Seq::empty())
    } else {
        match items[i] {
            Json::Str(s) => match str_items_from(items, i + 1) {
                Some(rest) => Some(seq![s@] + rest),
                None => None,
            },
            _ => None,
        }
    }
}

/// A required string field: present and a string.
pub open spec fn req_str(fs: Seq<(String, Json)>, key: Seq<char>) -> Option<Seq<char>> {
    match obj_get(fs, key) {
        Some(Json::Str(s)) => Some(s@),
        _ => None,
    }
}

/// A required boolean field: present and a boolean.
pub open spec fn req_bool(fs: Seq<(String, Json)>, key: Seq<char>) -> Option<bool> {
    match obj_get(fs, key) {
        Some(Json::Bool(b)) => Some(b),
        _ => None,
    }
}

/// A required integer field that must fit the narrow integer width.
pub open spec fn req_i32(fs: Seq<(String, Json)>, key: Seq<char>) -> Option<int> {
    match obj_get(fs, key) {
        Some(Json::Int(v)) => if i32::MIN <= v <= i32::MAX {
            Some(v as int)
        } else {
            None
        },
        _ => None,
    }
}

/// A required array-of-strings field.
pub open spec fn req_str_arr(fs: Seq<(String, Json)>, key: Seq<char>) -> Option<Seq<Seq<char>>> {
    match obj_get(fs, key) {
        Some(Json::Arr(items)) => str_items_from(items@, 0),
        _ => None,
    }
}

/// An optional string field: the empty string when absent.
pub open spec fn opt_str(fs: Seq<(String, Json)>, key: Seq<char>) -> Option<Seq<char>> {
    match obj_get(fs, key) {
        Some(Json::Str(s)) => Some(s@),
        None => Some(Seq::empty()),
        _ => None,
    }
}

/// An optional boolean field: false when absent.
pub open spec fn opt_bool(fs: Seq<(String, Json)>, key: Seq<char>) -> Option<bool> {
    match obj_get(fs, key) {
        Some(Json::Bool(b)) => Some(b),
        None => Some(false),
        _ => None,
    }
}

/// An optional narrow integer field: zero when absent.
pub open spec fn opt_i32(fs: Seq<(String, Json)>, key: Seq<char>) -> Option<int> {
    match obj_get(fs, key) {
        Some(Json::Int(v)) => if i32::MIN <= v <= i32::MAX {
            Some(v as int)
        } else {
            None
        },
        None => Some(0),
        _ => None,
    }
}

/// An optional wide integer field: zero when absent.
pub open spec fn opt_i64(fs: Seq<(String, Json)>, key: Seq<char>) -> Option<int> {
    match obj_get(fs, key) {
        Some(Json::Int(v)) => Some(v as int),
        None => Some(0),
        _ => None,
    }
}

/// A nullable string field: nothing when absent or null.
pub open spec fn opt_nullable_str(fs: Seq<(String, Json)>, key: Seq<char>) -> Option<
    Option<Seq<char>>,
> {
    match obj_get(fs, key) {
        Some(Json::Str(s)) => Some(Some(s@)),
        Some(Json::Null) => Some(None),
        None => Some(None),
        _ => None,
    }
}

/// A nullable array-of-strings field: nothing when absent or null.
pub open spec fn opt_nullable_str_arr(fs: Seq<(String, Json)>, key: Seq<char>) -> Option<
    Option<Seq<Seq<char>>>,
> {
    match obj_get(fs, key) {
        Some(Json::Arr(items)) => match str_items_from(items@, 0) {
            Some(ss) => Some(Some(ss)),
            None => None,
        },
        Some(Json::Null) => Some(None),
        None => Some(None),
        _ => None,
    }
}

/// What a manifest document means: `Some` of the record it denotes when
/// every field is well-formed, `None` otherwise. The required fields must
/// be present with the right type; the optional ones fall back to their
/// defaults when absent.
pub open spec fn manifest_of(doc: Json) -> Option<ManifestModel> {
    match doc {
        Json::Obj(fields) => {
            let fs = fields@;
            if req_str(fs, "Author"@) is Some && req_str(fs, "Name"@) is Some && req_str(
                fs,
                "InternalName"@,
            ) is Some && req_str(fs, "AssemblyVersion"@) is Some && req_str(fs, "Description"@)
                is Some && req_str(fs, "ApplicableVersion"@) is Some && req_str(fs, "RepoUrl"@)
                is Some && req_str_arr(fs, "Tags"@) is Some && req_i32(fs, "DalamudApiLevel"@)
                is Some && req_i32(fs, "LoadRequiredState"@) is Some && req_bool(fs, "LoadSync"@)
                is Some && req_bool(fs, "CanUnloadAsync"@) is Some && req_i32(fs, "LoadPriority"@)
                is Some && req_str(fs, "Punchline"@) is Some && req_bool(fs, "AcceptsFeedback"@)
                is Some && req_bool(fs, "_isDip17Plugin"@) is Some && req_str(fs, "_Dip17Channel"@)
                is Some && opt_str(fs, "Changelog"@) is Some && opt_nullable_str_arr(
                fs,
                "CategoryTags"@,
            ) is Some && opt_bool(fs, "IsHide"@) is Some && opt_nullable_str(
                fs,
                "TestingAssemblyVersion"@,
            ) is Some && opt_bool(fs, "IsTestingExclusive"@) is Some && opt_i32(
                fs,
                "DownloadCount"@,
            ) is Some && opt_i64(fs, "LastUpdate"@) is Some && opt_str(fs, "DownloadLinkInstall"@)
                is Some && opt_str(fs, "DownloadLinkUpdate"@) is Some && opt_str(
                fs,
                "DownloadLinkTesting"@,
            ) is Some && opt_nullable_str_arr(fs, "ImageUrls"@) is Some && opt_nullable_str(
                fs,
                "IconUrl"@,
            ) is Some && opt_nullable_str(fs, "FeedbackMessage"@) is Some && opt_nullable_str(
                fs,
                "FeedbackWebhook"@,
            ) is Some {
                Some(
                    ManifestModel {
                        author: req_str(fs, "Author"@)->0,
                        name: req_str(fs, "Name"@)->0,
                        internal_name: req_str(fs, "InternalName"@)->0,
                        assembly_version: req_str(fs, "AssemblyVersion"@)->0,
                        description: req_str(fs, "Description"@)->0,
                        applicable_version: req_str(fs, "ApplicableVersion"@)->0,
                        repo_url: req_str(fs, "RepoUrl"@)->0,
                        tags: req_str_arr(fs, "Tags"@)->0,
                        dalamud_api_level: req_i32(fs, "DalamudApiLevel"@)->0,
                        load_required_state: req_i32(fs, "LoadRequiredState"@)->0,
                        load_sync: req_bool(fs, "LoadSync"@)->0,
                        can_unload_async: req_bool(fs, "CanUnloadAsync"@)->0,
                        load_priority: req_i32(fs, "LoadPriority"@)->0,
                        punchline: req_str(fs, "Punchline"@)->0,
                        accepts_feedback: req_bool(fs, "AcceptsFeedback"@)->0,
                        is_dip17_plugin: req_bool(fs, "_isDip17Plugin"@)->0,
                        dip17_channel: req_str(fs, "_Dip17Channel"@)->0,
                        changelog: opt_str(fs, "Changelog"@)->0,
                        category_tags: opt_nullable_str_arr(fs, "CategoryTags"@)->0,
                        is_hide: opt_bool(fs, "IsHide"@)->0,
                        testing_assembly_version: opt_nullable_str(fs, "TestingAssemblyVersion"@)->0,
                        is_testing_exclusive: opt_bool(fs, "IsTestingExclusive"@)->0,
                        download_count: opt_i32(fs, "DownloadCount"@)->0,
                        last_update: opt_i64(fs, "LastUpdate"@)->0,
                        download_link_install: opt_str(fs, "DownloadLinkInstall"@)->0,
                        download_link_update: opt_str(fs, "DownloadLinkUpdate"@)->0,
                        download_link_testing: opt_str(fs, "DownloadLinkTesting"@)->0,
                        image_urls: opt_nullable_str_arr(fs, "ImageUrls"@)->0,
                        icon_url: opt_nullable_str(fs, "IconUrl"@)->0,
                        feedback_message: opt_nullable_str(fs, "FeedbackMessage"@)->0,
                        feedback_webhook: opt_nullable_str(fs, "FeedbackWebhook"@)->0,
                    },
                )
            } else {
                None
            }
        },
        _ => None,
    }
}

/// `j` is the string `s`.
pub open spec fn is_jstr(j: Json, s: Seq<char>) -> bool {
    j matches Json::Str(t) && t@ == s
}

/// `j` is the integer `n`.
pub open spec fn is_jint(j: Json, n: int) -> bool {
    j matches Json::Int(v) && v as int == n
}

/// `j` is the boolean `b`.
pub open spec fn is_jbool(j: Json, b: bool) -> bool {
    j matches Json::Bool(v) && v == b
}

/// `j` is the array of the strings `ss`.
pub open spec fn is_jstr_arr(j: Json, ss: Seq<Seq<char>>) -> bool {
    j matches Json::Arr(items) && str_items_from(items@, 0) == Some(ss)
}

/// `j` is the string `o` carries, or null when it carries none.
pub open spec fn is_jnullable_str(j: Json, o: Option<Seq<char>>) -> bool {
    match o {
        Some(s) => is_jstr(j, s),
        None => j == Json::Null,
    }
}

/// `j` is the string array `o` carries, or null when it carries none.
pub open spec fn is_jnullable_str_arr(j: Json, o: Option<Seq<Seq<char>>>) -> bool {
    match o {
        Some(ss) => is_jstr_arr(j, ss),
        None => j == Json::Null,
    }
}

/// The object fields `fs` spell out the record `m` under the external
/// field names, in their fixed order, with absent optional values written
/// as null.
pub open spec fn fields_represent(fs: Seq<(String, Json)>, m: ManifestModel) -> bool {
    &&& fs.len() == 31
    &&& fs[0].0@ == "Author"@ && is_jstr(fs[0].1, m.author)
    &&& fs[1].0@ == "Name"@ && is_jstr(fs[1].1, m.name)
    &&& fs[2].0@ == "InternalName"@ && is_jstr(fs[2].1, m.internal_name)
    &&& fs[3].0@ == "AssemblyVersion"@ && is_jstr(fs[3].1, m.assembly_version)
    &&& fs[4].0@ == "Description"@ && is_jstr(fs[4].1, m.description)
    &&& fs[5].0@ == "ApplicableVersion"@ && is_jstr(fs[5].1, m.applicable_version)
    &&& fs[6].0@ == "RepoUrl"@ && is_jstr(fs[6].1, m.repo_url)
    &&& fs[7].0@ == "Tags"@ && is_jstr_arr(fs[7].1, m.tags)
    &&& fs[8].0@ == "DalamudApiLevel"@ && is_jint(fs[8].1, m.dalamud_api_level)
    &&& fs[9].0@ == "LoadRequiredState"@ && is_jint(fs[9].1, m.load_required_state)
    &&& fs[10].0@ == "LoadSync"@ && is_jbool(fs[10].1, m.load_sync)
    &&& fs[11].0@ == "CanUnloadAsync"@ && is_jbool(fs[11].1, m.can_unload_async)
    &&& fs[12].0@ == "LoadPriority"@ && is_jint(fs[12].1, m.load_priority)
    &&& fs[13].0@ == "Punchline"@ && is_jstr(fs[13].1, m.punchline)
    &&& fs[14].0@ == "AcceptsFeedback"@ && is_jbool(fs[14].1, m.accepts_feedback)
    &&& fs[15].0@ == "_isDip17Plugin"@ && is_jbool(fs[15].1, m.is_dip17_plugin)
    &&& fs[16].0@ == "_Dip17Channel"@ && is_jstr(fs[16].1, m.dip17_channel)
    &&& fs[17].0@ == "Changelog"@ && is_jstr(fs[17].1, m.changelog)
    &&& fs[18].0@ == "CategoryTags"@ && is_jnullable_str_arr(fs[18].1, m.category_tags)
    &&& fs[19].0@ == "IsHide"@ && is_jbool(fs[19].1, m.is_hide)
    &&& fs[20].0@ == "TestingAssemblyVersion"@ && is_jnullable_str(
        fs[20].1,
        m.testing_assembly_version,
    )
    &&& fs[21].0@ == "IsTestingExclusive"@ && is_jbool(fs[21].1, m.is_testing_exclusive)
    &&& fs[22].0@ == "DownloadCount"@ && is_jint(fs[22].1, m.download_count)
    &&& fs[23].0@ == "LastUpdate"@ && is_jint(fs[23].1, m.last_update)
    &&& fs[24].0@ == "DownloadLinkInstall"@ && is_jstr(fs[24].1, m.download_link_install)
    &&& fs[25].0@ == "DownloadLinkUpdate"@ && is_jstr(fs[25].1, m.download_link_update)
    &&& fs[26].0@ == "DownloadLinkTesting"@ && is_jstr(fs[26].1, m.download_link_testing)
    &&& fs[27].0@ == "ImageUrls"@ && is_jnullable_str_arr(fs[27].1, m.image_urls)
    &&& fs[28].0@ == "IconUrl"@ && is_jnullable_str(fs[28].1, m.icon_url)
    &&& fs[29].0@ == "FeedbackMessage"@ && is_jnullable_str(fs[29].1, m.feedback_message)
    &&& fs[30].0@ == "FeedbackWebhook"@ && is_jnullable_str(fs[30].1, m.feedback_webhook)
}

proof fn lemma_str_items_of_pointwise(items: Seq<Json>, ss: Seq<Seq<char>>, i: int)
    requires
        items.len() == ss.len(),
        0 <= i <= items.len(),
        forall|k: int| 0 <= k < items.len() ==> is_jstr(#[trigger] items[k], ss[k]),
    ensures
        str_items_from(items, i) == Some(ss.skip(i)),
    decreases items.len() - i,
{
    if i == items.len() {
        assert(ss.skip(i) =~= Seq::<Seq<char>>::empty());
    } else {
        lemma_str_items_of_pointwise(items, ss, i + 1);
        assert(seq![ss[i]] + ss.skip(i + 1) =~= ss.skip(i));
    }
}

/// Turns strings into an array of string nodes.
fn strs_to_json(v: &Vec<String>) -> (r: Vec<Json>)
    ensures
        str_items_from(r@, 0) == Some(strs_view(v@)),
{
    let mut out: Vec<Json> = Vec::new();
    let mut i: usize = 0;
    let n: usize = v.len();
    while i < n
        invariant
            0 <= i <= v@.len(),
            n == v@.len(),
            out@.len() == i,
            forall|k: int| 0 <= k < i ==> is_jstr(#[trigger] out@[k], v@[k]@),
        decreases v@.len() - i,
    {
        out.push(Json::Str(v[i].clone()));
        i = i + 1;
    }
    proof {
        lemma_str_items_of_pointwise(out@, strs_view(v@), 0);
        assert(strs_view(v@).skip(0) =~= strs_view(v@));
    }
    out
}

/// Wraps an optional string as a node, null when absent.
fn opt_str_to_json(o: &Option<String>) -> (r: Json)
    ensures
        is_jnullable_str(r, opt_str_view(*o)),
{
    match o {
        Some(s) => Json::Str(s.clone()),
        None => Json::Null,
    }
}

/// Wraps optional strings as a node, null when absent.
fn opt_strs_to_json(o: &Option<Vec<String>>) -> (r: Json)
    ensures
        is_jnullable_str_arr(r, opt_strs_view(*o)),
{
    match o {
        Some(v) => Json::Arr(strs_to_json(v)),
        None => Json::Null,
    }
}

/// Writes a record back out as a manifest document: an object spelling
/// out every field under its external name, in the fixed order, with
/// absent optional values written as null.
pub fn manifest_to_json(m: &ManifestRecord) -> (r: Json)
    ensures
        r matches Json::Obj(fs) && fields_represent(fs@, m@),
{
    let mut fs: Vec<(String, Json)> = Vec::new();
    fs.push(("Author".to_owned(), Json::Str(m.author.clone())));
    fs.push(("Name".to_owned(), Json::Str(m.name.clone())));
    fs.push(("InternalName".to_owned(), Json::Str(m.internal_name.clone())));
    fs.push(("AssemblyVersion".to_owned(), Json::Str(m.assembly_version.clone())));
    fs.push(("Description".to_owned(), Json::Str(m.description.clone())));
    fs.push(("ApplicableVersion".to_owned(), Json::Str(m.applicable_version.clone())));
    fs.push(("RepoUrl".to_owned(), Json::Str(m.repo_url.clone())));
    fs.push(("Tags".to_owned(), Json::Arr(strs_to_json(&m.tags))));
    fs.push(("DalamudApiLevel".to_owned(), Json::Int(m.dalamud_api_level as i64)));
    fs.push(("LoadRequiredState".to_owned(), Json::Int(m.load_required_state as i64)));
    fs.push(("LoadSync".to_owned(), Json::Bool(m.load_sync)));
    fs.push(("CanUnloadAsync".to_owned(), Json::Bool(m.can_unload_async)));
    fs.push(("LoadPriority".to_owned(), Json::Int(m.load_priority as i64)));
    fs.push(("Punchline".to_owned(), Json::Str(m.punchline.clone())));
    fs.push(("AcceptsFeedback".to_owned(), Json::Bool(m.accepts_feedback)));
    fs.push(("_isDip17Plugin".to_owned(), Json::Bool(m.is_dip17_plugin)));
    fs.push(("_Dip17Channel".to_owned(), Json::Str(m.dip17_channel.clone())));
    fs.push(("Changelog".to_owned(), Json::Str(m.changelog.clone())));
    fs.push(("CategoryTags".to_owned(), opt_strs_to_json(&m.category_tags)));
    fs.push(("IsHide".to_owned(), Json::Bool(m.is_hide)));
    fs.push(("TestingAssemblyVersion".to_owned(), opt_str_to_json(&m.testing_assembly_version)));
    fs.push(("IsTestingExclusive".to_owned(), Json::Bool(m.is_testing_exclusive)));
    fs.push(("DownloadCount".to_owned(), Json::Int(m.download_count as i64)));
    fs.push(("LastUpdate".to_owned(), Json::Int(m.last_update)));
    fs.push(("DownloadLinkInstall".to_owned(), Json::Str(m.download_link_install.clone())));
    fs.push(("DownloadLinkUpdate".to_owned(), Json::Str(m.download_link_update.clone())));
    fs.push(("DownloadLinkTesting".to_owned(), Json::Str(m.download_link_testing.clone())));
    fs.push(("ImageUrls".to_owned(), opt_strs_to_json(&m.image_urls)));
    fs.push(("IconUrl".to_owned(), opt_str_to_json(&m.icon_url)));
    fs.push(("FeedbackMessage".to_owned(), opt_str_to_json(&m.feedback_message)));
    fs.push(("FeedbackWebhook".to_owned(), opt_str_to_json(&m.feedback_webhook)));
    Json::Obj(fs)
}

fn get_req_str(fields: &Vec<(String, Json)>, key: &str) -> (r: Option<String>)
    ensures
        match r {
            Some(v) => req_str(fields@, key@) == Some(v@),
            None => req_str(fields@, key@) is None,
        },
{
    let got = obj_lookup(fields, &key.to_owned());
    match got {
        Some(Json::Str(s)) => Some(s.clone()),
        _ => None,
    }
}

fn get_req_bool(fields: &Vec<(String, Json)>, key: &str) -> (r: Option<bool>)
    ensures
        match r {
            Some(v) => req_bool(fields@, key@) == Some(v),
            None => req_bool(fields@, key@) is None,
        },
{
    let got = obj_lookup(fields, &key.to_owned());
    match got {
        Some(Json::Bool(b)) => Some(*b),
        _ => None,
    }
}

fn get_req_i32(fields: &Vec<(String, Json)>, key: &str) -> (r: Option<i32>)
    ensures
        match r {
            Some(v) => req_i32(fields@, key@) == Some(v as int),
            None => req_i32(fields@, key@) is None,
        },
{
    let got = obj_lookup(fields, &key.to_owned());
    match got {
        Some(Json::Int(v)) => {
            if i32::MIN as i64 <= *v && *v <= i32::MAX as i64 {
                Some(*v as i32)
            } else {
                None
            }
        },
        _ => None,
    }
}

/// Collects the string items of a document array.
fn get_str_items(items: &Vec<Json>) -> (r: Option<Vec<String>>)
    ensures
        match r {
            Some(v) => str_items_from(items@, 0) == Some(strs_view(v@)),
            None => str_items_from(items@, 0) is None,
        },
{
    let mut out: Vec<String> = Vec::new();
    let mut i: usize = 0;
    let n: usize = items.len();
    proof {
        assert(strs_view(out@) =~= Seq::<Seq<char>>::empty());
        match str_items_from(items@, 0) {
            Some(s) => {
                assert(Seq::<Seq<char>>::empty() + s =~= s);
            },
            None => {},
        }
    }
    while i < n
        invariant
            0 <= i <= items@.len(),
            n == items@.len(),
            str_items_from(items@, 0) == opt_prepend(
                strs_view(out@),
                str_items_from(items@, i as int),
            ),
        decreases items@.len() - i,
    {
        let ghost gi = i as int;
        let s = match &items[i] {
            Json::Str(s) => s,
            _ => {
                return None;
            },
        };
        let ghost prev = out@;
        out.push(s.clone());
        proof {
            assert(strs_view(out@) =~= strs_view(prev) + seq![s@]);
            match str_items_from(items@, gi + 1) {
                Some(rest) => {
                    assert((strs_view(prev) + seq![s@]) + rest =~= strs_view(prev) + (seq![s@]
                        + rest));
                },
                None => {},
            }
        }
        i = i + 1;
    }
    proof {
        assert(str_items_from(items@, n as int) == Some(Seq::<Seq<char>>::empty()));
        assert(strs_view(out@) + Seq::<Seq<char>>::empty() =~= strs_view(out@));
    }
    Some(out)
}

fn get_req_str_arr(fields: &Vec<(String, Json)>, key: &str) -> (r: Option<Vec<String>>)
    ensures
        match r {
            Some(v) => req_str_arr(fields@, key@) == Some(strs_view(v@)),
            None => req_str_arr(fields@, key@) is None,
        },
{
    let got = obj_lookup(fields, &key.to_owned());
    match got {
        Some(Json::Arr(items)) => get_str_items(items),
        _ => None,
    }
}

fn get_opt_str(fields: &Vec<(String, Json)>, key: &str) -> (r: Option<String>)
    ensures
        match r {
            Some(v) => opt_str(fields@, key@) == Some(v@),
            None => opt_str(fields@, key@) is None,
        },
{
    let got = obj_lookup(fields, &key.to_owned());
    match got {
        Some(Json::Str(s)) => Some(s.clone()),
        None => Some(String::new()),
        _ => None,
    }
}

fn get_opt_bool(fields: &Vec<(String, Json)>, key: &str) -> (r: Option<bool>)
    ensures
        match r {
            Some(v) => opt_bool(fields@, key@) == Some(v),
            None => opt_bool(fields@, key@) is None,
        },
{
    let got = obj_lookup(fields, &key.to_owned());
    match got {
        Some(Json::Bool(b)) => Some(*b),
        None => Some(false),
        _ => None,
    }
}

fn get_opt_i32(fields: &Vec<(String, Json)>, key: &str) -> (r: Option<i32>)
    ensures
        match r {
            Some(v) => opt_i32(fields@, key@) == Some(v as int),
            None => opt_i32(fields@, key@) is None,
        },
{
    let got = obj_lookup(fields, &key.to_owned());
    match got {
        Some(Json::Int(v)) => {
            if i32::MIN as i64 <= *v && *v <= i32::MAX as i64 {
                Some(*v as i32)
            } else {
                None
            }
        },
        None => Some(0),
        _ => None,
    }
}

fn get_opt_i64(fields: &Vec<(String, Json)>, key: &str) -> (r: Option<i64>)
    ensures
        match r {
            Some(v) => opt_i64(fields@, key@) == Some(v as int),
            None => opt_i64(fields@, key@) is None,
        },
{
    let got = obj_lookup(fields, &key.to_owned());
    match got {
        Some(Json::Int(v)) => Some(*v),
        None => Some(0),
        _ => None,
    }
}

fn get_opt_nullable_str(fields: &Vec<(String, Json)>, key: &str) -> (r: Option<Option<String>>)
    ensures
        match r {
            Some(v) => opt_nullable_str(fields@, key@) == Some(opt_str_view(v)),
            None => opt_nullable_str(fields@, key@) is None,
        },
{
    let got = obj_lookup(fields, &key.to_owned());
    match got {
        Some(Json::Str(s)) => Some(Some(s.clone())),
        Some(Json::Null) => Some(None),
        None => Some(None),
        _ => None,
    }
}

fn get_opt_nullable_str_arr(fields: &Vec<(String, Json)>, key: &str) -> (r: Option<
    Option<Vec<String>>,
>)
    ensures
        match r {
            Some(v) => opt_nullable_str_arr(fields@, key@) == Some(opt_strs_view(v)),
            None => opt_nullable_str_arr(fields@, key@) is None,
        },
{
    let got = obj_lookup(fields, &key.to_owned());
    match got {
        Some(Json::Arr(items)) => match get_str_items(items) {
            Some(v) => Some(Some(v)),
            None => None,
        },
        Some(Json::Null) => Some(None),
        None => Some(None),
        _ => None,
    }
}

/// Parses one plugin's manifest document into a record: `Some` exactly
/// when the document is a well-formed manifest object, `None` otherwise.
/// A malformed manifest is recoverable for the run as a whole: the merge
/// engine skips the plugin and continues.
pub fn parse_manifest(doc: &Json) -> (r: Option<ManifestRecord>)
    ensures
        match r {
            Some(m) => manifest_of(*doc) == Some(m@),
            None => manifest_of(*doc) is None,
        },
{
    let fields = match doc {
        Json::Obj(fields) => fields,
        _ => {
            return None;
        },
    };
    let author = match get_req_str(fields, "Author") {
        Some(v) => v,
        None => {
            return None;
        },
    };
    let name = match get_req_str(fields, "Name") {
        Some(v) => v,
        None => {
            return None;
        },
    };
    let internal_name = match get_req_str(fields, "InternalName") {
        Some(v) => v,
        None => {
            return None;
        },
    };
    let assembly_version = match get_req_str(fields, "AssemblyVersion") {
        Some(v) => v,
        None => {
            return None;
        },
    };
    let description = match get_req_str(fields, "Description") {
        Some(v) => v,
        None => {
            return None;
        },
    };
    let applicable_version = match get_req_str(fields, "ApplicableVersion") {
        Some(v) => v,
        None => {
            return None;
        },
    };
    let repo_url = match get_req_str(fields, "RepoUrl") {
        Some(v) => v,
        None => {
            return None;
        },
    };
    let tags = match get_req_str_arr(fields, "Tags") {
        Some(v) => v,
        None => {
            return None;
        },
    };
    let dalamud_api_level = match get_req_i32(fields, "DalamudApiLevel") {
        Some(v) => v,
        None => {
            return None;
        },
    };
    let load_required_state = match get_req_i32(fields, "LoadRequiredState") {
        Some(v) => v,
        None => {
            return None;
        },
    };
    let load_sync = match get_req_bool(fields, "LoadSync") {
        Some(v) => v,
        None => {
            return None;
        },
    };
    let can_unload_async = match get_req_bool(fields, "CanUnloadAsync") {
        Some(v) => v,
        None => {
            return None;
        },
    };
    let load_priority = match get_req_i32(fields, "LoadPriority") {
        Some(v) => v,
        None => {
            return None;
        },
    };
    let punchline = match get_req_str(fields, "Punchline") {
        Some(v) => v,
        None => {
            return None;
        },
    };
    let accepts_feedback = match get_req_bool(fields, "AcceptsFeedback") {
        Some(v) => v,
        None => {
            return None;
        },
    };
    let is_dip17_plugin = match get_req_bool(fields, "_isDip17Plugin") {
        Some(v) => v,
        None => {
            return None;
        },
    };
    let dip17_channel = match get_req_str(fields, "_Dip17Channel") {
        Some(v) => v,
        None => {
            return None;
        },
    };
    let changelog = match get_opt_str(fields, "Changelog") {
        Some(v) => v,
        None => {
            return None;
        },
    };
    let category_tags = match get_opt_nullable_str_arr(fields, "CategoryTags") {
        Some(v) => v,
        None => {
            return None;
        },
    };
    let is_hide = match get_opt_bool(fields, "IsHide") {
        Some(v) => v,
        None => {
            return None;
        },
    };
    let testing_assembly_version = match get_opt_nullable_str(fields, "TestingAssemblyVersion") {
        Some(v) => v,
        None => {
            return None;
        },
    };
    let is_testing_exclusive = match get_opt_bool(fields, "IsTestingExclusive") {
        Some(v) => v,
        None => {
            return None;
        },
    };
    let download_count = match get_opt_i32(fields, "DownloadCount") {
        Some(v) => v,
        None => {
            return None;
        },
    };
    let last_update = match get_opt_i64(fields, "LastUpdate") {
        Some(v) => v,
        None => {
            return None;
        },
    };
    let download_link_install = match get_opt_str(fields, "DownloadLinkInstall") {
        Some(v) => v,
        None => {
            return None;
        },
    };
    let download_link_update = match get_opt_str(fields, "DownloadLinkUpdate") {
        Some(v) => v,
        None => {
            return None;
        },
    };
    let download_link_testing = match get_opt_str(fields, "DownloadLinkTesting") {
        Some(v) => v,
        None => {
            return None;
        },
    };
    let image_urls = match get_opt_nullable_str_arr(fields, "ImageUrls") {
        Some(v) => v,
        None => {
            return None;
        },
    };
    let icon_url = match get_opt_nullable_str(fields, "IconUrl") {
        Some(v) => v,
        None => {
            return None;
        },
    };
    let feedback_message = match get_opt_nullable_str(fields, "FeedbackMessage") {
        Some(v) => v,
        None => {
            return None;
        },
    };
    let feedback_webhook = match get_opt_nullable_str(fields, "FeedbackWebhook") {
        Some(v) => v,
        None => {
            return None;
        },
    };
    Some(
        ManifestRecord {
            author,
            name,
            internal_name,
            assembly_version,
            description,
            applicable_version,
            repo_url,
            tags,
            dalamud_api_level,
            load_required_state,
            load_sync,
            can_unload_async,
            load_priority,
            punchline,
            accepts_feedback,
            is_dip17_plugin,
            dip17_channel,
            changelog,
            category_tags,
            is_hide,
            testing_assembly_version,
            is_testing_exclusive,
            download_count,
            last_update,
            download_link_install,
            download_link_update,
            download_link_testing,
            image_urls,
            icon_url,
            feedback_message,
            feedback_webhook,
        },
    )
}

} // verus!
