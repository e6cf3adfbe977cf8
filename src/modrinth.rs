//! The data of the Modrinth API: search parameters, and the projects and
//! versions that it returns.

use crate::text::{any_equal, any_ignoring_case, contains_ignoring_case, contains_text, trim_of, trim_str};
use vstd::string::StringExecFns;
use vstd::prelude::*;

verus! {

/// One page of search results.
#[derive(Debug)]
pub struct SearchResults {
    pub hits: Vec<ProjectResult>,
    pub offset: u32,
    pub limit: u32,
    pub total_hits: u32,
}

/// One project among the search results.
#[derive(Debug)]
pub struct ProjectResult {
    pub slug: String,
    pub title: String,
    pub description: String,
    pub categories: Vec<String>,
    pub client_side: String,
    pub server_side: String,
    pub project_type: String,
    pub downloads: u64,
    pub icon_url: Option<String>,
    pub color: Option<u32>,
    pub thread_id: Option<String>,
    pub monetization_status: Option<String>,
    pub project_id: String,
    pub author: String,
    pub display_categories: Vec<String>,
    pub versions: Vec<String>,
    pub follows: u32,
    pub date_created: String,
    pub date_modified: String,
    pub latest_version: Option<String>,
    pub license: String,
    pub gallery: Vec<String>,
    pub featured_gallery: Option<String>,
}

/// The parameters of a search; a field left `None` is not sent.
#[derive(Debug)]
pub struct SearchQuery {
    pub query: Option<String>,
    pub facets: Option<String>,
    pub index: Option<String>,
    pub offset: Option<u32>,
    pub limit: Option<u32>,
    pub filters: Option<String>,
}

/// Whether `o` holds a string with the characters `s`.
pub open spec fn holds_text(o: Option<String>, s: Seq<char>) -> bool {
    o matches Some(t) && t@ == s
}

impl SearchQuery {
    /// A query with no parameter set.
    pub fn new() -> (r: SearchQuery)
        ensures
            r.query is None,
            r.facets is None,
            r.index is None,
            r.offset is None,
            r.limit is None,
            r.filters is None,
    {
        SearchQuery { query: None, facets: None, index: None, offset: None, limit: None, filters: None }
    }

    /// Sets the search text.
    pub fn query(self, query: &str) -> (r: SearchQuery)
        ensures
            holds_text(r.query, query@),
            r.facets == self.facets && r.index == self.index && r.offset == self.offset,
            r.limit == self.limit && r.filters == self.filters,
    {
        SearchQuery { query: Some(query.to_owned()), ..self }
    }

    /// Sets the facets, a JSON array of arrays of `field:value` strings.
    pub fn facets(self, facets: &str) -> (r: SearchQuery)
        ensures
            holds_text(r.facets, facets@),
            r.query == self.query && r.index == self.index && r.offset == self.offset,
            r.limit == self.limit && r.filters == self.filters,
    {
        SearchQuery { facets: Some(facets.to_owned()), ..self }
    }

    /// Sets the order of the results.
    pub fn index(self, index: &str) -> (r: SearchQuery)
        ensures
            holds_text(r.index, index@),
            r.query == self.query && r.facets == self.facets && r.offset == self.offset,
            r.limit == self.limit && r.filters == self.filters,
    {
        SearchQuery { index: Some(index.to_owned()), ..self }
    }

    /// Sets how many results to skip.
    pub fn offset(self, offset: u32) -> (r: SearchQuery)
        ensures
            r.offset == Some(offset),
            r.query == self.query && r.facets == self.facets && r.index == self.index,
            r.limit == self.limit && r.filters == self.filters,
    {
        SearchQuery { offset: Some(offset), ..self }
    }

    /// Sets how many results to return.
    pub fn limit(self, limit: u32) -> (r: SearchQuery)
        ensures
            r.limit == Some(limit),
            r.query == self.query && r.facets == self.facets && r.index == self.index,
            r.offset == self.offset && r.filters == self.filters,
    {
        SearchQuery { limit: Some(limit), ..self }
    }

    /// Sets the raw filter expression.
    pub fn filters(self, filters: &str) -> (r: SearchQuery)
        ensures
            holds_text(r.filters, filters@),
            r.query == self.query && r.facets == self.facets && r.index == self.index,
            r.offset == self.offset && r.limit == self.limit,
    {
        SearchQuery { filters: Some(filters.to_owned()), ..self }
    }
}

/// An error body of the API.
#[derive(Debug)]
pub struct ApiError {
    pub error: String,
    pub description: String,
}

/// A project, as its detail page describes it (a subset).
#[derive(Debug)]
pub struct Project {
    pub id: String,
    pub slug: String,
    pub project_type: String,
    pub title: String,
    pub description: String,
    pub categories: Vec<String>,
    pub downloads: u64,
    pub author: Option<String>,
    pub client_side: Option<String>,
    pub server_side: Option<String>,
    pub versions: Option<Vec<String>>,
}

/// One version of a project (a subset).
#[derive(Debug)]
pub struct Version {
    pub id: String,
    pub name: Option<String>,
    pub version_number: Option<String>,
    pub game_versions: Vec<String>,
    pub loaders: Vec<String>,
    pub files: Vec<VersionFile>,
}

/// A file of a version.
#[derive(Debug)]
pub struct VersionFile {
    pub url: String,
    pub filename: String,
    pub hashes: Hashes,
    pub primary: Option<bool>,
}

/// The digests of a file.
#[derive(Debug)]
pub struct Hashes {
    pub sha1: Option<String>,
    pub sha512: Option<String>,
}


/// The loader name that a Fabric server needs among a version's loaders.
pub open spec fn fabric_word() -> Seq<char> {
    seq!['f', 'a', 'b', 'r', 'i', 'c']
}

/// The value of `server_side` for a project that cannot run on a server.
pub open spec fn unsupported_word() -> Seq<char> {
    seq!['u', 'n', 's', 'u', 'p', 'p', 'o', 'r', 't', 'e', 'd']
}

/// Whether a file is marked as the primary file of its version.
pub open spec fn is_primary(f: VersionFile) -> bool {
    f.primary == Some(true)
}

/// Whether `i` is the file to take: the first primary one, or the first
/// file when none is primary.
pub open spec fn is_file_choice(files: Seq<VersionFile>, i: int) -> bool {
    &&& 0 <= i < files.len()
    &&& if exists|k: int| 0 <= k < files.len() && is_primary(#[trigger] files[k]) {
        is_primary(files[i]) && forall|k: int| 0 <= k < i ==> !is_primary(#[trigger] files[k])
    } else {
        i == 0
    }
}

/// The name a version goes by: its version number, else its id.
pub open spec fn label_of(v: Version) -> Seq<char> {
    match v.version_number {
        Some(n) => n@,
        None => v.id@,
    }
}

/// Whether a version carries the version number `n`.
pub open spec fn has_number(v: Version, n: Seq<char>) -> bool {
    v.version_number matches Some(x) && x@ == n
}

/// Whether a version is the installed one `n`, by version number or id.
pub open spec fn is_installed_version(v: Version, n: Seq<char>) -> bool {
    has_number(v, n) || v.id@ == n
}

/// Whether a version declares the Fabric loader.
pub open spec fn has_fabric_loader(v: Version) -> bool {
    contains_ignoring_case(v.loaders@, fabric_word())
}

/// Whether a version's loaders suit the server.
pub open spec fn loader_ok(v: Version, uses_fabric: bool) -> bool {
    !uses_fabric || has_fabric_loader(v)
}

/// Whether a version's game versions suit the server; a version that lists
/// none is taken to suit any.
pub open spec fn game_ok(v: Version, mc_version: Seq<char>) -> bool {
    v.game_versions@.len() == 0 || contains_text(v.game_versions@, mc_version)
}

/// Whether `i` is the first index of `s` whose element has `p`.
pub open spec fn is_first(s: Seq<Version>, i: int, p: spec_fn(Version) -> bool) -> bool {
    &&& 0 <= i < s.len()
    &&& p(s[i])
    &&& forall|j: int| 0 <= j < i ==> !p(#[trigger] s[j])
}

/// Why no version of a mod could be chosen.
#[derive(Debug, Clone, Copy, PartialEq, Eq, Structural)]
pub enum SelectError {
    /// The requested version does not declare the Fabric loader.
    NoFabricLoader,
    /// The requested version targets other game versions.
    WrongGameVersion,
    /// No version has the requested number, or it has no file.
    VersionNotFound,
    /// No version suits the server's loader and game version.
    NoCompatibleVersion,
    /// The chosen version has no file.
    NoFiles,
}

/// Whether a project may run on a server (its `server_side` is not
/// `unsupported`).
pub fn is_server_compatible(project: &Project) -> (r: bool)
    ensures
        r == !(project.server_side matches Some(s) && s@ == unsupported_word()),
{
    match &project.server_side {
        Some(s) => {
            proof {
                reveal_strlit("unsupported");
            }
            let unsupported = "unsupported".to_owned();
            assert(unsupported@ =~= unsupported_word());
            !(*s == unsupported)
        },
        None => true,
    }
}

/// The file to download of a version: the first primary one, else the first.
pub fn primary_file(files: &Vec<VersionFile>) -> (r: Option<usize>)
    ensures
        r is None <==> files@.len() == 0,
        r matches Some(i) ==> is_file_choice(files@, i as int),
{
    let mut i: usize = 0;
    while i < files.len()
        invariant
            i <= files@.len(),
            forall|k: int| 0 <= k < i ==> !is_primary(#[trigger] files@[k]),
        decreases files@.len() - i,
    {
        if matches!(files[i].primary, Some(true)) {
            return Some(i);
        }
        i = i + 1;
    }
    if files.len() == 0 {
        None
    } else {
        Some(0)
    }
}

/// The name a version goes by: its version number, else its id.
pub fn version_label(v: &Version) -> (r: String)
    ensures
        r@ == label_of(*v),
{
    match &v.version_number {
        Some(n) => n.clone(),
        None => v.id.clone(),
    }
}

/// The name of the newest version (the first of the list), or `-` when
/// there is none.
pub fn latest_label(versions: &Vec<Version>) -> (r: String)
    ensures
        versions@.len() > 0 ==> r@ == label_of(versions@[0]),
        versions@.len() == 0 ==> r@ == "-"@,
{
    if versions.len() > 0 {
        version_label(&versions[0])
    } else {
        "-".to_owned()
    }
}

/// Whether a version carries the version number `n`.
pub fn version_has_number(v: &Version, n: &String) -> (r: bool)
    ensures
        r == has_number(*v, n@),
{
    match &v.version_number {
        Some(x) => *x == *n,
        None => false,
    }
}

/// The first version that is the installed one, by version number or id.
pub fn find_installed(versions: &Vec<Version>, installed: &String) -> (r: Option<usize>)
    ensures
        r is None <==> forall|j: int| 0 <= j < versions@.len() ==> !is_installed_version(#[trigger] versions@[j], installed@),
        r matches Some(i) ==> is_first(versions@, i as int, |v: Version| is_installed_version(v, installed@)),
{
    let mut i: usize = 0;
    while i < versions.len()
        invariant
            i <= versions@.len(),
            forall|j: int| 0 <= j < i ==> !is_installed_version(#[trigger] versions@[j], installed@),
        decreases versions@.len() - i,
    {
        if version_has_number(&versions[i], installed) || versions[i].id == *installed {
            return Some(i);
        }
        i = i + 1;
    }
    None
}

/// Whether a version declares the Fabric loader.
pub fn declares_fabric(v: &Version) -> (r: bool)
    ensures
        r == has_fabric_loader(*v),
{
    proof {
        reveal_strlit("fabric");
    }
    assert("fabric"@ =~= fabric_word());
    any_ignoring_case(&v.loaders, "fabric")
}

/// Whether a version suits the server's loader and game version.
pub fn is_compatible(v: &Version, uses_fabric: bool, mc_version: &String) -> (r: bool)
    ensures
        r == (loader_ok(*v, uses_fabric) && game_ok(*v, mc_version@)),
{
    let loader = !uses_fabric || declares_fabric(v);
    let game = v.game_versions.len() == 0 || any_equal(&v.game_versions, mc_version);
    loader && game
}

/// Chooses the newest version that suits the server, and its file.
pub fn select_latest(versions: &Vec<Version>, uses_fabric: bool, mc_version: &String) -> (r: Result<(usize, usize), SelectError>)
    ensures
        match r {
            Ok((i, f)) => {
                &&& is_first(versions@, i as int, |v: Version| loader_ok(v, uses_fabric) && game_ok(v, mc_version@))
                &&& is_file_choice(versions@[i as int].files@, f as int)
            },
            Err(SelectError::NoCompatibleVersion) => forall|j: int|
                0 <= j < versions@.len() ==> !(loader_ok(#[trigger] versions@[j], uses_fabric) && game_ok(versions@[j], mc_version@)),
            Err(SelectError::NoFiles) => exists|i: int|
                is_first(versions@, i, |v: Version| loader_ok(v, uses_fabric) && game_ok(v, mc_version@))
                    && #[trigger] versions@[i].files@.len() == 0,
            Err(_) => false,
        },
{
    let mut i: usize = 0;
    while i < versions.len()
        invariant
            i <= versions@.len(),
            forall|j: int| 0 <= j < i ==> !(loader_ok(#[trigger] versions@[j], uses_fabric) && game_ok(versions@[j], mc_version@)),
        decreases versions@.len() - i,
    {
        if is_compatible(&versions[i], uses_fabric, mc_version) {
            return match primary_file(&versions[i].files) {
                Some(f) => Ok((i, f)),
                None => {
                    assert(versions@[i as int].files@.len() == 0);
                    Err(SelectError::NoFiles)
                },
            };
        }
        i = i + 1;
    }
    Err(SelectError::NoCompatibleVersion)
}

/// Chooses the version with the requested number, and its file, after
/// checking that it suits the server.
pub fn select_requested(versions: &Vec<Version>, requested: &String, uses_fabric: bool, mc_version: &String) -> (r: Result<(usize, usize), SelectError>)
    ensures
        match r {
            Ok((i, f)) => {
                let v = versions@[i as int];
                &&& is_first(versions@, i as int, |v: Version| has_number(v, requested@))
                &&& !(uses_fabric && v.loaders@.len() > 0 && !has_fabric_loader(v))
                &&& game_ok(v, mc_version@)
                &&& is_file_choice(v.files@, f as int)
            },
            Err(SelectError::NoFabricLoader) => exists|i: int|
                is_first(versions@, i, |v: Version| has_number(v, requested@))
                    && uses_fabric && #[trigger] versions@[i].loaders@.len() > 0 && !has_fabric_loader(versions@[i]),
            Err(SelectError::WrongGameVersion) => exists|i: int|
                is_first(versions@, i, |v: Version| has_number(v, requested@))
                    && !(uses_fabric && #[trigger] versions@[i].loaders@.len() > 0 && !has_fabric_loader(versions@[i]))
                    && !game_ok(versions@[i], mc_version@),
            Err(SelectError::VersionNotFound) => {
                ||| forall|j: int| 0 <= j < versions@.len() ==> !has_number(#[trigger] versions@[j], requested@)
                ||| exists|i: int|
                    is_first(versions@, i, |v: Version| has_number(v, requested@))
                        && !(uses_fabric && #[trigger] versions@[i].loaders@.len() > 0 && !has_fabric_loader(versions@[i]))
                        && game_ok(versions@[i], mc_version@) && versions@[i].files@.len() == 0
            },
            Err(_) => false,
        },
{
    let mut i: usize = 0;
    while i < versions.len()
        invariant
            i <= versions@.len(),
            forall|j: int| 0 <= j < i ==> !has_number(#[trigger] versions@[j], requested@),
        decreases versions@.len() - i,
    {
        let v = &versions[i];
        if version_has_number(v, requested) {
            assert(is_first(versions@, i as int, |v: Version| has_number(v, requested@)));
            if uses_fabric && v.loaders.len() > 0 && !declares_fabric(v) {
                return Err(SelectError::NoFabricLoader);
            }
            assert(v.loaders@.len() == versions@[i as int].loaders@.len());
            if v.game_versions.len() > 0 && !any_equal(&v.game_versions, mc_version) {
                assert(!game_ok(versions@[i as int], mc_version@));
                return Err(SelectError::WrongGameVersion);
            }
            return match primary_file(&v.files) {
                Some(f) => Ok((i, f)),
                None => {
                    assert(versions@[i as int].files@.len() == 0);
                    Err(SelectError::VersionNotFound)
                },
            };
        }
        i = i + 1;
    }
    Err(SelectError::VersionNotFound)
}

/// How an installed mod stands against the newest version.
#[derive(Debug, Clone, Copy, PartialEq, Eq, Structural)]
pub enum UpdateStatus {
    /// The newest version is not known (`-`).
    Unknown,
    UpToDate,
    UpdateAvailable,
}

/// Compares the installed version with the newest one's name; `-` stands
/// for a newest version that could not be found.
pub fn update_status(installed: &String, latest: &String) -> (r: UpdateStatus)
    ensures
        latest@ == "-"@ ==> r == UpdateStatus::Unknown,
        latest@ != "-"@ && latest@ == installed@ ==> r == UpdateStatus::UpToDate,
        latest@ != "-"@ && latest@ != installed@ ==> r == UpdateStatus::UpdateAvailable,
{
    let unknown = "-".to_owned();
    if *latest == unknown {
        UpdateStatus::Unknown
    } else if *latest == *installed {
        UpdateStatus::UpToDate
    } else {
        UpdateStatus::UpdateAvailable
    }
}


/// The fields of a comma-separated list, as `str::split(',')` gives them.
pub uninterp spec fn comma_fields(s: Seq<char>) -> Seq<Seq<char>>;

/// Relies on `str::split` with `','`: the fields depend on the text alone.
#[verifier::external_body]
fn split_commas(s: &str) -> (r: Vec<String>)
    ensures
        r@.map_values(|f: String| f@) == comma_fields(s@),
{
    s.split(',').map(|f| f.to_owned()).collect()
}

/// Each of `fields` without leading and trailing whitespace.
pub fn trim_each(fields: &Vec<String>) -> (r: Vec<String>)
    ensures
        r@.map_values(|f: String| f@) == fields@.map_values(|f: String| f@).map_values(|f: Seq<char>| trim_of(f)),
{
    let ghost want = fields@.map_values(|f: String| f@).map_values(|f: Seq<char>| trim_of(f));
    let mut out: Vec<String> = Vec::new();
    let mut i: usize = 0;
    while i < fields.len()
        invariant
            i <= fields@.len(),
            out@.len() == i,
            forall|j: int| 0 <= j < i ==> (#[trigger] out@[j])@ == trim_of(fields@[j]@),
        decreases fields@.len() - i,
    {
        out.push(trim_str(fields[i].as_str()).to_owned());
        i = i + 1;
    }
    assert(out@.map_values(|f: String| f@) =~= want);
    out
}

/// The trimmed fields of a comma-separated list (`fabric, forge`).
pub fn split_list(s: &str) -> (r: Vec<String>)
    ensures
        r@.map_values(|f: String| f@) == comma_fields(s@).map_values(|f: Seq<char>| trim_of(f)),
{
    let fields = split_commas(s);
    trim_each(&fields)
}

/// The facets of a mod search: mods only, then one group per loader and
/// one per game version.
pub open spec fn facets_spec(loaders: Seq<Seq<char>>, game_versions: Seq<Seq<char>>) -> Seq<Seq<Seq<char>>> {
    seq![seq!["project_type:mod"@]]
        + loaders.map_values(|l: Seq<char>| seq!["categories:"@ + l])
        + game_versions.map_values(|g: Seq<char>| seq!["versions:"@ + g])
}

/// The view of a list of lists of strings.
pub open spec fn nested_view(f: Seq<Vec<String>>) -> Seq<Seq<Seq<char>>> {
    f.map_values(|v: Vec<String>| v@.map_values(|s: String| s@))
}

/// Appends one facet group `[prefix + value]` for each value.
fn push_groups(out: &mut Vec<Vec<String>>, prefix: &str, values: &Vec<String>)
    ensures
        nested_view(final(out)@) == nested_view(old(out)@)
            + values@.map_values(|v: String| v@).map_values(|v: Seq<char>| seq![prefix@ + v]),
{
    let ghost start = nested_view(out@);
    let ghost add = values@.map_values(|v: String| v@).map_values(|v: Seq<char>| seq![prefix@ + v]);
    let mut i: usize = 0;
    while i < values.len()
        invariant
            i <= values@.len(),
            start == nested_view(old(out)@),
            add == values@.map_values(|v: String| v@).map_values(|v: Seq<char>| seq![prefix@ + v]),
            nested_view(out@) == start + add.take(i as int),
        decreases values@.len() - i,
    {
        let mut group: Vec<String> = Vec::new();
        group.push(prefix.to_owned().concat(values[i].as_str()));
        let ghost before = nested_view(out@);
        out.push(group);
        assert(group@.map_values(|s: String| s@) =~= seq![prefix@ + values@[i as int]@]);
        assert(nested_view(out@) =~= before.push(add[i as int]));
        assert(add.take(i + 1) =~= add.take(i as int).push(add[i as int]));
        i = i + 1;
    }
    assert(add.take(i as int) =~= add);
}

/// The facets of a mod search: mods only, then one group per loader and
/// one per game version.
pub fn search_facets(loaders: &Vec<String>, game_versions: &Vec<String>) -> (r: Vec<Vec<String>>)
    ensures
        nested_view(r@) == facets_spec(loaders@.map_values(|l: String| l@), game_versions@.map_values(|g: String| g@)),
{
    let mut out: Vec<Vec<String>> = Vec::new();
    let mut first: Vec<String> = Vec::new();
    first.push("project_type:mod".to_owned());
    assert(first@.map_values(|s: String| s@) =~= seq!["project_type:mod"@]);
    out.push(first);
    assert(nested_view(out@) =~= seq![seq!["project_type:mod"@]]);
    push_groups(&mut out, "categories:", loaders);
    push_groups(&mut out, "versions:", game_versions);
    let ghost ls = loaders@.map_values(|l: String| l@);
    let ghost gs = game_versions@.map_values(|g: String| g@);
    assert(ls.map_values(|l: Seq<char>| seq!["categories:"@ + l])
        =~= loaders@.map_values(|v: String| v@).map_values(|v: Seq<char>| seq!["categories:"@ + v]));
    assert(gs.map_values(|g: Seq<char>| seq!["versions:"@ + g])
        =~= game_versions@.map_values(|v: String| v@).map_values(|v: Seq<char>| seq!["versions:"@ + v]));
    out
}

/// The JSON text of a list of lists of strings.
pub uninterp spec fn json_of_nested(f: Seq<Seq<Seq<char>>>) -> Seq<char>;

/// Relies on `serde_json::to_string`: the text depends on the strings
/// alone; `None` stands for an error of the serializer.
#[verifier::external_body]
fn nested_to_json(f: &Vec<Vec<String>>) -> (r: Option<String>)
    ensures
        r matches Some(s) ==> s@ == json_of_nested(nested_view(f@)),
{
    serde_json::to_string(f).ok()
}

/// The facets of a mod search as the JSON text that the API takes, or
/// `None` where the serializer fails.
pub fn search_facets_json(loaders: &Vec<String>, game_versions: &Vec<String>) -> (r: Option<String>)
    ensures
        r matches Some(s) ==> s@ == json_of_nested(
            facets_spec(loaders@.map_values(|l: String| l@), game_versions@.map_values(|g: String| g@)),
        ),
{
    let facets = search_facets(loaders, game_versions);
    nested_to_json(&facets)
}

} // verus!
