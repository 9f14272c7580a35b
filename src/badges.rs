//! Badge rows: one typed badge per package, decoded from a type tag and an
//! attribute blob.
//!
//! A known tag whose attributes have exactly the declared shape gives that
//! tag's own variant. Every other tag, and a known tag whose attributes do not
//! fit, gives `BadgeType::Other`, which keeps the tag and all attributes. Only an
//! attribute blob that is not a mapping from names to strings is an error.
//!
//! The blob is read by `serde_json`, which keeps the last value where a name
//! occurs twice.

use crate::attributes::{entries_view, entry_view, parse_string_map, string_map_of, text_view, Entry};
use crate::crates::{crate_id_spec, CrateId};
use crate::error::Error;
use vstd::prelude::*;
use vstd::utf8::encode_utf8;

verus! {

/// Attributes as values: each name with a text, or `None` for `null`.
pub type Entries = Seq<(Seq<char>, Option<Seq<char>>)>;

/// The state of a project's maintenance.
#[derive(Clone, Copy, Debug, PartialEq, Eq, Structural)]
pub enum MaintenanceStatus {
    ActivelyDeveloped,
    AsIs,
    Deprecated,
    Experimental,
    LookingForMaintainer,
    /// Written `none`: no status is declared.
    Unspecified,
    PassivelyMaintained,
}

/// A badge of a package.
#[derive(Clone, Debug)]
#[non_exhaustive]
pub enum BadgeType {
    #[non_exhaustive]
    Appveyor {
        repository: String,
        project_name: Option<String>,
        branch: Option<String>,
        service: Option<String>,
        id: Option<String>,
    },
    #[non_exhaustive]
    AzureDevops { project: String, pipeline: String, build: Option<String> },
    #[non_exhaustive]
    BitbucketPipelines { repository: String, branch: String },
    #[non_exhaustive]
    CircleCi { repository: String, branch: Option<String> },
    #[non_exhaustive]
    CirrusCi { repository: String, branch: Option<String> },
    #[non_exhaustive]
    Codecov { repository: String, branch: Option<String>, service: Option<String> },
    #[non_exhaustive]
    Coveralls { repository: String, branch: Option<String>, service: Option<String> },
    #[non_exhaustive]
    Gitlab { repository: String, branch: Option<String>, tag: Option<String> },
    #[non_exhaustive]
    IsItMaintainedIssueResolution { repository: String, service: Option<String> },
    #[non_exhaustive]
    IsItMaintainedOpenIssues { repository: String, service: Option<String> },
    #[non_exhaustive]
    Maintenance { status: MaintenanceStatus },
    #[non_exhaustive]
    TravisCi {
        repository: String,
        branch: Option<String>,
        service: Option<String>,
        master: Option<String>,
        tld: Option<String>,
    },
    /// Any other badge: its tag, and its attributes in the order the mapping
    /// gives them, each name once.
    Other { badge_type: String, attributes: Vec<(String, String)> },
}

/// The value of a badge.
pub enum BadgeView {
    Appveyor {
        repository: Seq<char>,
        project_name: Option<Seq<char>>,
        branch: Option<Seq<char>>,
        service: Option<Seq<char>>,
        id: Option<Seq<char>>,
    },
    AzureDevops { project: Seq<char>, pipeline: Seq<char>, build: Option<Seq<char>> },
    BitbucketPipelines { repository: Seq<char>, branch: Seq<char> },
    CircleCi { repository: Seq<char>, branch: Option<Seq<char>> },
    CirrusCi { repository: Seq<char>, branch: Option<Seq<char>> },
    Codecov { repository: Seq<char>, branch: Option<Seq<char>>, service: Option<Seq<char>> },
    Coveralls { repository: Seq<char>, branch: Option<Seq<char>>, service: Option<Seq<char>> },
    Gitlab { repository: Seq<char>, branch: Option<Seq<char>>, tag: Option<Seq<char>> },
    IsItMaintainedIssueResolution { repository: Seq<char>, service: Option<Seq<char>> },
    IsItMaintainedOpenIssues { repository: Seq<char>, service: Option<Seq<char>> },
    Maintenance { status: MaintenanceStatus },
    TravisCi {
        repository: Seq<char>,
        branch: Option<Seq<char>>,
        service: Option<Seq<char>>,
        master: Option<Seq<char>>,
        tld: Option<Seq<char>>,
    },
    Other { badge_type: Seq<char>, attributes: Seq<(Seq<char>, Seq<char>)> },
}

/// The value of a list of name-value pairs.
pub open spec fn pairs_view(v: Seq<(String, String)>) -> Seq<(Seq<char>, Seq<char>)> {
    v.map_values(|p: (String, String)| (p.0@, p.1@))
}

impl View for BadgeType {
    type V = BadgeView;

    open spec fn view(&self) -> BadgeView {
        match self {
            BadgeType::Appveyor { repository, project_name, branch, service, id } => {
                BadgeView::Appveyor {
                    repository: repository@,
                    project_name: text_view(*project_name),
                    branch: text_view(*branch),
                    service: text_view(*service),
                    id: text_view(*id),
                }
            },
            BadgeType::AzureDevops { project, pipeline, build } => BadgeView::AzureDevops {
                project: project@,
                pipeline: pipeline@,
                build: text_view(*build),
            },
            BadgeType::BitbucketPipelines { repository, branch } => {
                BadgeView::BitbucketPipelines { repository: repository@, branch: branch@ }
            },
            BadgeType::CircleCi { repository, branch } => BadgeView::CircleCi {
                repository: repository@,
                branch: text_view(*branch),
            },
            BadgeType::CirrusCi { repository, branch } => BadgeView::CirrusCi {
                repository: repository@,
                branch: text_view(*branch),
            },
            BadgeType::Codecov { repository, branch, service } => BadgeView::Codecov {
                repository: repository@,
                branch: text_view(*branch),
                service: text_view(*service),
            },
            BadgeType::Coveralls { repository, branch, service } => BadgeView::Coveralls {
                repository: repository@,
                branch: text_view(*branch),
                service: text_view(*service),
            },
            BadgeType::Gitlab { repository, branch, tag } => BadgeView::Gitlab {
                repository: repository@,
                branch: text_view(*branch),
                tag: text_view(*tag),
            },
            BadgeType::IsItMaintainedIssueResolution { repository, service } => {
                BadgeView::IsItMaintainedIssueResolution {
                    repository: repository@,
                    service: text_view(*service),
                }
            },
            BadgeType::IsItMaintainedOpenIssues { repository, service } => {
                BadgeView::IsItMaintainedOpenIssues {
                    repository: repository@,
                    service: text_view(*service),
                }
            },
            BadgeType::Maintenance { status } => BadgeView::Maintenance { status: *status },
            BadgeType::TravisCi { repository, branch, service, master, tld } => {
                BadgeView::TravisCi {
                    repository: repository@,
                    branch: text_view(*branch),
                    service: text_view(*service),
                    master: text_view(*master),
                    tld: text_view(*tld),
                }
            },
            BadgeType::Other { badge_type, attributes } => BadgeView::Other {
                badge_type: badge_type@,
                attributes: pairs_view(attributes@),
            },
        }
    }
}

/// The badge kinds with a declared attribute shape.
#[derive(Clone, Copy, Debug, PartialEq, Eq, Structural)]
pub enum KnownTag {
    Appveyor,
    AzureDevops,
    BitbucketPipelines,
    CircleCi,
    CirrusCi,
    Codecov,
    Coveralls,
    Gitlab,
    IsItMaintainedIssueResolution,
    IsItMaintainedOpenIssues,
    Maintenance,
    TravisCi,
}

/// The kind that a type tag names, matched exactly.
pub open spec fn known_tag_spec(t: Seq<char>) -> Option<KnownTag> {
    if t == "appveyor"@ {
        Some(KnownTag::Appveyor)
    } else if t == "azure-devops"@ {
        Some(KnownTag::AzureDevops)
    } else if t == "bitbucket-pipelines"@ {
        Some(KnownTag::BitbucketPipelines)
    } else if t == "circle-ci"@ {
        Some(KnownTag::CircleCi)
    } else if t == "cirrus-ci"@ {
        Some(KnownTag::CirrusCi)
    } else if t == "codecov"@ {
        Some(KnownTag::Codecov)
    } else if t == "coveralls"@ {
        Some(KnownTag::Coveralls)
    } else if t == "gitlab"@ {
        Some(KnownTag::Gitlab)
    } else if t == "is-it-maintained-issue-resolution"@ {
        Some(KnownTag::IsItMaintainedIssueResolution)
    } else if t == "is-it-maintained-open-issues"@ {
        Some(KnownTag::IsItMaintainedOpenIssues)
    } else if t == "maintenance"@ {
        Some(KnownTag::Maintenance)
    } else if t == "travis-ci"@ {
        Some(KnownTag::TravisCi)
    } else {
        None
    }
}

/// Whether two texts are the same.
fn same_text(a: &String, b: &str) -> (r: bool)
    ensures
        r == (a@ == b@),
{
    let owned = b.to_owned();
    *a == owned
}

/// Looks a type tag up among the known kinds.
pub fn known_tag(tag: &String) -> (r: Option<KnownTag>)
    ensures
        r == known_tag_spec(tag@),
{
    if same_text(tag, "appveyor") {
        Some(KnownTag::Appveyor)
    } else if same_text(tag, "azure-devops") {
        Some(KnownTag::AzureDevops)
    } else if same_text(tag, "bitbucket-pipelines") {
        Some(KnownTag::BitbucketPipelines)
    } else if same_text(tag, "circle-ci") {
        Some(KnownTag::CircleCi)
    } else if same_text(tag, "cirrus-ci") {
        Some(KnownTag::CirrusCi)
    } else if same_text(tag, "codecov") {
        Some(KnownTag::Codecov)
    } else if same_text(tag, "coveralls") {
        Some(KnownTag::Coveralls)
    } else if same_text(tag, "gitlab") {
        Some(KnownTag::Gitlab)
    } else if same_text(tag, "is-it-maintained-issue-resolution") {
        Some(KnownTag::IsItMaintainedIssueResolution)
    } else if same_text(tag, "is-it-maintained-open-issues") {
        Some(KnownTag::IsItMaintainedOpenIssues)
    } else if same_text(tag, "maintenance") {
        Some(KnownTag::Maintenance)
    } else if same_text(tag, "travis-ci") {
        Some(KnownTag::TravisCi)
    } else {
        None
    }
}

/// How an attribute of a badge kind is declared: its name, an alternate
/// spelling that is accepted in its place, and whether it must be present.
pub struct FieldSpec {
    pub name: Seq<char>,
    pub alias: Option<Seq<char>>,
    pub required: bool,
}

/// A declared attribute of a badge kind.
pub struct Field {
    pub name: String,
    pub alias: Option<String>,
    pub required: bool,
}

impl View for Field {
    type V = FieldSpec;

    open spec fn view(&self) -> FieldSpec {
        FieldSpec { name: self.name@, alias: text_view(self.alias), required: self.required }
    }
}

/// The value of a list of declared attributes.
pub open spec fn fields_view(v: Seq<Field>) -> Seq<FieldSpec> {
    v.map_values(|f: Field| f@)
}

/// A required attribute with one spelling.
pub open spec fn required_spec(name: Seq<char>) -> FieldSpec {
    FieldSpec { name, alias: None, required: true }
}

/// An optional attribute with one spelling.
pub open spec fn optional_spec(name: Seq<char>) -> FieldSpec {
    FieldSpec { name, alias: None, required: false }
}

/// The attributes that each known kind declares, in the order of its fields.
pub open spec fn schema_spec(k: KnownTag) -> Seq<FieldSpec> {
    match k {
        KnownTag::Appveyor => seq![
            required_spec("repository"@),
            FieldSpec { name: "project_name"@, alias: Some("project-name"@), required: false },
            optional_spec("branch"@),
            optional_spec("service"@),
            optional_spec("id"@),
        ],
        KnownTag::AzureDevops => seq![
            required_spec("project"@),
            required_spec("pipeline"@),
            optional_spec("build"@),
        ],
        KnownTag::BitbucketPipelines => seq![required_spec("repository"@), required_spec("branch"@)],
        KnownTag::CircleCi => seq![required_spec("repository"@), optional_spec("branch"@)],
        KnownTag::CirrusCi => seq![required_spec("repository"@), optional_spec("branch"@)],
        KnownTag::Codecov => seq![
            required_spec("repository"@),
            optional_spec("branch"@),
            optional_spec("service"@),
        ],
        KnownTag::Coveralls => seq![
            required_spec("repository"@),
            optional_spec("branch"@),
            optional_spec("service"@),
        ],
        KnownTag::Gitlab => seq![
            required_spec("repository"@),
            optional_spec("branch"@),
            optional_spec("tag"@),
        ],
        KnownTag::IsItMaintainedIssueResolution => seq![
            required_spec("repository"@),
            optional_spec("service"@),
        ],
        KnownTag::IsItMaintainedOpenIssues => seq![
            required_spec("repository"@),
            optional_spec("service"@),
        ],
        KnownTag::Maintenance => seq![required_spec("status"@)],
        KnownTag::TravisCi => seq![
            required_spec("repository"@),
            optional_spec("branch"@),
            optional_spec("service"@),
            optional_spec("master"@),
            optional_spec("tld"@),
        ],
    }
}

fn required(name: &str) -> (r: Field)
    ensures
        r@ == required_spec(name@),
{
    Field { name: name.to_owned(), alias: None, required: true }
}

fn optional(name: &str) -> (r: Field)
    ensures
        r@ == optional_spec(name@),
{
    Field { name: name.to_owned(), alias: None, required: false }
}

/// The attributes that a known kind declares.
pub fn schema(k: KnownTag) -> (r: Vec<Field>)
    ensures
        fields_view(r@) == schema_spec(k),
{
    let mut v: Vec<Field> = Vec::new();
    match k {
        KnownTag::Appveyor => {
            v.push(required("repository"));
            v.push(
                Field {
                    name: "project_name".to_owned(),
                    alias: Some("project-name".to_owned()),
                    required: false,
                },
            );
            v.push(optional("branch"));
            v.push(optional("service"));
            v.push(optional("id"));
        },
        KnownTag::AzureDevops => {
            v.push(required("project"));
            v.push(required("pipeline"));
            v.push(optional("build"));
        },
        KnownTag::BitbucketPipelines => {
            v.push(required("repository"));
            v.push(required("branch"));
        },
        KnownTag::CircleCi | KnownTag::CirrusCi => {
            v.push(required("repository"));
            v.push(optional("branch"));
        },
        KnownTag::Codecov | KnownTag::Coveralls => {
            v.push(required("repository"));
            v.push(optional("branch"));
            v.push(optional("service"));
        },
        KnownTag::Gitlab => {
            v.push(required("repository"));
            v.push(optional("branch"));
            v.push(optional("tag"));
        },
        KnownTag::IsItMaintainedIssueResolution | KnownTag::IsItMaintainedOpenIssues => {
            v.push(required("repository"));
            v.push(optional("service"));
        },
        KnownTag::Maintenance => {
            v.push(required("status"));
        },
        KnownTag::TravisCi => {
            v.push(required("repository"));
            v.push(optional("branch"));
            v.push(optional("service"));
            v.push(optional("master"));
            v.push(optional("tld"));
        },
    }
    assert(fields_view(v@) =~= schema_spec(k));
    v
}

/// What a name holds among the attributes: `None` where it is absent, else its
/// value (`Some(None)` for `null`). Where the name occurs twice the last wins.
pub open spec fn slot(e: Entries, k: Seq<char>) -> Option<Option<Seq<char>>>
    decreases e.len(),
{
    if e.len() == 0 {
        None
    } else if e.last().0 == k {
        Some(e.last().1)
    } else {
        slot(e.drop_last(), k)
    }
}

/// The value of a looked-up attribute.
pub open spec fn slot_view(r: Option<Option<String>>) -> Option<Option<Seq<char>>> {
    match r {
        Some(t) => Some(text_view(t)),
        None => None,
    }
}

fn copy_text(t: &Option<String>) -> (r: Option<String>)
    ensures
        text_view(r) == text_view(*t),
{
    match t {
        Some(s) => Some(s.clone()),
        None => None,
    }
}

/// Looks an attribute up by name.
pub fn lookup(e: &Vec<Entry>, k: &String) -> (r: Option<Option<String>>)
    ensures
        slot_view(r) == slot(entries_view(e@), k@),
{
    let ghost ev = entries_view(e@);
    let mut found: Option<Option<String>> = None;
    let mut i: usize = 0;
    while i < e.len()
        invariant
            i <= e.len(),
            ev == entries_view(e@),
            slot_view(found) == slot(ev.subrange(0, i as int), k@),
        decreases e.len() - i,
    {
        assert(ev.subrange(0, i + 1).drop_last() =~= ev.subrange(0, i as int));
        if e[i].0 == *k {
            found = Some(copy_text(&e[i].1));
        }
        i = i + 1;
    }
    assert(ev.subrange(0, e.len() as int) =~= ev);
    found
}

/// The value that a declared attribute takes: `None` where the attributes do
/// not fit it (both spellings given, a required one absent or `null`), else
/// its value, with an optional one that is absent or `null` as `None`.
pub open spec fn field_value_spec(f: FieldSpec, e: Entries) -> Option<Option<Seq<char>>> {
    let a = slot(e, f.name);
    let b = match f.alias {
        Some(al) => slot(e, al),
        None => None,
    };
    if a is Some && b is Some {
        None
    } else {
        let s = if a is Some {
            a
        } else {
            b
        };
        match s {
            Some(Some(t)) => Some(Some(t)),
            _ => if f.required {
                None
            } else {
                Some(None)
            },
        }
    }
}

/// Reads a declared attribute.
fn field_value(f: &Field, e: &Vec<Entry>) -> (r: Option<Option<String>>)
    ensures
        slot_view(r) == field_value_spec(f@, entries_view(e@)),
{
    let a = lookup(e, &f.name);
    let b = match &f.alias {
        Some(al) => lookup(e, al),
        None => None,
    };
    if a.is_some() && b.is_some() {
        return None;
    }
    let s = if a.is_some() {
        a
    } else {
        b
    };
    match s {
        Some(Some(t)) => Some(Some(t)),
        _ => if f.required {
            None
        } else {
            Some(None)
        },
    }
}

/// Whether a name is one of the declared attributes, in either spelling.
pub open spec fn declared(f: Seq<FieldSpec>, k: Seq<char>) -> bool {
    exists|j: int| #![trigger f[j]] 0 <= j < f.len() && (f[j].name == k || f[j].alias == Some(k))
}

fn is_declared(fields: &Vec<Field>, k: &String) -> (r: bool)
    ensures
        r == declared(fields_view(fields@), k@),
{
    let ghost fv = fields_view(fields@);
    let mut j: usize = 0;
    while j < fields.len()
        invariant
            j <= fields.len(),
            fv == fields_view(fields@),
            forall|t: int| #![trigger fv[t]] 0 <= t < j ==> !(fv[t].name == k@ || fv[t].alias == Some(k@)),
        decreases fields.len() - j,
    {
        assert(fv[j as int] == fields@[j as int]@);
        let hit = match &fields[j].alias {
            Some(al) => *al == *k,
            None => false,
        };
        if fields[j].name == *k || hit {
            assert(fv[j as int].name == k@ || fv[j as int].alias == Some(k@));
            return true;
        }
        j = j + 1;
    }
    false
}

/// The values of a kind's declared attributes, where the attributes have
/// exactly that kind's shape: no undeclared name, and each declared attribute
/// fits.
pub open spec fn strict_values_spec(f: Seq<FieldSpec>, e: Entries) -> Option<Seq<Option<Seq<char>>>> {
    if (forall|i: int| 0 <= i < e.len() ==> declared(f, #[trigger] e[i].0)) && (forall|j: int|
        0 <= j < f.len() ==> #[trigger] field_value_spec(f[j], e) is Some) {
        Some(Seq::new(f.len(), |j: int| field_value_spec(f[j], e)->0))
    } else {
        None
    }
}

/// The value of a list of attribute values.
pub open spec fn values_view(v: Seq<Option<String>>) -> Seq<Option<Seq<char>>> {
    v.map_values(|t: Option<String>| text_view(t))
}

/// Reads the attributes against a kind's declared shape.
fn strict_values(fields: &Vec<Field>, e: &Vec<Entry>) -> (r: Option<Vec<Option<String>>>)
    ensures
        match r {
            Some(v) => strict_values_spec(fields_view(fields@), entries_view(e@)) == Some(
                values_view(v@),
            ),
            None => strict_values_spec(fields_view(fields@), entries_view(e@)) is None,
        },
{
    let ghost fv = fields_view(fields@);
    let ghost ev = entries_view(e@);
    let mut i: usize = 0;
    while i < e.len()
        invariant
            i <= e.len(),
            fv == fields_view(fields@),
            ev == entries_view(e@),
            forall|t: int| 0 <= t < i ==> declared(fv, #[trigger] ev[t].0),
        decreases e.len() - i,
    {
        if !is_declared(fields, &e[i].0) {
            assert(!declared(fv, ev[i as int].0));
            return None;
        }
        i = i + 1;
    }
    let mut out: Vec<Option<String>> = Vec::new();
    let mut j: usize = 0;
    while j < fields.len()
        invariant
            j <= fields.len(),
            out.len() == j,
            fv == fields_view(fields@),
            ev == entries_view(e@),
            forall|t: int| 0 <= t < e.len() ==> declared(fv, #[trigger] ev[t].0),
            forall|t: int|
                0 <= t < j ==> #[trigger] field_value_spec(fv[t], ev) == Some(
                    text_view(out@[t]),
                ),
        decreases fields.len() - j,
    {
        match field_value(&fields[j], e) {
            Some(v) => {
                out.push(v);
            },
            None => {
                assert(field_value_spec(fv[j as int], ev) is None);
                return None;
            },
        }
        j = j + 1;
    }
    assert(values_view(out@) =~= Seq::new(fv.len(), |t: int| field_value_spec(fv[t], ev)->0));
    Some(out)
}

/// The maintenance status that a token spells.
pub open spec fn status_spec(t: Seq<char>) -> Option<MaintenanceStatus> {
    if t == "actively-developed"@ {
        Some(MaintenanceStatus::ActivelyDeveloped)
    } else if t == "as-is"@ {
        Some(MaintenanceStatus::AsIs)
    } else if t == "deprecated"@ {
        Some(MaintenanceStatus::Deprecated)
    } else if t == "experimental"@ {
        Some(MaintenanceStatus::Experimental)
    } else if t == "looking-for-maintainer"@ {
        Some(MaintenanceStatus::LookingForMaintainer)
    } else if t == "none"@ {
        Some(MaintenanceStatus::Unspecified)
    } else if t == "passively-maintained"@ {
        Some(MaintenanceStatus::PassivelyMaintained)
    } else {
        None
    }
}

impl MaintenanceStatus {
    /// Reads a status from its hyphenated lower-case token.
    pub fn parse(t: &String) -> (r: Option<MaintenanceStatus>)
        ensures
            r == status_spec(t@),
    {
        if same_text(t, "actively-developed") {
            Some(MaintenanceStatus::ActivelyDeveloped)
        } else if same_text(t, "as-is") {
            Some(MaintenanceStatus::AsIs)
        } else if same_text(t, "deprecated") {
            Some(MaintenanceStatus::Deprecated)
        } else if same_text(t, "experimental") {
            Some(MaintenanceStatus::Experimental)
        } else if same_text(t, "looking-for-maintainer") {
            Some(MaintenanceStatus::LookingForMaintainer)
        } else if same_text(t, "none") {
            Some(MaintenanceStatus::Unspecified)
        } else if same_text(t, "passively-maintained") {
            Some(MaintenanceStatus::PassivelyMaintained)
        } else {
            None
        }
    }
}

/// The text of a required attribute's value.
pub open spec fn text_of(t: Option<Seq<char>>) -> Seq<char> {
    match t {
        Some(s) => s,
        None => Seq::empty(),
    }
}

fn required_text(t: &Option<String>) -> (r: String)
    ensures
        r@ == text_of(text_view(*t)),
{
    match t {
        Some(s) => s.clone(),
        None => String::new(),
    }
}

/// The badge of a known kind with the given values of its declared
/// attributes, in the order of `schema_spec`; `None` where a value does not fit
/// (a maintenance status that is no known token).
pub open spec fn build_spec(k: KnownTag, v: Seq<Option<Seq<char>>>) -> Option<BadgeView> {
    match k {
        KnownTag::Appveyor => Some(
            BadgeView::Appveyor {
                repository: text_of(v[0]),
                project_name: v[1],
                branch: v[2],
                service: v[3],
                id: v[4],
            },
        ),
        KnownTag::AzureDevops => Some(
            BadgeView::AzureDevops { project: text_of(v[0]), pipeline: text_of(v[1]), build: v[2] },
        ),
        KnownTag::BitbucketPipelines => Some(
            BadgeView::BitbucketPipelines { repository: text_of(v[0]), branch: text_of(v[1]) },
        ),
        KnownTag::CircleCi => Some(BadgeView::CircleCi { repository: text_of(v[0]), branch: v[1] }),
        KnownTag::CirrusCi => Some(BadgeView::CirrusCi { repository: text_of(v[0]), branch: v[1] }),
        KnownTag::Codecov => Some(
            BadgeView::Codecov { repository: text_of(v[0]), branch: v[1], service: v[2] },
        ),
        KnownTag::Coveralls => Some(
            BadgeView::Coveralls { repository: text_of(v[0]), branch: v[1], service: v[2] },
        ),
        KnownTag::Gitlab => Some(
            BadgeView::Gitlab { repository: text_of(v[0]), branch: v[1], tag: v[2] },
        ),
        KnownTag::IsItMaintainedIssueResolution => Some(
            BadgeView::IsItMaintainedIssueResolution { repository: text_of(v[0]), service: v[1] },
        ),
        KnownTag::IsItMaintainedOpenIssues => Some(
            BadgeView::IsItMaintainedOpenIssues { repository: text_of(v[0]), service: v[1] },
        ),
        KnownTag::Maintenance => match status_spec(text_of(v[0])) {
            Some(status) => Some(BadgeView::Maintenance { status }),
            None => None,
        },
        KnownTag::TravisCi => Some(
            BadgeView::TravisCi {
                repository: text_of(v[0]),
                branch: v[1],
                service: v[2],
                master: v[3],
                tld: v[4],
            },
        ),
    }
}

/// The value of an optional badge.
pub open spec fn badge_view(r: Option<BadgeType>) -> Option<BadgeView> {
    match r {
        Some(b) => Some(b@),
        None => None,
    }
}

/// Builds the badge of a known kind from the values of its declared attributes.
fn build(k: KnownTag, v: &Vec<Option<String>>) -> (r: Option<BadgeType>)
    requires
        v.len() == schema_spec(k).len(),
    ensures
        badge_view(r) == build_spec(k, values_view(v@)),
{
    let ghost vv = values_view(v@);
    assert(forall|i: int| 0 <= i < v.len() ==> vv[i] == text_view(#[trigger] v@[i]));
    match k {
        KnownTag::Appveyor => Some(
            BadgeType::Appveyor {
                repository: required_text(&v[0]),
                project_name: copy_text(&v[1]),
                branch: copy_text(&v[2]),
                service: copy_text(&v[3]),
                id: copy_text(&v[4]),
            },
        ),
        KnownTag::AzureDevops => Some(
            BadgeType::AzureDevops {
                project: required_text(&v[0]),
                pipeline: required_text(&v[1]),
                build: copy_text(&v[2]),
            },
        ),
        KnownTag::BitbucketPipelines => Some(
            BadgeType::BitbucketPipelines {
                repository: required_text(&v[0]),
                branch: required_text(&v[1]),
            },
        ),
        KnownTag::CircleCi => Some(
            BadgeType::CircleCi { repository: required_text(&v[0]), branch: copy_text(&v[1]) },
        ),
        KnownTag::CirrusCi => Some(
            BadgeType::CirrusCi { repository: required_text(&v[0]), branch: copy_text(&v[1]) },
        ),
        KnownTag::Codecov => Some(
            BadgeType::Codecov {
                repository: required_text(&v[0]),
                branch: copy_text(&v[1]),
                service: copy_text(&v[2]),
            },
        ),
        KnownTag::Coveralls => Some(
            BadgeType::Coveralls {
                repository: required_text(&v[0]),
                branch: copy_text(&v[1]),
                service: copy_text(&v[2]),
            },
        ),
        KnownTag::Gitlab => Some(
            BadgeType::Gitlab {
                repository: required_text(&v[0]),
                branch: copy_text(&v[1]),
                tag: copy_text(&v[2]),
            },
        ),
        KnownTag::IsItMaintainedIssueResolution => Some(
            BadgeType::IsItMaintainedIssueResolution {
                repository: required_text(&v[0]),
                service: copy_text(&v[1]),
            },
        ),
        KnownTag::IsItMaintainedOpenIssues => Some(
            BadgeType::IsItMaintainedOpenIssues {
                repository: required_text(&v[0]),
                service: copy_text(&v[1]),
            },
        ),
        KnownTag::Maintenance => {
            let t = required_text(&v[0]);
            match MaintenanceStatus::parse(&t) {
                Some(status) => Some(BadgeType::Maintenance { status }),
                None => None,
            }
        },
        KnownTag::TravisCi => Some(
            BadgeType::TravisCi {
                repository: required_text(&v[0]),
                branch: copy_text(&v[1]),
                service: copy_text(&v[2]),
                master: copy_text(&v[3]),
                tld: copy_text(&v[4]),
            },
        ),
    }
}

/// The badge of a known kind, where the tag is known and the attributes have
/// exactly that kind's shape.
pub open spec fn typed_spec(tag: Seq<char>, e: Entries) -> Option<BadgeView> {
    match known_tag_spec(tag) {
        Some(k) => match strict_values_spec(schema_spec(k), e) {
            Some(v) => build_spec(k, v),
            None => None,
        },
        None => None,
    }
}

/// Whether every attribute has a text value (none is `null`).
pub open spec fn all_text(e: Entries) -> bool {
    forall|i: int| 0 <= i < e.len() ==> (#[trigger] e[i]).1 is Some
}

/// The attributes as name-text pairs.
pub open spec fn text_pairs(e: Entries) -> Seq<(Seq<char>, Seq<char>)> {
    e.map_values(|p: (Seq<char>, Option<Seq<char>>)| (p.0, p.1->0))
}

/// The badge that keeps the tag and the attributes as they are, where every
/// attribute is a text.
pub open spec fn fallback_spec(tag: Seq<char>, e: Entries) -> Option<BadgeView> {
    if all_text(e) {
        Some(BadgeView::Other { badge_type: tag, attributes: text_pairs(e) })
    } else {
        None
    }
}

/// The badge that a tag and attributes give: the typed one where there is one,
/// else the one that keeps them as they are; `None` where neither applies.
pub open spec fn classify_spec(tag: Seq<char>, e: Entries) -> Option<BadgeView> {
    if typed_spec(tag, e) is Some {
        typed_spec(tag, e)
    } else {
        fallback_spec(tag, e)
    }
}

/// The badge that a tag and an attribute blob give.
pub open spec fn decode_spec(tag: Seq<char>, blob: Seq<char>) -> Option<BadgeView> {
    match string_map_of(blob) {
        Some(e) => classify_spec(tag, e),
        None => None,
    }
}

/// Reads the attributes against the declared shape of the tag's kind.
pub fn decode_typed(tag: &String, e: &Vec<Entry>) -> (r: Option<BadgeType>)
    ensures
        badge_view(r) == typed_spec(tag@, entries_view(e@)),
{
    match known_tag(tag) {
        Some(k) => {
            let fields = schema(k);
            match strict_values(&fields, e) {
                Some(v) => {
                    assert(values_view(v@).len() == schema_spec(k).len());
                    build(k, &v)
                },
                None => None,
            }
        },
        None => None,
    }
}

/// Keeps the tag and the attributes as they are, where each attribute has a
/// text value.
pub fn decode_other(tag: &String, e: &Vec<Entry>) -> (r: Option<BadgeType>)
    ensures
        badge_view(r) == fallback_spec(tag@, entries_view(e@)),
{
    let ghost ev = entries_view(e@);
    let mut out: Vec<(String, String)> = Vec::new();
    let mut i: usize = 0;
    while i < e.len()
        invariant
            i <= e.len(),
            out.len() == i,
            ev == entries_view(e@),
            forall|t: int| 0 <= t < i ==> (#[trigger] ev[t]).1 is Some,
            forall|t: int|
                0 <= t < i ==> (#[trigger] out@[t]).0@ == ev[t].0 && Some(out@[t].1@) == ev[t].1,
        decreases e.len() - i,
    {
        match &e[i].1 {
            Some(v) => {
                out.push((e[i].0.clone(), v.clone()));
            },
            None => {
                assert(ev[i as int].1 is None);
                return None;
            },
        }
        i = i + 1;
    }
    assert(pairs_view(out@) =~= text_pairs(ev));
    Some(BadgeType::Other { badge_type: tag.clone(), attributes: out })
}

/// Decodes a badge from its tag and its attributes: the typed badge where the
/// tag is known and the attributes have its shape, else `Other` where every
/// attribute is a text, else `Error::Attributes`.
pub fn classify(tag: &String, entries: &Vec<Entry>) -> (r: Result<BadgeType, Error>)
    ensures
        match classify_spec(tag@, entries_view(entries@)) {
            Some(b) => r matches Ok(x) && x@ == b,
            None => r matches Err(err) && err == Error::Attributes,
        },
{
    match decode_typed(tag, entries) {
        Some(b) => Ok(b),
        None => match decode_other(tag, entries) {
            Some(b) => Ok(b),
            None => Err(Error::Attributes),
        },
    }
}

/// Decodes a badge from its type tag and its attribute blob, a JSON object.
pub fn decode_badge(tag: &str, blob: &str) -> (r: Result<BadgeType, Error>)
    ensures
        match decode_spec(tag@, blob@) {
            Some(b) => r matches Ok(x) && x@ == b,
            None => r matches Err(err) && err == Error::Attributes,
        },
{
    let t = tag.to_owned();
    match parse_string_map(blob) {
        Some(entries) => classify(&t, &entries),
        None => Err(Error::Attributes),
    }
}

/// One row of the badges table.
#[derive(Clone, Debug)]
#[non_exhaustive]
pub struct Row {
    pub crate_id: CrateId,
    pub badge_type: BadgeType,
}

/// The values of a list of texts.
pub open spec fn strings_view(v: Seq<String>) -> Seq<Seq<char>> {
    v.map_values(|s: String| s@)
}

/// A raw record as attributes: each header with the field under it.
pub open spec fn columns(headers: Seq<Seq<char>>, fields: Seq<Seq<char>>) -> Entries {
    Seq::new(headers.len(), |i: int| (headers[i], Some(fields[i])))
}

/// The field under a header.
pub open spec fn column(c: Entries, name: Seq<char>) -> Seq<char> {
    text_of(slot(c, name)->0)
}

/// Whether a raw record has exactly the columns `crate_id`, `badge_type` and
/// `attributes`, in any order, and one field under each.
pub open spec fn record_ok(headers: Seq<Seq<char>>, fields: Seq<Seq<char>>) -> bool {
    &&& headers.len() == 3
    &&& fields.len() == 3
    &&& slot(columns(headers, fields), "crate_id"@) is Some
    &&& slot(columns(headers, fields), "badge_type"@) is Some
    &&& slot(columns(headers, fields), "attributes"@) is Some
}

/// What a raw record decodes to: the owner and the badge, or the first error.
pub open spec fn row_spec(headers: Seq<Seq<char>>, fields: Seq<Seq<char>>) -> Result<
    (CrateId, BadgeView),
    Error,
> {
    let c = columns(headers, fields);
    if !record_ok(headers, fields) {
        Err(Error::Record)
    } else {
        match crate_id_spec(encode_utf8(column(c, "crate_id"@))) {
            None => Err(Error::CrateId),
            Some(id) => match decode_spec(column(c, "badge_type"@), column(c, "attributes"@)) {
                Some(b) => Ok((id, b)),
                None => Err(Error::Attributes),
            },
        }
    }
}

fn field_under(c: &Vec<Entry>, name: &str) -> (r: Option<String>)
    ensures
        match r {
            Some(s) => slot(entries_view(c@), name@) is Some && s@ == column(
                entries_view(c@),
                name@,
            ),
            None => slot(entries_view(c@), name@) is None,
        },
{
    let n = name.to_owned();
    match lookup(c, &n) {
        Some(t) => Some(required_text(&t)),
        None => None,
    }
}

fn de(record: &Vec<String>, headers: &Vec<String>) -> (r: Result<Row, Error>)
    ensures
        match row_spec(strings_view(headers@), strings_view(record@)) {
            Ok((id, b)) => r matches Ok(row) && row.crate_id == id && row.badge_type@ == b,
            Err(e) => r matches Err(x) && x == e,
        },
{
    let ghost hv = strings_view(headers@);
    let ghost rv = strings_view(record@);
    if headers.len() != 3 || record.len() != 3 {
        return Err(Error::Record);
    }
    let mut c: Vec<Entry> = Vec::new();
    let mut i: usize = 0;
    while i < 3
        invariant
            i <= 3,
            c.len() == i,
            headers.len() == 3,
            record.len() == 3,
            hv == strings_view(headers@),
            rv == strings_view(record@),
            forall|t: int|
                0 <= t < i ==> #[trigger] entry_view(c@[t]) == (hv[t], Some(rv[t])),
        decreases 3 - i,
    {
        c.push((headers[i].clone(), Some(record[i].clone())));
        i = i + 1;
    }
    assert(entries_view(c@) =~= columns(hv, rv));
    let owner = match field_under(&c, "crate_id") {
        Some(s) => s,
        None => return Err(Error::Record),
    };
    let tag = match field_under(&c, "badge_type") {
        Some(s) => s,
        None => return Err(Error::Record),
    };
    let blob = match field_under(&c, "attributes") {
        Some(s) => s,
        None => return Err(Error::Record),
    };
    let crate_id = match CrateId::parse(owner.as_str()) {
        Some(id) => id,
        None => return Err(Error::CrateId),
    };
    match decode_badge(tag.as_str(), blob.as_str()) {
        Ok(badge_type) => Ok(Row { crate_id, badge_type }),
        Err(e) => Err(e),
    }
}

impl Row {
    /// Decodes a row from a raw record and the headers of its table. The
    /// headers must be exactly `crate_id`, `badge_type` and `attributes`, in any
    /// order; the owner must be a decimal identifier; the attributes a JSON
    /// object of strings.
    pub fn from_record(record: &Vec<String>, headers: &Vec<String>) -> (r: Result<Row, Error>)
        ensures
            match row_spec(strings_view(headers@), strings_view(record@)) {
                Ok((id, b)) => r matches Ok(row) && row.crate_id == id && row.badge_type@ == b,
                Err(e) => r matches Err(x) && x == e,
            },
    {
        de(record, headers)
    }
}

} // verus!
