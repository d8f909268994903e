//! Tenant manifests: the tools and docs a tenant declares, how each entry is
//! brought to its full form, localized, checked, and where it is installed.
use vstd::prelude::*;

use crate::install::{
    binary_filename, enforce_github_url, expected_binary_name, expected_binary_spec,
    file_name_hint, file_name_hint_spec, github_host, language_part, resolve_translation,
    sanitize_relative_path, select_release_target, split_spec, url_parts, InstallError, Platform,
    ReleaseTarget,
};
use crate::strmap::KeyedMap;
use crate::config::{join_path, path_join};
use crate::text::{concat, concat3, decimal_text, ends_with, has_prefix, has_suffix, owned, str_eq, u64_text};
use crate::wizard::{join, join_spec};

verus! {

/// A tool's text in one language; what is absent keeps the default.
#[derive(Debug)]
pub struct ToolTranslation {
    pub name: Option<String>,
    pub description: Option<String>,
    pub docs: Option<Vec<String>>,
}

impl View for ToolTranslation {
    type V = ToolTranslation;

    open spec fn view(&self) -> ToolTranslation {
        *self
    }
}

/// How a tool is installed: a release binary chosen among per-platform targets.
#[derive(Debug)]
pub struct ToolInstall {
    pub install_type: String,
    pub binary_name: String,
    pub targets: Vec<ReleaseTarget>,
}

/// A tool in its full form.
#[derive(Debug)]
pub struct TenantToolEntry {
    pub schema: Option<String>,
    pub id: String,
    pub name: String,
    pub description: Option<String>,
    pub install: ToolInstall,
    pub docs: Vec<String>,
    pub i18n: KeyedMap<ToolTranslation>,
}

/// Where a doc is fetched from.
#[derive(Debug, PartialEq, Eq)]
pub struct DocSource {
    pub source_type: String,
    pub url: String,
}

impl DocSource {
    pub fn copy(&self) -> (r: DocSource)
        ensures
            r == *self,
    {
        DocSource { source_type: self.source_type.clone(), url: self.url.clone() }
    }
}

/// A doc's text and location in one language; what is absent keeps the default.
#[derive(Debug)]
pub struct DocTranslation {
    pub title: Option<String>,
    pub download_file_name: Option<String>,
    pub default_relative_path: Option<String>,
    pub source: Option<DocSource>,
}

impl View for DocTranslation {
    type V = DocTranslation;

    open spec fn view(&self) -> DocTranslation {
        *self
    }
}

/// A doc in its full form.
#[derive(Debug)]
pub struct TenantDocEntry {
    pub schema: Option<String>,
    pub id: String,
    pub title: String,
    pub source: DocSource,
    pub download_file_name: String,
    pub default_relative_path: String,
    pub i18n: KeyedMap<DocTranslation>,
}

/// The translation for `locale`, else for its language.
pub open spec fn translation_for<T>(m: Map<Seq<char>, T>, locale: Seq<char>) -> Option<T> {
    if m.contains_key(locale) {
        Some(m[locale])
    } else if m.contains_key(language_part(locale)) {
        Some(m[language_part(locale)])
    } else {
        None
    }
}

/// The translated value when there is one, else the default.
pub open spec fn or_keep<T>(o: Option<T>, d: T) -> T {
    match o {
        Some(x) => x,
        None => d,
    }
}

pub open spec fn tool_name_in(tool: TenantToolEntry, locale: Seq<char>) -> String {
    match translation_for(tool.i18n@, locale) {
        Some(t) => or_keep(t.name, tool.name),
        None => tool.name,
    }
}

pub open spec fn tool_description_in(tool: TenantToolEntry, locale: Seq<char>) -> Option<String> {
    match translation_for(tool.i18n@, locale) {
        Some(t) => match t.description {
            Some(d) => Some(d),
            None => tool.description,
        },
        None => tool.description,
    }
}

pub open spec fn tool_docs_in(tool: TenantToolEntry, locale: Seq<char>) -> Seq<String> {
    match translation_for(tool.i18n@, locale) {
        Some(t) => match t.docs {
            Some(d) => d@,
            None => tool.docs@,
        },
        None => tool.docs@,
    }
}

fn copy_strings(v: &Vec<String>) -> (r: Vec<String>)
    ensures
        r@ == v@,
{
    let mut out: Vec<String> = Vec::new();
    let mut i: usize = 0;
    while i < v.len()
        invariant
            i <= v@.len(),
            out@ == v@.take(i as int),
        decreases v@.len() - i,
    {
        out.push(v[i].clone());
        assert(out@ =~= v@.take(i + 1));
        i = i + 1;
    }
    assert(v@.take(v@.len() as int) =~= v@);
    out
}

fn copy_opt(o: &Option<String>) -> (r: Option<String>)
    ensures
        r == *o,
{
    match o {
        Some(s) => Some(s.clone()),
        None => None,
    }
}

/// The tool with its name, description and docs in `locale`.
pub fn apply_tool_locale(tool: TenantToolEntry, locale: &str) -> (r: TenantToolEntry)
    ensures
        r.schema == tool.schema,
        r.id == tool.id,
        r.install == tool.install,
        r.i18n == tool.i18n,
        r.name == tool_name_in(tool, locale@),
        r.description == tool_description_in(tool, locale@),
        r.docs@ == tool_docs_in(tool, locale@),
{
    let ghost orig = tool;
    let TenantToolEntry { schema, id, name, description, install, docs, i18n } = tool;
    let mut name = name;
    let mut description = description;
    let mut docs = docs;
    match resolve_translation(&i18n, locale) {
        Some(t) => {
            if let Some(n) = &t.name {
                name = n.clone();
            }
            if let Some(d) = &t.description {
                description = Some(d.clone());
            }
            if let Some(d) = &t.docs {
                docs = copy_strings(d);
            }
        },
        None => {},
    }
    TenantToolEntry { schema, id, name, description, install, docs, i18n }
}

pub open spec fn doc_translation_in(doc: TenantDocEntry, locale: Seq<char>) -> Option<DocTranslation> {
    translation_for(doc.i18n@, locale)
}

/// The doc with its title, file name, path and source in `locale`.
pub fn apply_doc_locale(doc: TenantDocEntry, locale: &str) -> (r: TenantDocEntry)
    ensures
        r.schema == doc.schema,
        r.id == doc.id,
        r.i18n == doc.i18n,
        match doc_translation_in(doc, locale@) {
            Some(t) => {
                &&& r.title == or_keep(t.title, doc.title)
                &&& r.download_file_name == or_keep(t.download_file_name, doc.download_file_name)
                &&& r.default_relative_path == or_keep(
                    t.default_relative_path,
                    doc.default_relative_path,
                )
                &&& r.source == or_keep(t.source, doc.source)
            },
            None => {
                &&& r.title == doc.title
                &&& r.download_file_name == doc.download_file_name
                &&& r.default_relative_path == doc.default_relative_path
                &&& r.source == doc.source
            },
        },
{
    let TenantDocEntry {
        schema,
        id,
        title,
        source,
        download_file_name,
        default_relative_path,
        i18n,
    } = doc;
    let mut title = title;
    let mut source = source;
    let mut download_file_name = download_file_name;
    let mut default_relative_path = default_relative_path;
    match resolve_translation(&i18n, locale) {
        Some(t) => {
            if let Some(x) = &t.title {
                title = x.clone();
            }
            if let Some(x) = &t.download_file_name {
                download_file_name = x.clone();
            }
            if let Some(x) = &t.default_relative_path {
                default_relative_path = x.clone();
            }
            if let Some(x) = &t.source {
                source = x.copy();
            }
        },
        None => {},
    }
    TenantDocEntry { schema, id, title, source, download_file_name, default_relative_path, i18n }
}

/// One doc of a doc manifest that lists several.
#[derive(Debug)]
pub struct RemoteDocManifestEntry {
    pub title: String,
    pub source: DocSource,
    pub download_file_name: String,
    pub default_relative_path: String,
    pub i18n: KeyedMap<DocTranslation>,
}

/// A doc manifest fetched by reference: either one doc in its own fields,
/// or a list under `docs`, never both.
#[derive(Debug)]
pub struct RemoteDocManifest {
    pub schema: Option<String>,
    pub schema_version: Option<String>,
    pub id: String,
    pub title: Option<String>,
    pub source: Option<DocSource>,
    pub download_file_name: Option<String>,
    pub default_relative_path: Option<String>,
    pub docs: Vec<RemoteDocManifestEntry>,
    pub i18n: KeyedMap<DocTranslation>,
}

/// A field a single-doc manifest must have.
#[derive(Clone, Copy, Debug, PartialEq, Eq)]
pub enum DocField {
    Title,
    Source,
    DownloadFileName,
    DefaultRelativePath,
}

/// Why a tenant manifest, or one of its entries, is refused.
#[derive(Debug, PartialEq, Eq)]
pub enum TenantError {
    /// The manifest is another tenant's.
    TenantMismatch { tenant: String, manifest_tenant: String },
    /// A tool named by id alone.
    BareToolId(String),
    /// A doc named by id alone.
    BareDocId(String),
    /// A referenced tool manifest holds another tool.
    ToolManifestMismatch { referenced: String, found: String },
    /// A referenced doc manifest holds another doc.
    DocManifestMismatch { referenced: String, found: String },
    /// A doc manifest with both single-doc fields and a `docs` list.
    MixedDocManifest(String),
    /// A single-doc manifest without one of its fields.
    MissingDocField { id: String, field: DocField },
    /// A tool installed some other way than from a release binary.
    UnsupportedInstallType { id: String, install_type: String },
    /// A doc fetched some other way than by download.
    UnsupportedSourceType { id: String, source_type: String },
    /// A download, URL or path check failed.
    Install(InstallError),
    /// Tools are not built for this operating system.
    UnsupportedOs(String),
    /// Tools are not built for this architecture.
    UnsupportedArch(String),
}

/// The doc a listed entry becomes: its id is the manifest's id and the entry's file name.
pub open spec fn listed_doc_matches(
    manifest_id: Seq<char>,
    schema: Option<String>,
    e: RemoteDocManifestEntry,
    d: TenantDocEntry,
) -> bool {
    &&& d.schema == schema
    &&& d.id@ == manifest_id + ":"@ + e.download_file_name@
    &&& d.title == e.title
    &&& d.source == e.source
    &&& d.download_file_name == e.download_file_name
    &&& d.default_relative_path == e.default_relative_path
    &&& d.i18n == e.i18n
}

pub open spec fn has_single_doc_fields(m: RemoteDocManifest) -> bool {
    m.title is Some || m.source is Some || m.download_file_name is Some
        || m.default_relative_path is Some
}

/// The first single-doc field the manifest lacks.
pub open spec fn first_missing_field(m: RemoteDocManifest) -> Option<DocField> {
    if m.title is None {
        Some(DocField::Title)
    } else if m.source is None {
        Some(DocField::Source)
    } else if m.download_file_name is None {
        Some(DocField::DownloadFileName)
    } else if m.default_relative_path is None {
        Some(DocField::DefaultRelativePath)
    } else {
        None
    }
}

/// What a doc manifest stands for: an error when it mixes both forms or
/// lacks a field, else its listed docs, else its single doc.
pub open spec fn entries_of(m: RemoteDocManifest, r: Result<Vec<TenantDocEntry>, TenantError>) -> bool {
    &&& has_single_doc_fields(m) && m.docs@.len() > 0 ==> (r matches Err(
        TenantError::MixedDocManifest(id),
    ) && id == m.id)
    &&& !has_single_doc_fields(m) && m.docs@.len() > 0 ==> (r matches Ok(v) && v@.len()
        == m.docs@.len() && forall|i: int|
        0 <= i < v@.len() ==> listed_doc_matches(m.id@, m.schema, #[trigger] m.docs@[i], v@[i]))
    &&& m.docs@.len() == 0 && first_missing_field(m) is Some ==> (r matches Err(
        TenantError::MissingDocField { id, field },
    ) && id == m.id && field == first_missing_field(m)->0)
    &&& m.docs@.len() == 0 && first_missing_field(m) is None ==> (r matches Ok(v) && v@.len() == 1
        && v@[0].schema == m.schema && v@[0].id == m.id && v@[0].title == m.title->0
        && v@[0].source == m.source->0 && v@[0].download_file_name == m.download_file_name->0
        && v@[0].default_relative_path == m.default_relative_path->0 && v@[0].i18n == m.i18n)
}

impl RemoteDocManifest {
    /// The docs the manifest stands for.
    pub fn into_entries(self) -> (r: Result<Vec<TenantDocEntry>, TenantError>)
        ensures
            entries_of(self, r),
    {
        let ghost orig = self;
        let RemoteDocManifest {
            schema,
            schema_version: _,
            id,
            title,
            source,
            download_file_name,
            default_relative_path,
            docs,
            i18n,
        } = self;
        let single = title.is_some() || source.is_some() || download_file_name.is_some()
            || default_relative_path.is_some();
        if single && docs.len() > 0 {
            return Err(TenantError::MixedDocManifest(id));
        }
        if docs.len() > 0 {
            let mut rest = docs;
            let mut out: Vec<TenantDocEntry> = Vec::new();
            let ghost all = orig.docs@;
            while rest.len() > 0
                invariant
                    all == orig.docs@,
                    id == orig.id,
                    schema == orig.schema,
                    out@.len() + rest@.len() == all.len(),
                    rest@ == all.skip(out@.len() as int),
                    forall|i: int|
                        0 <= i < out@.len() ==> listed_doc_matches(
                            id@,
                            schema,
                            #[trigger] all[i],
                            out@[i],
                        ),
                decreases rest@.len(),
            {
                let ghost k = out@.len() as int;
                let e = rest.remove(0);
                assert(e == all[k]);
                assert(rest@ =~= all.skip(k + 1));
                let RemoteDocManifestEntry {
                    title: et,
                    source: es,
                    download_file_name: ef,
                    default_relative_path: ep,
                    i18n: ei,
                } = e;
                let doc_id = concat3(id.as_str(), ":", ef.as_str());
                out.push(
                    TenantDocEntry {
                        schema: copy_opt(&schema),
                        id: doc_id,
                        title: et,
                        source: es,
                        download_file_name: ef,
                        default_relative_path: ep,
                        i18n: ei,
                    },
                );
            }
            return Ok(out);
        }
        let title = match title {
            Some(t) => t,
            None => return Err(TenantError::MissingDocField { id, field: DocField::Title }),
        };
        let source = match source {
            Some(s) => s,
            None => return Err(TenantError::MissingDocField { id, field: DocField::Source }),
        };
        let download_file_name = match download_file_name {
            Some(s) => s,
            None => return Err(
                TenantError::MissingDocField { id, field: DocField::DownloadFileName },
            ),
        };
        let default_relative_path = match default_relative_path {
            Some(s) => s,
            None => return Err(
                TenantError::MissingDocField { id, field: DocField::DefaultRelativePath },
            ),
        };
        let mut out: Vec<TenantDocEntry> = Vec::new();
        out.push(
            TenantDocEntry {
                schema,
                id,
                title,
                source,
                download_file_name,
                default_relative_path,
                i18n,
            },
        );
        Ok(out)
    }
}

/// A tool given by id, binary name and targets only.
#[derive(Debug)]
pub struct SimpleTenantToolEntry {
    pub id: String,
    pub binary_name: Option<String>,
    pub targets: Vec<ReleaseTarget>,
}

/// A doc given by URL and file name only.
#[derive(Debug)]
pub struct SimpleTenantDocEntry {
    pub url: String,
    pub file_name: String,
}

/// An entry kept in a manifest of its own, fetched from `url`.
#[derive(Debug, PartialEq, Eq)]
pub struct RemoteManifestRef {
    pub id: String,
    pub url: String,
}

/// The forms a tenant manifest may give a tool in.
#[derive(Debug)]
pub enum TenantToolDescriptor {
    Expanded(TenantToolEntry),
    Simple(SimpleTenantToolEntry),
    Ref(RemoteManifestRef),
    Id(String),
}

/// The forms a tenant manifest may give a doc in.
#[derive(Debug)]
pub enum TenantDocDescriptor {
    Expanded(TenantDocEntry),
    Simple(SimpleTenantDocEntry),
    Ref(RemoteManifestRef),
    Id(String),
}

/// What a tenant installs. Store assets are only named: other tools install them.
#[derive(Debug)]
pub struct TenantInstallManifest {
    pub schema: Option<String>,
    pub schema_version: String,
    pub tenant: String,
    pub tools: Vec<TenantToolDescriptor>,
    pub docs: Vec<TenantDocDescriptor>,
    pub store_assets: Vec<String>,
}

/// How `enforce_github_url` refuses `url`.
pub open spec fn github_url_refusal(e: InstallError, url: Seq<char>) -> bool {
    match url_parts(url) {
        None => e matches InstallError::InvalidUrl(u) && u@ == url,
        Some((None, _)) => e matches InstallError::NoHost(u) && u@ == url,
        Some((Some(h), _)) => !github_host(h) && (e matches InstallError::NotGithub(x) && x@ == h),
    }
}

/// `url` is on a host downloads are accepted from.
pub open spec fn github_url_ok(url: Seq<char>) -> bool {
    match url_parts(url) {
        Some((Some(h), _)) => github_host(h),
        _ => false,
    }
}

/// A tool whose full form is at hand, or the manifest to fetch it from.
#[derive(Debug)]
pub enum ToolResolution {
    Ready(TenantToolEntry),
    Fetch(RemoteManifestRef),
}

/// The full form of a simple tool entry: a release binary named after the
/// tool unless a binary name is given.
pub open spec fn expanded_simple_tool(s: SimpleTenantToolEntry, t: TenantToolEntry) -> bool {
    &&& t.schema is None
    &&& t.id == s.id
    &&& t.name == s.id
    &&& t.description is None
    &&& t.install.install_type@ == "release-binary"@
    &&& t.install.binary_name == or_keep(s.binary_name, s.id)
    &&& t.install.targets == s.targets
    &&& t.docs@.len() == 0
    &&& t.i18n@ == Map::<Seq<char>, ToolTranslation>::empty()
}

/// A tool entry brought toward its full form.
pub fn resolve_tool(tool: TenantToolDescriptor) -> (r: Result<ToolResolution, TenantError>)
    ensures
        match tool {
            TenantToolDescriptor::Expanded(e) => r == Ok::<ToolResolution, TenantError>(
                ToolResolution::Ready(e),
            ),
            TenantToolDescriptor::Simple(s) => r matches Ok(ToolResolution::Ready(t))
                && expanded_simple_tool(s, t),
            TenantToolDescriptor::Ref(reference) => if github_url_ok(reference.url@) {
                r == Ok::<ToolResolution, TenantError>(ToolResolution::Fetch(reference))
            } else {
                r matches Err(TenantError::Install(e)) && github_url_refusal(e, reference.url@)
            },
            TenantToolDescriptor::Id(id) => r == Err::<ToolResolution, TenantError>(
                TenantError::BareToolId(id),
            ),
        },
{
    match tool {
        TenantToolDescriptor::Expanded(e) => Ok(ToolResolution::Ready(e)),
        TenantToolDescriptor::Simple(s) => {
            let SimpleTenantToolEntry { id, binary_name, targets } = s;
            let binary_name = match binary_name {
                Some(b) => b,
                None => id.clone(),
            };
            Ok(
                ToolResolution::Ready(
                    TenantToolEntry {
                        schema: None,
                        id: id.clone(),
                        name: id,
                        description: None,
                        install: ToolInstall {
                            install_type: owned("release-binary"),
                            binary_name,
                            targets,
                        },
                        docs: Vec::new(),
                        i18n: KeyedMap::new(),
                    },
                ),
            )
        },
        TenantToolDescriptor::Ref(reference) => match enforce_github_url(reference.url.as_str()) {
            Ok(()) => Ok(ToolResolution::Fetch(reference)),
            Err(e) => Err(TenantError::Install(e)),
        },
        TenantToolDescriptor::Id(id) => Err(TenantError::BareToolId(id)),
    }
}

/// A fetched tool manifest is taken only when it holds the referenced tool.
pub fn accept_tool_manifest(reference: &RemoteManifestRef, manifest: TenantToolEntry) -> (r: Result<
    TenantToolEntry,
    TenantError,
>)
    ensures
        manifest.id@ == reference.id@ ==> r == Ok::<TenantToolEntry, TenantError>(manifest),
        manifest.id@ != reference.id@ ==> r == Err::<TenantToolEntry, TenantError>(
            TenantError::ToolManifestMismatch { referenced: reference.id, found: manifest.id },
        ),
{
    if str_eq(manifest.id.as_str(), reference.id.as_str()) {
        Ok(manifest)
    } else {
        Err(
            TenantError::ToolManifestMismatch {
                referenced: reference.id.clone(),
                found: manifest.id,
            },
        )
    }
}

/// Docs whose full form is at hand, or the manifest to fetch them from.
#[derive(Debug)]
pub enum DocResolution {
    Ready(Vec<TenantDocEntry>),
    Fetch(RemoteManifestRef),
}

/// The full form of a simple doc entry: downloaded under its file name.
pub open spec fn expanded_simple_doc(s: SimpleTenantDocEntry, d: TenantDocEntry) -> bool {
    &&& d.schema is None
    &&& d.id == s.file_name
    &&& d.title == s.file_name
    &&& d.source.source_type@ == "download"@
    &&& d.source.url == s.url
    &&& d.download_file_name == s.file_name
    &&& d.default_relative_path == s.file_name
    &&& d.i18n@ == Map::<Seq<char>, DocTranslation>::empty()
}

/// A doc entry brought toward its full form.
pub fn resolve_doc(doc: TenantDocDescriptor) -> (r: Result<DocResolution, TenantError>)
    ensures
        match doc {
            TenantDocDescriptor::Expanded(e) => r matches Ok(DocResolution::Ready(v)) && v@
                == seq![e],
            TenantDocDescriptor::Simple(s) => r matches Ok(DocResolution::Ready(v)) && v@.len()
                == 1 && expanded_simple_doc(s, v@[0]),
            TenantDocDescriptor::Ref(reference) => if github_url_ok(reference.url@) {
                r == Ok::<DocResolution, TenantError>(DocResolution::Fetch(reference))
            } else {
                r matches Err(TenantError::Install(e)) && github_url_refusal(e, reference.url@)
            },
            TenantDocDescriptor::Id(id) => r == Err::<DocResolution, TenantError>(
                TenantError::BareDocId(id),
            ),
        },
{
    match doc {
        TenantDocDescriptor::Expanded(e) => {
            let mut v: Vec<TenantDocEntry> = Vec::new();
            v.push(e);
            Ok(DocResolution::Ready(v))
        },
        TenantDocDescriptor::Simple(s) => {
            let SimpleTenantDocEntry { url, file_name } = s;
            let mut v: Vec<TenantDocEntry> = Vec::new();
            v.push(
                TenantDocEntry {
                    schema: None,
                    id: file_name.clone(),
                    title: file_name.clone(),
                    source: DocSource { source_type: owned("download"), url },
                    download_file_name: file_name.clone(),
                    default_relative_path: file_name,
                    i18n: KeyedMap::new(),
                },
            );
            Ok(DocResolution::Ready(v))
        },
        TenantDocDescriptor::Ref(reference) => match enforce_github_url(reference.url.as_str()) {
            Ok(()) => Ok(DocResolution::Fetch(reference)),
            Err(e) => Err(TenantError::Install(e)),
        },
        TenantDocDescriptor::Id(id) => Err(TenantError::BareDocId(id)),
    }
}

/// A fetched doc manifest is taken only when it holds the referenced doc;
/// it then stands for the docs it lists.
pub fn accept_doc_manifest(reference: &RemoteManifestRef, manifest: RemoteDocManifest) -> (r: Result<
    Vec<TenantDocEntry>,
    TenantError,
>)
    ensures
        manifest.id@ != reference.id@ ==> r == Err::<Vec<TenantDocEntry>, TenantError>(
            TenantError::DocManifestMismatch { referenced: reference.id, found: manifest.id },
        ),
        manifest.id@ == reference.id@ ==> entries_of(manifest, r),
{
    if !str_eq(manifest.id.as_str(), reference.id.as_str()) {
        return Err(
            TenantError::DocManifestMismatch {
                referenced: reference.id.clone(),
                found: manifest.id,
            },
        );
    }
    manifest.into_entries()
}

/// The manifest must be the requested tenant's.
pub fn check_manifest_tenant(manifest_tenant: &str, tenant: &str) -> (r: Result<(), TenantError>)
    ensures
        manifest_tenant@ == tenant@ ==> r is Ok,
        manifest_tenant@ != tenant@ ==> (r matches Err(
            TenantError::TenantMismatch { tenant: t, manifest_tenant: m },
        ) && t@ == tenant@ && m@ == manifest_tenant@),
{
    if str_eq(manifest_tenant, tenant) {
        Ok(())
    } else {
        Err(TenantError::TenantMismatch { tenant: owned(tenant), manifest_tenant: owned(manifest_tenant) })
    }
}

/// How a downloaded tool is unpacked.
#[derive(Clone, Copy, Debug, PartialEq, Eq)]
pub enum ArchiveKind {
    /// A gzip-compressed tar archive (`.tar.gz`, `.tgz`).
    TarGz,
    /// A zip archive.
    Zip,
    /// The binary itself.
    Raw,
}

pub open spec fn archive_kind_spec(url: Seq<char>) -> ArchiveKind {
    if has_suffix(url, ".tar.gz"@) || has_suffix(url, ".tgz"@) {
        ArchiveKind::TarGz
    } else if has_suffix(url, ".zip"@) {
        ArchiveKind::Zip
    } else {
        ArchiveKind::Raw
    }
}

pub fn archive_kind(url: &str) -> (r: ArchiveKind)
    ensures
        r == archive_kind_spec(url@),
{
    if ends_with(url, ".tar.gz") || ends_with(url, ".tgz") {
        ArchiveKind::TarGz
    } else if ends_with(url, ".zip") {
        ArchiveKind::Zip
    } else {
        ArchiveKind::Raw
    }
}

/// The binary's file name on the platform (`.exe` on Windows).
pub open spec fn platform_file_name(name: Seq<char>, windows: bool) -> Seq<char> {
    if windows && !has_suffix(name, ".exe"@) {
        name + ".exe"@
    } else {
        name
    }
}

/// A target is built for the platform.
pub open spec fn target_fits(t: ReleaseTarget, p: Platform) -> bool {
    t.os@ == p.os@ && t.arch@ == p.arch@
}

/// `i` is the first target built for the platform.
pub open spec fn first_fitting(targets: Seq<ReleaseTarget>, p: Platform, i: int) -> bool {
    &&& 0 <= i < targets.len()
    &&& target_fits(targets[i], p)
    &&& forall|j: int| 0 <= j < i ==> !target_fits(#[trigger] targets[j], p)
}

/// What installing one tool takes: the download, its checksum, the binary's
/// file name, the name the download is kept under, and how to unpack it.
#[derive(Debug, PartialEq, Eq)]
pub struct ToolInstallPlan {
    pub id: String,
    pub url: String,
    pub sha256: Option<String>,
    pub binary_name: String,
    pub staged_name: String,
    pub archive: ArchiveKind,
}

/// The plan for installing `tool` on `platform`: only release binaries, from
/// the first target built for the platform, on a GitHub host.
pub fn plan_tool_install(tool: TenantToolEntry, locale: &str, platform: &Platform, windows: bool) -> (r:
    Result<ToolInstallPlan, TenantError>)
    ensures
        tool.install.install_type@ != "release-binary"@ ==> r == Err::<
            ToolInstallPlan,
            TenantError,
        >(
            TenantError::UnsupportedInstallType {
                id: tool.id,
                install_type: tool.install.install_type,
            },
        ),
        tool.install.install_type@ == "release-binary"@ && (forall|j: int|
            0 <= j < tool.install.targets@.len() ==> !target_fits(
                #[trigger] tool.install.targets@[j],
                *platform,
            )) ==> (r matches Err(TenantError::Install(InstallError::NoTarget { os, arch }))
            && os@ == platform.os@ && arch@ == platform.arch@),
        tool.install.install_type@ == "release-binary"@ ==> forall|i: int|
            first_fitting(tool.install.targets@, *platform, i) ==> {
                let t = tool.install.targets@[i];
                if github_url_ok(t.url@) {
                    r matches Ok(plan) && plan.id == tool.id && plan.url == t.url && plan.sha256
                        == t.sha256 && plan.binary_name@ == platform_file_name(
                        expected_binary_spec(tool.install.binary_name@, t.url@),
                        windows,
                    ) && plan.staged_name@ == tool.id@ + "-"@ + file_name_hint_spec(t.url@)
                        && plan.archive == archive_kind_spec(t.url@)
                } else {
                    r matches Err(TenantError::Install(e)) && github_url_refusal(e, t.url@)
                }
            },
        r matches Ok(plan) ==> github_url_ok(plan.url@),
{
    let tool = apply_tool_locale(tool, locale);
    if !str_eq(tool.install.install_type.as_str(), "release-binary") {
        return Err(
            TenantError::UnsupportedInstallType {
                id: tool.id,
                install_type: tool.install.install_type,
            },
        );
    }
    let target = match select_release_target(&tool.install.targets, platform) {
        Ok(t) => t,
        Err(e) => return Err(TenantError::Install(e)),
    };
    proof {
        let k = choose|k: int|
            0 <= k < tool.install.targets@.len() && tool.install.targets@[k] == *target
                && target_fits(*target, *platform) && forall|j: int|
                0 <= j < k ==> !(#[trigger] tool.install.targets@[j].os@ == platform.os@
                    && tool.install.targets@[j].arch@ == platform.arch@);
        assert forall|i: int| first_fitting(tool.install.targets@, *platform, i) implies i == k by {
            if i < k {
                assert(!(tool.install.targets@[i].os@ == platform.os@
                    && tool.install.targets@[i].arch@ == platform.arch@));
            }
            if k < i {
                assert(!target_fits(tool.install.targets@[k], *platform));
            }
        }
    }
    match enforce_github_url(target.url.as_str()) {
        Ok(()) => {},
        Err(e) => return Err(TenantError::Install(e)),
    }
    let expected = expected_binary_name(tool.install.binary_name.as_str(), target.url.as_str());
    let binary_name = binary_filename(expected.as_str(), windows);
    let hint = file_name_hint(target.url.as_str());
    let staged_name = concat3(tool.id.as_str(), "-", hint.as_str());
    let archive = archive_kind(target.url.as_str());
    let sha256 = copy_opt(&target.sha256);
    Ok(
        ToolInstallPlan {
            id: tool.id.clone(),
            url: target.url.clone(),
            sha256,
            binary_name,
            staged_name,
            archive,
        },
    )
}

/// What installing one doc takes: the download and where under the docs
/// directory it goes.
#[derive(Debug, PartialEq, Eq)]
pub struct DocInstallPlan {
    pub id: String,
    pub url: String,
    pub relative_path: String,
}

/// The plan for installing `doc` in `locale`: only downloads, from a GitHub
/// host, to a relative path that stays within the docs directory.
pub fn plan_doc_install(doc: TenantDocEntry, locale: &str) -> (r: Result<DocInstallPlan, TenantError>)
    ensures
        ({
            let src = match doc_translation_in(doc, locale@) {
                Some(t) => or_keep(t.source, doc.source),
                None => doc.source,
            };
            let path = match doc_translation_in(doc, locale@) {
                Some(t) => or_keep(t.default_relative_path, doc.default_relative_path),
                None => doc.default_relative_path,
            };
            if src.source_type@ != "download"@ {
                r == Err::<DocInstallPlan, TenantError>(
                    TenantError::UnsupportedSourceType { id: doc.id, source_type: src.source_type },
                )
            } else if !github_url_ok(src.url@) {
                r matches Err(TenantError::Install(e)) && github_url_refusal(e, src.url@)
            } else if has_prefix(path@, "/"@) {
                r == Err::<DocInstallPlan, TenantError>(
                    TenantError::Install(InstallError::AbsolutePath),
                )
            } else if split_spec(path@, '/').contains(".."@) {
                r == Err::<DocInstallPlan, TenantError>(
                    TenantError::Install(InstallError::EscapingPath),
                )
            } else {
                r matches Ok(plan) && plan.id == doc.id && plan.url == src.url
                    && plan.relative_path@ == path@
            }
        }),
        r matches Ok(plan) ==> github_url_ok(plan.url@) && !has_prefix(plan.relative_path@, "/"@)
            && !split_spec(plan.relative_path@, '/').contains(".."@),
{
    let doc = apply_doc_locale(doc, locale);
    if !str_eq(doc.source.source_type.as_str(), "download") {
        return Err(
            TenantError::UnsupportedSourceType { id: doc.id, source_type: doc.source.source_type },
        );
    }
    match enforce_github_url(doc.source.url.as_str()) {
        Ok(()) => {},
        Err(e) => return Err(TenantError::Install(e)),
    }
    let relative_path = match sanitize_relative_path(doc.default_relative_path.as_str()) {
        Ok(p) => p,
        Err(e) => return Err(TenantError::Install(e)),
    };
    Ok(DocInstallPlan { id: doc.id, url: doc.source.url, relative_path })
}

/// The file a tenant's manifest is kept in.
pub fn tenant_manifest_file_name(tenant: &str) -> (r: String)
    ensures
        r@ == "tenant-"@ + tenant@ + ".json"@,
{
    concat3("tenant-", tenant, ".json")
}

pub open spec fn store_assets_note_text(tenant: Seq<char>, ids: Seq<Seq<char>>) -> Seq<char> {
    "note: tenant `"@ + tenant + "` declares "@ + decimal_text(ids.len())
        + " store asset(s); these are installed by `gtc install --tenant`, not here: "@ + join_spec(
        ids,
        ", "@,
    )
}

/// The note naming the store assets a tenant declares, which this install leaves to others.
pub fn store_assets_note(tenant: &str, ids: &Vec<String>) -> (r: String)
    ensures
        r@ == store_assets_note_text(tenant@, ids.deep_view()),
{
    let count = u64_text(ids.len() as u64);
    let head = concat3("note: tenant `", tenant, "` declares ");
    let mid = concat3(
        head.as_str(),
        count.as_str(),
        " store asset(s); these are installed by `gtc install --tenant`, not here: ",
    );
    let listed = join(ids, ", ");
    concat(mid.as_str(), listed.as_str())
}

/// Where an install puts things.
#[derive(Debug, PartialEq, Eq)]
pub struct InstallLayout {
    pub install_root: String,
    pub bin_dir: String,
    pub docs_dir: String,
    pub downloads_dir: String,
    pub manifests_dir: String,
    pub state_path: String,
}

pub open spec fn install_root_spec(home: Seq<char>) -> Seq<char> {
    join_path(join_path(home, ".greentic"@), "install"@)
}

/// Binaries go to `$CARGO_HOME/bin`, else `~/.cargo/bin`.
pub open spec fn default_bin_dir_spec(home: Seq<char>, cargo_home: Option<Seq<char>>) -> Seq<char> {
    match cargo_home {
        Some(c) => join_path(c, "bin"@),
        None => join_path(join_path(home, ".cargo"@), "bin"@),
    }
}

/// The install layout under `home`: `~/.greentic/install` with its docs,
/// downloads, manifests and state file; binaries where asked, else cargo's.
pub fn install_layout(
    home: &str,
    cargo_home: Option<&str>,
    bin_dir: Option<&str>,
    docs_dir: Option<&str>,
) -> (r: InstallLayout)
    ensures
        r.install_root@ == install_root_spec(home@),
        r.bin_dir@ == (match bin_dir {
            Some(b) => b@,
            None => default_bin_dir_spec(home@, cargo_home.deep_view()),
        }),
        r.docs_dir@ == (match docs_dir {
            Some(d) => d@,
            None => join_path(install_root_spec(home@), "docs"@),
        }),
        r.downloads_dir@ == join_path(install_root_spec(home@), "downloads"@),
        r.manifests_dir@ == join_path(install_root_spec(home@), "manifests"@),
        r.state_path@ == join_path(install_root_spec(home@), "state.json"@),
{
    let greentic = path_join(home, ".greentic");
    let install_root = path_join(greentic.as_str(), "install");
    let bin_dir = match bin_dir {
        Some(b) => owned(b),
        None => match cargo_home {
            Some(c) => path_join(c, "bin"),
            None => {
                let cargo = path_join(home, ".cargo");
                path_join(cargo.as_str(), "bin")
            },
        },
    };
    let docs_dir = match docs_dir {
        Some(d) => owned(d),
        None => path_join(install_root.as_str(), "docs"),
    };
    let downloads_dir = path_join(install_root.as_str(), "downloads");
    let manifests_dir = path_join(install_root.as_str(), "manifests");
    let state_path = path_join(install_root.as_str(), "state.json");
    InstallLayout { install_root, bin_dir, docs_dir, downloads_dir, manifests_dir, state_path }
}

/// The platform tools are installed for, from the running system's names:
/// Linux, Windows or macOS on x86-64 or AArch64.
pub fn platform_for(os: &str, arch: &str) -> (r: Result<Platform, TenantError>)
    ensures
        !(os@ == "linux"@ || os@ == "windows"@ || os@ == "macos"@) ==> (r matches Err(
            TenantError::UnsupportedOs(o),
        ) && o@ == os@),
        (os@ == "linux"@ || os@ == "windows"@ || os@ == "macos"@) && !(arch@ == "x86_64"@ || arch@
            == "aarch64"@) ==> (r matches Err(TenantError::UnsupportedArch(a)) && a@ == arch@),
        (os@ == "linux"@ || os@ == "windows"@ || os@ == "macos"@) && (arch@ == "x86_64"@ || arch@
            == "aarch64"@) ==> (r matches Ok(p) && p.os@ == os@ && p.arch@ == arch@),
{
    if !(str_eq(os, "linux") || str_eq(os, "windows") || str_eq(os, "macos")) {
        return Err(TenantError::UnsupportedOs(owned(os)));
    }
    if !(str_eq(arch, "x86_64") || str_eq(arch, "aarch64")) {
        return Err(TenantError::UnsupportedArch(owned(arch)));
    }
    Ok(Platform { os: owned(os), arch: owned(arch) })
}

} // verus!
