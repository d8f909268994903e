//! The developer configuration: which file is read, and the distributor
//! profiles it declares across its current and legacy layouts.
use vstd::prelude::*;

use crate::strmap::{assoc_map, KeyedMap, StrMap};
use crate::text::{concat, ends_with, has_suffix, owned, str_eq};

verus! {

/// The whole configuration file.
#[derive(Debug)]
pub struct GreenticConfig {
    pub tools: ToolsSection,
    pub defaults: DefaultsSection,
    pub distributor: DistributorSection,
    /// Root-level `[profiles.*]` tables, read for backward compatibility.
    pub legacy_distributor_profiles: ProfileMap,
}

#[derive(Clone, Debug)]
pub struct ToolsSection {
    /// `[tools.greentic-component]`.
    pub greentic_component: ToolEntry,
}

#[derive(Clone, Debug)]
pub struct ToolEntry {
    pub path: Option<String>,
}

#[derive(Clone, Debug)]
pub struct DefaultsSection {
    pub component: ComponentDefaults,
}

#[derive(Clone, Debug)]
pub struct ComponentDefaults {
    pub org: Option<String>,
    pub template: Option<String>,
}

/// Distributor profiles by name.
pub type ProfileMap = KeyedMap<DistributorProfileConfig>;

#[derive(Debug)]
pub struct DistributorSection {
    /// The default profile, by name or inline.
    pub default_profile: Option<DefaultProfileSelection>,
    /// `[distributor.profiles.*]`.
    pub profiles: ProfileMap,
    /// `[distributor.<name>]` tables, read for backward compatibility.
    pub legacy_profiles: ProfileMap,
}

#[derive(Debug)]
pub enum DefaultProfileSelection {
    Name(String),
    Inline(DistributorProfileConfig),
}

#[derive(Debug)]
pub struct DistributorProfileConfig {
    pub name: Option<String>,
    /// Preferred over `url`.
    pub base_url: Option<String>,
    /// Deprecated alias of `base_url`.
    pub url: Option<String>,
    /// API token; `env:VAR` names an environment variable.
    pub token: Option<String>,
    pub tenant_id: Option<String>,
    pub environment_id: Option<String>,
    pub headers: Option<StrMap>,
}

/// What a profile says, field by field.
pub struct ProfileView {
    pub name: Option<Seq<char>>,
    pub base_url: Option<Seq<char>>,
    pub url: Option<Seq<char>>,
    pub token: Option<Seq<char>>,
    pub tenant_id: Option<Seq<char>>,
    pub environment_id: Option<Seq<char>>,
    pub headers: Option<Map<Seq<char>, Seq<char>>>,
}

pub open spec fn opt_view(o: Option<String>) -> Option<Seq<char>> {
    match o {
        Some(s) => Some(s@),
        None => None,
    }
}

impl View for DistributorProfileConfig {
    type V = ProfileView;

    open spec fn view(&self) -> ProfileView {
        ProfileView {
            name: opt_view(self.name),
            base_url: opt_view(self.base_url),
            url: opt_view(self.url),
            token: opt_view(self.token),
            tenant_id: opt_view(self.tenant_id),
            environment_id: opt_view(self.environment_id),
            headers: match self.headers {
                Some(h) => Some(h@),
                None => None,
            },
        }
    }
}

fn copy_text(o: &Option<String>) -> (r: Option<String>)
    ensures
        opt_view(r) == opt_view(*o),
{
    match o {
        Some(s) => Some(s.clone()),
        None => None,
    }
}

impl DistributorProfileConfig {
    /// An independent copy saying the same.
    pub fn copy(&self) -> (r: Self)
        ensures
            r@ == self@,
    {
        DistributorProfileConfig {
            name: copy_text(&self.name),
            base_url: copy_text(&self.base_url),
            url: copy_text(&self.url),
            token: copy_text(&self.token),
            tenant_id: copy_text(&self.tenant_id),
            environment_id: copy_text(&self.environment_id),
            headers: match &self.headers {
                Some(h) => Some(h.copy()),
                None => None,
            },
        }
    }
}

/// Adds every profile of `from` to `into`, a profile of `from` replacing one of the same name.
fn add_profiles(into: &mut ProfileMap, from: &ProfileMap)
    ensures
        final(into)@ == old(into)@.union_prefer_right(from@),
{
    let ghost base = into@;
    let entries = from.entries();
    let mut i: usize = 0;
    assert(assoc_map(entries@.take(0)) =~= Map::<Seq<char>, ProfileView>::empty());
    assert(base.union_prefer_right(Map::<Seq<char>, ProfileView>::empty()) =~= base);
    while i < entries.len()
        invariant
            i <= entries@.len(),
            into@ == base.union_prefer_right(assoc_map(entries@.take(i as int))),
        decreases entries@.len() - i,
    {
        let ghost next = entries@.take(i + 1);
        assert(next.drop_last() =~= entries@.take(i as int));
        let (name, cfg) = &entries[i];
        let ghost m = assoc_map(entries@.take(i as int));
        into.insert(name.clone(), cfg.copy());
        assert(base.union_prefer_right(m.insert(name@, cfg@)) =~= base.union_prefer_right(m).insert(
            name@,
            cfg@,
        ));
        i = i + 1;
    }
    assert(entries@.take(entries@.len() as int) =~= entries@);
}

impl DistributorSection {
    /// `[distributor.profiles.*]` together with the legacy `[distributor.<name>]`
    /// tables; a profile under `profiles` wins over a legacy one of the same name.
    pub fn merged_profiles(&self) -> (r: ProfileMap)
        ensures
            r@ == self.legacy_profiles@.union_prefer_right(self.profiles@),
    {
        let mut merged: ProfileMap = KeyedMap::new();
        add_profiles(&mut merged, &self.legacy_profiles);
        add_profiles(&mut merged, &self.profiles);
        assert(Map::<Seq<char>, ProfileView>::empty().union_prefer_right(self.legacy_profiles@)
            =~= self.legacy_profiles@);
        merged
    }
}

/// The distributor profiles a configuration declares.
pub open spec fn declared_profiles(c: GreenticConfig) -> Map<Seq<char>, ProfileView> {
    let merged = c.distributor.legacy_profiles@.union_prefer_right(c.distributor.profiles@);
    if merged == Map::<Seq<char>, ProfileView>::empty() {
        c.legacy_distributor_profiles@
    } else {
        merged
    }
}

impl GreenticConfig {
    /// The distributor section's profiles; only when it declares none are the
    /// root-level `[profiles.*]` tables used.
    pub fn distributor_profiles(&self) -> (r: ProfileMap)
        ensures
            r@ == declared_profiles(*self),
    {
        let mut merged = self.distributor.merged_profiles();
        if merged.is_empty() && !self.legacy_distributor_profiles.is_empty() {
            add_profiles(&mut merged, &self.legacy_distributor_profiles);
            assert(Map::<Seq<char>, ProfileView>::empty().union_prefer_right(
                self.legacy_distributor_profiles@,
            ) =~= self.legacy_distributor_profiles@);
        }
        merged
    }
}

/// Where the configuration path came from when it was not discovered.
#[derive(Clone, Copy, Debug)]
pub enum ConfigSource {
    /// `--config`.
    Arg,
    /// The environment variable of this name.
    Env(&'static str),
}

/// The configuration file chosen, and every path considered.
#[derive(Clone, Debug)]
pub struct ConfigResolution {
    pub selected: Option<String>,
    pub attempted: Vec<String>,
    pub forced: Option<ConfigSource>,
}

/// A loaded configuration and where it came from.
#[derive(Debug)]
pub struct LoadedGreenticConfig {
    pub config: GreenticConfig,
    pub loaded_from: Option<String>,
    pub attempted_paths: Vec<String>,
}

/// The environment variables that force a configuration file, in precedence order.
pub struct ConfigEnv {
    pub greentic_dev_config_file: Option<String>,
    pub greentic_config_file: Option<String>,
    pub greentic_config: Option<String>,
}

pub open spec fn set_nonempty(v: Option<String>) -> bool {
    v matches Some(s) && s@.len() > 0
}

/// `r` selects `path`, attempting only it, forced by the argument (`env_var`
/// `None`) or by the environment variable named `env_var`.
pub open spec fn forced_to(r: Option<ConfigResolution>, path: Seq<char>, env_var: Option<Seq<char>>) -> bool {
    match r {
        Some(res) => {
            &&& opt_view(res.selected) == Some(path)
            &&& res.attempted.deep_view() == seq![path]
            &&& match (res.forced, env_var) {
                (Some(ConfigSource::Arg), None) => true,
                (Some(ConfigSource::Env(v)), Some(n)) => v@ == n,
                _ => false,
            }
        },
        None => false,
    }
}

/// A forced configuration path: the argument, else the first of the
/// environment variables that is set and not empty.
pub fn forced_config_path(path_override: Option<&str>, env: &ConfigEnv) -> (r: Option<ConfigResolution>)
    ensures
        match path_override {
            Some(p) => forced_to(r, p@, None),
            None => if set_nonempty(env.greentic_dev_config_file) {
                forced_to(r, env.greentic_dev_config_file->0@, Some("GREENTIC_DEV_CONFIG_FILE"@))
            } else if set_nonempty(env.greentic_config_file) {
                forced_to(r, env.greentic_config_file->0@, Some("GREENTIC_CONFIG_FILE"@))
            } else if set_nonempty(env.greentic_config) {
                forced_to(r, env.greentic_config->0@, Some("GREENTIC_CONFIG"@))
            } else {
                r is None
            },
        },
{
    match path_override {
        Some(p) => {
            let mut attempted: Vec<String> = Vec::new();
            attempted.push(owned(p));
            assert(attempted.deep_view() =~= seq![p@]);
            return Some(
                ConfigResolution {
                    selected: Some(owned(p)),
                    attempted,
                    forced: Some(ConfigSource::Arg),
                },
            );
        },
        None => {},
    }
    if let Some(r) = forced_by_env(&env.greentic_dev_config_file, "GREENTIC_DEV_CONFIG_FILE") {
        return Some(r);
    }
    if let Some(r) = forced_by_env(&env.greentic_config_file, "GREENTIC_CONFIG_FILE") {
        return Some(r);
    }
    forced_by_env(&env.greentic_config, "GREENTIC_CONFIG")
}

fn forced_by_env(value: &Option<String>, var: &'static str) -> (r: Option<ConfigResolution>)
    ensures
        set_nonempty(*value) ==> forced_to(r, value->0@, Some(var@)),
        !set_nonempty(*value) ==> r is None,
{
    match value {
        Some(v) => {
            if v.unicode_len() == 0 {
                return None;
            }
            let mut attempted: Vec<String> = Vec::new();
            attempted.push(v.clone());
            assert(attempted.deep_view() =~= seq![v@]);
            Some(
                ConfigResolution {
                    selected: Some(v.clone()),
                    attempted,
                    forced: Some(ConfigSource::Env(var)),
                },
            )
        },
        None => None,
    }
}

/// `base` joined with the relative `part`, as a path.
pub open spec fn join_path(base: Seq<char>, part: Seq<char>) -> Seq<char> {
    if base.len() == 0 || has_suffix(base, "/"@) {
        base + part
    } else {
        base + "/"@ + part
    }
}

pub fn path_join(base: &str, part: &str) -> (r: String)
    ensures
        r@ == join_path(base@, part@),
{
    if base.unicode_len() == 0 || ends_with(base, "/") {
        concat(base, part)
    } else {
        let with_sep = concat(base, "/");
        concat(with_sep.as_str(), part)
    }
}

/// Appends `path` unless it is already there.
pub fn push_unique(paths: &mut Vec<String>, path: String)
    ensures
        if old(paths).deep_view().contains(path@) {
            final(paths).deep_view() == old(paths).deep_view()
        } else {
            final(paths).deep_view() == old(paths).deep_view().push(path@)
        },
{
    if !crate::ordered::contains_str(paths, path.as_str()) {
        let ghost before = paths.deep_view();
        paths.push(path);
        assert(paths.deep_view() =~= before.push(path@));
    }
}

pub open spec fn push_unique_spec(s: Seq<Seq<char>>, p: Seq<char>) -> Seq<Seq<char>> {
    if s.contains(p) {
        s
    } else {
        s.push(p)
    }
}

/// The discovered configuration files, in search order: the XDG (or platform)
/// configuration directory, then `~/.config/greentic-dev`, then `~/.greentic`.
pub open spec fn candidates_spec(config_home: Option<Seq<char>>, home: Option<Seq<char>>) -> Seq<Seq<char>> {
    let first: Seq<Seq<char>> = match config_home {
        Some(dir) => seq![join_path(join_path(dir, "greentic-dev"@), "config.toml"@)],
        None => Seq::empty(),
    };
    match home {
        Some(h) => push_unique_spec(
            push_unique_spec(
                first,
                join_path(join_path(join_path(h, ".config"@), "greentic-dev"@), "config.toml"@),
            ),
            join_path(join_path(h, ".greentic"@), "config.toml"@),
        ),
        None => first,
    }
}

pub fn config_candidates(config_home: Option<&str>, home: Option<&str>) -> (r: Vec<String>)
    ensures
        r.deep_view() == candidates_spec(config_home.deep_view(), home.deep_view()),
{
    let mut candidates: Vec<String> = Vec::new();
    if let Some(dir) = config_home {
        let d = path_join(dir, "greentic-dev");
        push_unique(&mut candidates, path_join(d.as_str(), "config.toml"));
        assert(candidates.deep_view() =~= seq![join_path(join_path(dir@, "greentic-dev"@), "config.toml"@)]);
    } else {
        assert(candidates.deep_view() =~= Seq::<Seq<char>>::empty());
    }
    if let Some(h) = home {
        let a = path_join(h, ".config");
        let b = path_join(a.as_str(), "greentic-dev");
        push_unique(&mut candidates, path_join(b.as_str(), "config.toml"));
        let c = path_join(h, ".greentic");
        push_unique(&mut candidates, path_join(c.as_str(), "config.toml"));
    }
    candidates
}

/// The configuration file looked at first: the one the environment forces,
/// else the first discovered candidate (`None` when there is neither).
pub fn config_path(env: &ConfigEnv, config_home: Option<&str>, home: Option<&str>) -> (r: Option<String>)
    ensures
        ({
            let forced = if set_nonempty(env.greentic_dev_config_file) {
                Some(env.greentic_dev_config_file->0@)
            } else if set_nonempty(env.greentic_config_file) {
                Some(env.greentic_config_file->0@)
            } else if set_nonempty(env.greentic_config) {
                Some(env.greentic_config->0@)
            } else {
                None
            };
            let candidates = candidates_spec(config_home.deep_view(), home.deep_view());
            opt_view(r) == match forced {
                Some(p) => Some(p),
                None => if candidates.len() > 0 {
                    Some(candidates[0])
                } else {
                    None
                },
            }
        }),
{
    match forced_config_path(None, env) {
        Some(res) => {
            let ghost attempted = res.attempted.deep_view();
            assert(attempted.len() == 1);
            assert(res.attempted@.len() == attempted.len());
            assert(attempted[0] == res.attempted@[0]@);
            Some(res.attempted[0].clone())
        },
        None => {
            let candidates = config_candidates(config_home, home);
            if candidates.len() > 0 {
                assert(candidates.deep_view()[0] == candidates@[0]@);
                Some(candidates[0].clone())
            } else {
                None
            }
        },
    }
}

/// The resolution when nothing forces a path: the first candidate that
/// exists (`exists[i]` says whether `candidates[i]` does), all of them attempted.
pub fn discovered_config_path(candidates: Vec<String>, exists: &Vec<bool>) -> (r: ConfigResolution)
    requires
        exists@.len() == candidates@.len(),
    ensures
        r.attempted.deep_view() == candidates.deep_view(),
        r.forced is None,
        match r.selected {
            Some(s) => exists|i: int|
                0 <= i < candidates@.len() && exists@[i] && s@ == candidates@[i]@ && forall|j: int|
                    0 <= j < i ==> !#[trigger] exists@[j],
            None => forall|i: int| 0 <= i < exists@.len() ==> !#[trigger] exists@[i],
        },
{
    let mut i: usize = 0;
    while i < candidates.len()
        invariant
            i <= candidates@.len(),
            exists@.len() == candidates@.len(),
            forall|j: int| 0 <= j < i ==> !#[trigger] exists@[j],
        decreases candidates@.len() - i,
    {
        if exists[i] {
            let selected = Some(candidates[i].clone());
            return ConfigResolution { selected, attempted: candidates, forced: None };
        }
        i = i + 1;
    }
    ConfigResolution { selected: None, attempted: candidates, forced: None }
}

/// The search list as reported in an error: `(none)`, or the paths joined by `, `.
pub fn format_attempted(paths: &Vec<String>) -> (r: String)
    ensures
        r@ == (if paths@.len() == 0 {
            "(none)"@
        } else {
            crate::wizard::join_spec(paths.deep_view(), ", "@)
        }),
{
    if paths.len() == 0 {
        return "(none)".to_string();
    }
    crate::wizard::join(paths, ", ")
}

/// How a configuration path that does not exist was chosen, for the error.
pub fn missing_config_reason(forced: Option<ConfigSource>) -> (r: &'static str)
    ensures
        r@ == match forced {
            Some(ConfigSource::Arg) => "explicit config override"@,
            Some(ConfigSource::Env(var)) => var@,
            None => "config discovery"@,
        },
{
    match forced {
        Some(ConfigSource::Arg) => "explicit config override",
        Some(ConfigSource::Env(var)) => var,
        None => "config discovery",
    }
}

/// A profile under `[distributor.profiles.*]` is the one used, whatever a
/// legacy `[distributor.<name>]` table of the same name says.
pub proof fn lemma_profiles_win_over_legacy(section: DistributorSection, name: Seq<char>)
    requires
        section.profiles@.contains_key(name),
    ensures
        section.legacy_profiles@.union_prefer_right(section.profiles@).contains_key(name),
        section.legacy_profiles@.union_prefer_right(section.profiles@)[name] == section.profiles@[name],
{
}

/// Root-level `[profiles.*]` tables are used only when the distributor
/// section declares no profile at all.
pub proof fn lemma_root_profiles_only_as_fallback(c: GreenticConfig, name: Seq<char>)
    requires
        c.distributor.profiles@.contains_key(name) || c.distributor.legacy_profiles@.contains_key(name),
    ensures
        declared_profiles(c) == c.distributor.legacy_profiles@.union_prefer_right(c.distributor.profiles@),
{
    let merged = c.distributor.legacy_profiles@.union_prefer_right(c.distributor.profiles@);
    assert(merged.contains_key(name));
    assert(merged != Map::<Seq<char>, ProfileView>::empty());
}

} // verus!
