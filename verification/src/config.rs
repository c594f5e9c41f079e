//! The stage configuration (`.trappo/config.toml`): which server a stage
//! deploys to, where, from which repository, and what it links from `shared`.

use vstd::prelude::*;
use crate::text::{concat3, concat4};
use crate::toml::{TomlTable, TomlValue, lookup, sub_table, parse_toml, toml_document};

verus! {

/// What became of an attempt to read a configuration file.
#[derive(Debug, PartialEq, Eq)]
pub enum FileRead {
    /// The file was read; this is its text.
    Contents(String),
    /// The file could not be opened because it does not exist.
    NotFound,
    /// The file could not be opened for another reason.
    OpenFailed,
    /// The file was opened but reading it failed.
    ReadFailed,
}

/// The settings of one stage.
#[derive(Debug, PartialEq, Eq)]
pub struct HostConfig {
    pub host: String,
    pub deploy_path: String,
    pub keep_releases: i8,
    pub repo_url: String,
    pub link_files: Vec<String>,
    pub link_dirs: Vec<String>,
}

/// `HostConfig` with its texts as character sequences.
pub struct HostConfigView {
    pub host: Seq<char>,
    pub deploy_path: Seq<char>,
    pub keep_releases: i8,
    pub repo_url: Seq<char>,
    pub link_files: Seq<Seq<char>>,
    pub link_dirs: Seq<Seq<char>>,
}

impl View for HostConfig {
    type V = HostConfigView;

    open spec fn view(&self) -> HostConfigView {
        HostConfigView {
            host: self.host@,
            deploy_path: self.deploy_path@,
            keep_releases: self.keep_releases,
            repo_url: self.repo_url@,
            link_files: self.link_files@.map_values(|s: String| s@),
            link_dirs: self.link_dirs@.map_values(|s: String| s@),
        }
    }
}

/// Why a stage configuration could not be read.
#[derive(Debug, PartialEq, Eq)]
pub enum ConfigError {
    /// The configuration file (named here) could not be opened.
    NotFound(String),
    /// The file has no table for the stage (named here).
    BadStage(String),
    /// An entry (first field) does not hold the expected type (second field).
    BadType(String, String),
    /// A required field (named here) is missing.
    MissingField(String),
    /// Reading the file failed.
    IoError,
}

/// `ConfigError` with its texts as character sequences.
pub enum ConfigErrorView {
    NotFound(Seq<char>),
    BadStage(Seq<char>),
    BadType(Seq<char>, Seq<char>),
    MissingField(Seq<char>),
    IoError,
}

impl View for ConfigError {
    type V = ConfigErrorView;

    open spec fn view(&self) -> ConfigErrorView {
        match self {
            ConfigError::NotFound(f) => ConfigErrorView::NotFound(f@),
            ConfigError::BadStage(s) => ConfigErrorView::BadStage(s@),
            ConfigError::BadType(n, t) => ConfigErrorView::BadType(n@, t@),
            ConfigError::MissingField(n) => ConfigErrorView::MissingField(n@),
            ConfigError::IoError => ConfigErrorView::IoError,
        }
    }
}

/// The text shown for each error.
pub open spec fn config_error_message(e: ConfigErrorView) -> Seq<char> {
    match e {
        ConfigErrorView::NotFound(f) => "Config file '"@ + f + "' was not found"@,
        ConfigErrorView::BadStage(s) => "Couldn't find stage '"@ + s + "' in config file"@,
        ConfigErrorView::BadType(n, t) => "type mismatch for '"@ + n + "'. expected "@ + t,
        ConfigErrorView::MissingField(n) => "Required field '"@ + n + "' is missing from the config file"@,
        ConfigErrorView::IoError => "I/O error while reading the config file"@,
    }
}

impl ConfigError {
    /// The text shown for this error.
    pub fn message(&self) -> (r: String)
        ensures
            r@ == config_error_message(self@),
    {
        match self {
            ConfigError::NotFound(f) => concat3("Config file '", f.as_str(), "' was not found"),
            ConfigError::BadStage(s) => concat3("Couldn't find stage '", s.as_str(), "' in config file"),
            ConfigError::BadType(n, t) => concat4("type mismatch for '", n.as_str(), "'. expected ", t.as_str()),
            ConfigError::MissingField(n) => concat3("Required field '", n.as_str(), "' is missing from the config file"),
            ConfigError::IoError => String::from_str("I/O error while reading the config file"),
        }
    }
}

/// The value a stage sees for `key`: the global table's value when the
/// global table has one (global values override stage values), else the
/// stage table's.
pub open spec fn stage_value(stage: TomlTable, global: Option<TomlTable>, key: Seq<char>) -> Option<TomlValue> {
    match global {
        Some(g) => match lookup(g.entries@, key) {
            Some(v) => Some(v),
            None => lookup(stage.entries@, key),
        },
        None => lookup(stage.entries@, key),
    }
}

/// A required string field.
pub open spec fn string_field(v: Option<TomlValue>, key: Seq<char>) -> Result<Seq<char>, ConfigErrorView> {
    match v {
        None => Err(ConfigErrorView::MissingField(key)),
        Some(TomlValue::Str(s)) => Ok(s@),
        Some(_) => Err(ConfigErrorView::BadType(key, "string"@)),
    }
}

/// `keep-releases`: the integer truncated to `i8`, or 3 when the entry is
/// missing or not an integer.
pub open spec fn keep_releases_field(v: Option<TomlValue>) -> i8 {
    match v {
        Some(TomlValue::Int(i)) => i as i8,
        _ => 3,
    }
}

/// The text of an array element (empty for an element that is not a string).
pub open spec fn element_text(v: TomlValue) -> Seq<char> {
    match v {
        TomlValue::Str(s) => s@,
        _ => Seq::empty(),
    }
}

/// A list of strings: the array's elements, or no strings when the entry is
/// missing or not an array.
pub open spec fn string_list_field(v: Option<TomlValue>) -> Seq<Seq<char>> {
    match v {
        Some(TomlValue::Array(a)) => a@.map_values(|x: TomlValue| element_text(x)),
        _ => Seq::empty(),
    }
}

/// An array holding an element that is not a string: reading it as a list of
/// strings aborts.
pub open spec fn string_list_aborts(v: Option<TomlValue>) -> bool {
    match v {
        Some(TomlValue::Array(a)) => exists|i: int| 0 <= i < a@.len() && !(a@[i] is Str),
        _ => false,
    }
}

/// The outcome of reading a stage from a parsed document: `None` where the
/// reading aborts (a linked-files or linked-dirs array holding a non-string,
/// once every required field has been read), else the configuration or the
/// first error in the order stage table, host, deploy-path, repo-url.
pub open spec fn stage_config(doc: TomlTable, stage: Seq<char>) -> Option<Result<HostConfigView, ConfigErrorView>> {
    match sub_table(doc.entries@, stage) {
        None => Some(Err(ConfigErrorView::BadStage(stage))),
        Some(st) => {
            let g = sub_table(doc.entries@, "global"@);
            match string_field(stage_value(st, g, "host"@), "host"@) {
                Err(e) => Some(Err(e)),
                Ok(host) => match string_field(stage_value(st, g, "deploy-path"@), "deploy-path"@) {
                    Err(e) => Some(Err(e)),
                    Ok(deploy_path) => match string_field(stage_value(st, g, "repo-url"@), "repo-url"@) {
                        Err(e) => Some(Err(e)),
                        Ok(repo_url) => {
                            let files = stage_value(st, g, "linked-files"@);
                            let dirs = stage_value(st, g, "linked-dirs"@);
                            if string_list_aborts(files) || string_list_aborts(dirs) {
                                None
                            } else {
                                Some(Ok(HostConfigView {
                                    host,
                                    deploy_path,
                                    keep_releases: keep_releases_field(stage_value(st, g, "keep-releases"@)),
                                    repo_url,
                                    link_files: string_list_field(files),
                                    link_dirs: string_list_field(dirs),
                                }))
                            }
                        },
                    },
                },
            }
        },
    }
}

/// A result with its texts as character sequences.
pub open spec fn config_result_view(r: Result<HostConfig, ConfigError>) -> Result<HostConfigView, ConfigErrorView> {
    match r {
        Ok(c) => Ok(c@),
        Err(e) => Err(e@),
    }
}

/// The outcome of reading a whole configuration file.
pub open spec fn config_file_outcome(file_name: Seq<char>, file: FileRead, stage: Seq<char>) -> Option<Result<HostConfigView, ConfigErrorView>> {
    match file {
        FileRead::NotFound => Some(Err(ConfigErrorView::NotFound(file_name))),
        FileRead::OpenFailed => Some(Err(ConfigErrorView::NotFound(file_name))),
        FileRead::ReadFailed => Some(Err(ConfigErrorView::IoError)),
        FileRead::Contents(text) => match toml_document(text@) {
            None => None,
            Some(doc) => stage_config(doc, stage),
        },
    }
}

/// The value for `key` as `stage_value` describes it.
fn stage_value_exec<'a>(stage: &'a TomlTable, global: Option<&'a TomlTable>, key: &str) -> (r: Option<&'a TomlValue>)
    ensures
        match r {
            Some(v) => stage_value(*stage, match global { Some(g) => Some(*g), None => None }, key@) == Some(*v),
            None => stage_value(*stage, match global { Some(g) => Some(*g), None => None }, key@) is None,
        },
{
    if let Some(g) = global {
        if let Some(i) = g.find(key) {
            return Some(&g.entries[i].1);
        }
    }
    match stage.find(key) {
        Some(i) => Some(&stage.entries[i].1),
        None => None,
    }
}

/// A required string field, as `string_field` describes it.
fn parse_string(v: Option<&TomlValue>, key: &str) -> (r: Result<String, ConfigError>)
    ensures
        match r {
            Ok(s) => string_field(match v { Some(x) => Some(*x), None => None }, key@) == Ok::<Seq<char>, ConfigErrorView>(s@),
            Err(e) => string_field(match v { Some(x) => Some(*x), None => None }, key@) == Err::<Seq<char>, ConfigErrorView>(e@),
        },
{
    match v {
        None => Err(ConfigError::MissingField(String::from_str(key))),
        Some(TomlValue::Str(s)) => Ok(s.clone()),
        Some(_) => Err(ConfigError::BadType(String::from_str(key), String::from_str("string"))),
    }
}

/// `keep-releases` as `keep_releases_field` describes it.
fn parse_keep_releases(v: Option<&TomlValue>) -> (r: i8)
    ensures
        r == keep_releases_field(match v { Some(x) => Some(*x), None => None }),
{
    match v {
        Some(TomlValue::Int(i)) => *i as i8,
        _ => 3,
    }
}

/// A list of strings as `string_list_field` describes it; `None` where
/// `string_list_aborts` holds.
fn parse_string_vector(v: Option<&TomlValue>) -> (r: Option<Vec<String>>)
    ensures
        r is None <==> string_list_aborts(match v { Some(x) => Some(*x), None => None }),
        r matches Some(l) ==> l@.map_values(|s: String| s@) == string_list_field(match v { Some(x) => Some(*x), None => None }),
{
    match v {
        Some(TomlValue::Array(a)) => {
            let mut out: Vec<String> = Vec::new();
            let mut i: usize = 0;
            while i < a.len()
                invariant
                    v == Some(&TomlValue::Array(*a)),
                    i <= a@.len(),
                    out@.len() == i,
                    forall|j: int| 0 <= j < i ==> a@[j] is Str,
                    forall|j: int| 0 <= j < i ==> #[trigger] out@[j]@ == element_text(a@[j]),
                decreases a@.len() - i,
            {
                match &a[i] {
                    TomlValue::Str(s) => out.push(s.clone()),
                    _ => {
                        assert(!(a@[i as int] is Str));
                        return None;
                    },
                }
                i = i + 1;
            }
            assert(out@.map_values(|s: String| s@) =~= a@.map_values(|x: TomlValue| element_text(x)));
            Some(out)
        },
        _ => Some(Vec::new()),
    }
}

/// Reads the settings of `stage` from a parsed configuration document.
///
/// Values in the `global` table override the stage's own. `keep-releases`
/// defaults to 3 and the linked lists to empty. `None` where the reading
/// aborts (see `stage_config`).
pub fn config_from_document(doc: &TomlTable, stage: &str) -> (r: Option<Result<HostConfig, ConfigError>>)
    ensures
        match r {
            None => stage_config(*doc, stage@) is None,
            Some(res) => stage_config(*doc, stage@) == Some(config_result_view(res)),
        },
{
    let st: &TomlTable = match doc.get_table(stage) {
        Some(t) => t,
        None => return Some(Err(ConfigError::BadStage(String::from_str(stage)))),
    };
    let g: Option<&TomlTable> = doc.get_table("global");
    let host: String = match parse_string(stage_value_exec(st, g, "host"), "host") {
        Ok(s) => s,
        Err(e) => return Some(Err(e)),
    };
    let deploy_path: String = match parse_string(stage_value_exec(st, g, "deploy-path"), "deploy-path") {
        Ok(s) => s,
        Err(e) => return Some(Err(e)),
    };
    let keep_releases: i8 = parse_keep_releases(stage_value_exec(st, g, "keep-releases"));
    let repo_url: String = match parse_string(stage_value_exec(st, g, "repo-url"), "repo-url") {
        Ok(s) => s,
        Err(e) => return Some(Err(e)),
    };
    let link_files: Vec<String> = match parse_string_vector(stage_value_exec(st, g, "linked-files")) {
        Some(l) => l,
        None => return None,
    };
    let link_dirs: Vec<String> = match parse_string_vector(stage_value_exec(st, g, "linked-dirs")) {
        Some(l) => l,
        None => return None,
    };
    Some(Ok(HostConfig { host, deploy_path, keep_releases, repo_url, link_files, link_dirs }))
}

/// Reads the settings of `stage` from the configuration file `file_name`,
/// given what reading that file gave.
///
/// A file that cannot be opened gives `NotFound` with the file's name, a
/// failed read `IoError`. `None` when the text is not valid TOML or a list of
/// linked files or directories holds something other than a string.
pub fn parse_config_file(file_name: &str, file: FileRead, stage: &str) -> (r: Option<Result<HostConfig, ConfigError>>)
    ensures
        match r {
            None => config_file_outcome(file_name@, file, stage@) is None,
            Some(res) => config_file_outcome(file_name@, file, stage@) == Some(config_result_view(res)),
        },
{
    match file {
        FileRead::NotFound => Some(Err(ConfigError::NotFound(String::from_str(file_name)))),
        FileRead::OpenFailed => Some(Err(ConfigError::NotFound(String::from_str(file_name)))),
        FileRead::ReadFailed => Some(Err(ConfigError::IoError)),
        FileRead::Contents(text) => match parse_toml(text.as_str()) {
            None => None,
            Some(doc) => config_from_document(&doc, stage),
        },
    }
}

/// A copy of a list of texts.
pub fn copy_strings(v: &Vec<String>) -> (r: Vec<String>)
    ensures
        r@ == v@,
{
    let mut r: Vec<String> = Vec::new();
    let mut i: usize = 0;
    while i < v.len()
        invariant
            i <= v@.len(),
            r@ == v@.subrange(0, i as int),
        decreases v@.len() - i,
    {
        r.push(v[i].clone());
        i = i + 1;
        assert(r@ =~= v@.subrange(0, i as int));
    }
    assert(v@.subrange(0, v@.len() as int) =~= v@);
    r
}

impl HostConfig {
    /// A copy of these settings.
    pub fn duplicate(&self) -> (r: HostConfig)
        ensures
            r@ == self@,
    {
        let link_files: Vec<String> = copy_strings(&self.link_files);
        let link_dirs: Vec<String> = copy_strings(&self.link_dirs);
        HostConfig {
            host: self.host.clone(),
            deploy_path: self.deploy_path.clone(),
            keep_releases: self.keep_releases,
            repo_url: self.repo_url.clone(),
            link_files,
            link_dirs,
        }
    }
}

/// Law: a setting in the global table overrides the stage's own setting of
/// the same name.
pub proof fn global_settings_override_stage_settings(doc: TomlTable, stage: Seq<char>, c: HostConfigView, g: TomlTable)
    requires
        stage_config(doc, stage) == Some(Ok::<HostConfigView, ConfigErrorView>(c)),
        sub_table(doc.entries@, "global"@) == Some(g),
    ensures
        lookup(g.entries@, "host"@) matches Some(TomlValue::Str(v)) ==> c.host == v@,
        lookup(g.entries@, "deploy-path"@) matches Some(TomlValue::Str(v)) ==> c.deploy_path == v@,
        lookup(g.entries@, "repo-url"@) matches Some(TomlValue::Str(v)) ==> c.repo_url == v@,
        lookup(g.entries@, "keep-releases"@) matches Some(TomlValue::Int(v)) ==> c.keep_releases == v as i8,
        lookup(g.entries@, "linked-files"@) matches Some(v) ==> c.link_files == string_list_field(Some(v)),
        lookup(g.entries@, "linked-dirs"@) matches Some(v) ==> c.link_dirs == string_list_field(Some(v)),
{
}

/// Law: a stage whose settings give no `keep-releases` keeps 3 releases, and
/// one without linked files or directories links none.
pub proof fn missing_optional_settings_take_defaults(doc: TomlTable, stage: Seq<char>, c: HostConfigView)
    requires
        stage_config(doc, stage) == Some(Ok::<HostConfigView, ConfigErrorView>(c)),
    ensures
        ({
            let st = sub_table(doc.entries@, stage)->Some_0;
            let g = sub_table(doc.entries@, "global"@);
            &&& stage_value(st, g, "keep-releases"@) is None ==> c.keep_releases == 3
            &&& stage_value(st, g, "linked-files"@) is None ==> c.link_files.len() == 0
            &&& stage_value(st, g, "linked-dirs"@) is None ==> c.link_dirs.len() == 0
        }),
{
}

/// Law: where the global table says nothing of a setting, the stage's own
/// value applies: its host, deploy path and repository, its `keep-releases`
/// (3 when it has none either), and the strings of its linked files and
/// directories (none when it has none either).
pub proof fn stage_settings_apply_where_global_is_silent(doc: TomlTable, stage: Seq<char>, c: HostConfigView)
    requires
        stage_config(doc, stage) == Some(Ok::<HostConfigView, ConfigErrorView>(c)),
    ensures
        ({
            let st = sub_table(doc.entries@, stage)->Some_0;
            let silent = |key: Seq<char>| match sub_table(doc.entries@, "global"@) {
                Some(g) => lookup(g.entries@, key) is None,
                None => true,
            };
            &&& sub_table(doc.entries@, stage) is Some
            &&& silent("host"@) ==> (lookup(st.entries@, "host"@) matches Some(TomlValue::Str(v)) && c.host == v@)
            &&& silent("deploy-path"@) ==> (lookup(st.entries@, "deploy-path"@) matches Some(TomlValue::Str(v))
                && c.deploy_path == v@)
            &&& silent("repo-url"@) ==> (lookup(st.entries@, "repo-url"@) matches Some(TomlValue::Str(v))
                && c.repo_url == v@)
            &&& silent("keep-releases"@) ==> c.keep_releases == match lookup(st.entries@, "keep-releases"@) {
                Some(TomlValue::Int(v)) => v as i8,
                _ => 3i8,
            }
            &&& silent("linked-files"@) ==> c.link_files == match lookup(st.entries@, "linked-files"@) {
                Some(TomlValue::Array(a)) => a@.map_values(|x: TomlValue| element_text(x)),
                _ => Seq::empty(),
            }
            &&& silent("linked-dirs"@) ==> c.link_dirs == match lookup(st.entries@, "linked-dirs"@) {
                Some(TomlValue::Array(a)) => a@.map_values(|x: TomlValue| element_text(x)),
                _ => Seq::empty(),
            }
            &&& silent("linked-files"@) ==> (lookup(st.entries@, "linked-files"@) matches Some(TomlValue::Array(a))
                ==> forall|i: int| 0 <= i < a@.len() ==> (#[trigger] a@[i] matches TomlValue::Str(t) && c.link_files[i] == t@))
            &&& silent("linked-dirs"@) ==> (lookup(st.entries@, "linked-dirs"@) matches Some(TomlValue::Array(a))
                ==> forall|i: int| 0 <= i < a@.len() ==> (#[trigger] a@[i] matches TomlValue::Str(t) && c.link_dirs[i] == t@))
        }),
{
}

/// Law: a configuration file that cannot be opened is reported as not found,
/// by its name; one that cannot be read as an I/O error; a file that reads as
/// a TOML document gives that document's settings for the stage.
pub proof fn configuration_file_outcomes(file_name: Seq<char>, text: String, stage: Seq<char>)
    ensures
        config_file_outcome(file_name, FileRead::NotFound, stage) == Some(Err::<HostConfigView, ConfigErrorView>(ConfigErrorView::NotFound(file_name))),
        config_file_outcome(file_name, FileRead::OpenFailed, stage) == Some(Err::<HostConfigView, ConfigErrorView>(ConfigErrorView::NotFound(file_name))),
        config_file_outcome(file_name, FileRead::ReadFailed, stage) == Some(Err::<HostConfigView, ConfigErrorView>(ConfigErrorView::IoError)),
        toml_document(text@) matches Some(doc) ==> config_file_outcome(file_name, FileRead::Contents(text), stage)
            == stage_config(doc, stage),
        toml_document(text@) is None ==> config_file_outcome(file_name, FileRead::Contents(text), stage) is None,
        forall|doc: TomlTable| sub_table(doc.entries@, stage) is None ==> stage_config(doc, stage)
            == Some(Err::<HostConfigView, ConfigErrorView>(ConfigErrorView::BadStage(stage))),
{
}

} // verus!
