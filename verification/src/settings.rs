//! Persisted settings: refresh rate, colour theme and the flow toggle.

use vstd::prelude::*;

use crate::document::{
    entry_lookup, is_flat_table, node_reports, parse_document, render_pretty, table_first_key,
    table_insert, table_len, table_lookup, table_new, toml_parse_document, toml_render_pretty,
    toml_table_entries, TomlNode, TomlScalar, TomlValue,
};
use crate::ui::theme_label;

verus! {

/// Lower bound of the refresh interval, in milliseconds.
pub const MIN_REFRESH_MS: u64 = 16;

/// Upper bound of the refresh interval, in milliseconds.
pub const MAX_REFRESH_MS: u64 = 1000;

/// Refresh interval used when none is configured.
pub const DEFAULT_REFRESH_MS: u64 = 16;

/// The three colour themes, cycled with `t`.
#[derive(Debug, Clone, Copy, PartialEq, Eq, Structural)]
pub enum ThemeName {
    Mizu,
    Abyss,
    Coral,
}

/// The theme that follows `t` in the cycle mizu → abyss → coral → mizu.
pub open spec fn spec_next_theme(t: ThemeName) -> ThemeName {
    match t {
        ThemeName::Mizu => ThemeName::Abyss,
        ThemeName::Abyss => ThemeName::Coral,
        ThemeName::Coral => ThemeName::Mizu,
    }
}

impl Default for ThemeName {
    fn default() -> (t: ThemeName)
        ensures
            t == ThemeName::Mizu,
    {
        ThemeName::Mizu
    }
}

impl ThemeName {
    /// The next theme in the cycle.
    pub fn next(self) -> (t: ThemeName)
        ensures
            t == spec_next_theme(self),
    {
        match self {
            ThemeName::Mizu => ThemeName::Abyss,
            ThemeName::Abyss => ThemeName::Coral,
            ThemeName::Coral => ThemeName::Mizu,
        }
    }
}

/// The name a theme goes by in the settings file and in the footer.
pub open spec fn spec_theme_label(t: ThemeName) -> Seq<char> {
    match t {
        ThemeName::Mizu => "mizu"@,
        ThemeName::Abyss => "abyss"@,
        ThemeName::Coral => "coral"@,
    }
}

/// The theme going by the name `s`, if any.
pub open spec fn spec_theme_named(s: Seq<char>) -> Option<ThemeName> {
    if s == "mizu"@ {
        Some(ThemeName::Mizu)
    } else if s == "abyss"@ {
        Some(ThemeName::Abyss)
    } else if s == "coral"@ {
        Some(ThemeName::Coral)
    } else {
        None
    }
}

/// Each theme is found again by its name.
pub proof fn lemma_theme_label_named(t: ThemeName)
    ensures
        spec_theme_named(spec_theme_label(t)) == Some(t),
{
    reveal_strlit("mizu");
    reveal_strlit("abyss");
    reveal_strlit("coral");
    assert("mizu"@.len() != "abyss"@.len());
    assert("mizu"@.len() != "coral"@.len());
    assert("abyss"@[0] != "coral"@[0]);
}

/// Cycling the theme three times comes back to where it started, and no
/// fewer steps do.
pub proof fn lemma_theme_cycle_period(t: ThemeName)
    ensures
        spec_next_theme(spec_next_theme(spec_next_theme(t))) == t,
        spec_next_theme(t) != t,
        spec_next_theme(spec_next_theme(t)) != t,
{
}

/// User settings, as stored in `settings.toml`.
#[derive(Debug, Clone, Copy, PartialEq, Eq, Structural)]
pub struct Settings {
    pub refresh_rate_ms: u64,
    pub theme: ThemeName,
    pub flow_enabled: bool,
}

/// The settings used when nothing is configured.
pub open spec fn spec_default_settings() -> Settings {
    Settings { refresh_rate_ms: DEFAULT_REFRESH_MS, theme: ThemeName::Mizu, flow_enabled: true }
}

/// `r` clamped into `[MIN_REFRESH_MS, MAX_REFRESH_MS]`.
pub open spec fn spec_clamp_refresh(r: u64) -> u64 {
    if r < MIN_REFRESH_MS {
        MIN_REFRESH_MS
    } else if r > MAX_REFRESH_MS {
        MAX_REFRESH_MS
    } else {
        r
    }
}

/// `s` with its refresh interval clamped, everything else kept.
pub open spec fn spec_sanitized(s: Settings) -> Settings {
    Settings { refresh_rate_ms: spec_clamp_refresh(s.refresh_rate_ms), ..s }
}

/// The refresh interval assumed when the file names none.
pub fn default_refresh_ms() -> (r: u64)
    ensures
        r == DEFAULT_REFRESH_MS,
{
    DEFAULT_REFRESH_MS
}

/// The flow toggle assumed when the file names none.
pub fn default_true() -> (b: bool)
    ensures
        b,
{
    true
}

impl Default for Settings {
    fn default() -> (s: Settings)
        ensures
            s == spec_default_settings(),
    {
        Settings {
            refresh_rate_ms: default_refresh_ms(),
            theme: ThemeName::default(),
            flow_enabled: default_true(),
        }
    }
}

impl Settings {
    /// The same settings with the refresh interval clamped to
    /// `[MIN_REFRESH_MS, MAX_REFRESH_MS]`.
    pub fn sanitized(self) -> (s: Settings)
        ensures
            s == spec_sanitized(self),
    {
        let mut s = self;
        if s.refresh_rate_ms < MIN_REFRESH_MS {
            s.refresh_rate_ms = MIN_REFRESH_MS;
        }
        if s.refresh_rate_ms > MAX_REFRESH_MS {
            s.refresh_rate_ms = MAX_REFRESH_MS;
        }
        s
    }
}

/// Sanitizing puts the refresh interval in range, keeps the rest, and a
/// second pass changes nothing.
pub proof fn lemma_sanitized_in_range_and_idempotent(s: Settings)
    ensures
        MIN_REFRESH_MS <= spec_sanitized(s).refresh_rate_ms <= MAX_REFRESH_MS,
        spec_sanitized(s).theme == s.theme,
        spec_sanitized(s).flow_enabled == s.flow_enabled,
        spec_sanitized(spec_sanitized(s)) == spec_sanitized(s),
        MIN_REFRESH_MS <= s.refresh_rate_ms <= MAX_REFRESH_MS ==> spec_sanitized(s) == s,
{
}

/// Why reading the settings failed.
#[derive(Debug, Clone, Copy, PartialEq, Eq, Structural)]
pub enum LoadError {
    /// The file exists but could not be read.
    Read,
    /// The file is not a TOML document that describes settings.
    Parse,
}

/// Why the settings could not be written as TOML.
#[derive(Debug, Clone, Copy, PartialEq, Eq, Structural)]
pub enum SaveError {
    /// The refresh interval is beyond the integers TOML can hold.
    OutOfRange,
}

/// What became of reading the settings file.
#[derive(Debug, PartialEq, Eq)]
pub enum FileRead {
    /// There is no such file.
    NotFound,
    /// The file could not be read for another reason.
    Failed,
    /// The file's contents.
    Text(String),
}

/// The refresh interval a document value gives, `None` where it is refused:
/// a missing key means the default, a TOML integer counts if it is not
/// negative, anything else is refused.
pub open spec fn spec_refresh_field(v: Option<TomlValue>) -> Option<u64> {
    match v {
        None => Some(DEFAULT_REFRESH_MS),
        Some(TomlValue::Int(i)) => if 0 <= i <= u64::MAX {
            Some(i as u64)
        } else {
            None
        },
        Some(_) => None,
    }
}

/// An empty table or an empty array: what a unit variant written as a
/// table carries.
pub open spec fn is_unit_payload(v: TomlValue) -> bool {
    match v {
        TomlValue::Table(e) => e.len() == 0,
        TomlValue::Array(a) => a.len() == 0,
        _ => false,
    }
}

/// The theme a document value gives: a missing key means mizu, a string
/// names a theme, and so does a table of exactly one entry whose key names a
/// theme and whose value is an empty table or array.
pub open spec fn spec_theme_field(v: Option<TomlValue>) -> Option<ThemeName> {
    match v {
        None => Some(ThemeName::Mizu),
        Some(TomlValue::Str(s)) => spec_theme_named(s),
        Some(TomlValue::Table(e)) => if e.len() == 1 && is_unit_payload(e[0].1) {
            spec_theme_named(e[0].0)
        } else {
            None
        },
        Some(_) => None,
    }
}

/// The flow toggle a document value gives: a missing key means on, a
/// boolean counts, anything else is refused.
pub open spec fn spec_flow_field(v: Option<TomlValue>) -> Option<bool> {
    match v {
        None => Some(true),
        Some(TomlValue::Bool(b)) => Some(b),
        Some(_) => None,
    }
}

/// The settings a document with these top-level entries describes; keys
/// other than the three settings are ignored.
pub open spec fn spec_settings_from_entries(e: Seq<(Seq<char>, TomlValue)>) -> Option<Settings> {
    let r = spec_refresh_field(entry_lookup(e, "refresh_rate_ms"@));
    let t = spec_theme_field(entry_lookup(e, "theme"@));
    let f = spec_flow_field(entry_lookup(e, "flow_enabled"@));
    if r is Some && t is Some && f is Some {
        Some(Settings { refresh_rate_ms: r->0, theme: t->0, flow_enabled: f->0 })
    } else {
        None
    }
}

/// The settings the text of a settings file gives.
pub open spec fn spec_parse_settings(text: Seq<char>) -> Result<Settings, LoadError> {
    match toml_parse_document(text) {
        None => Err(LoadError::Parse),
        Some(e) => match spec_settings_from_entries(e) {
            Some(s) => Ok(s),
            None => Err(LoadError::Parse),
        },
    }
}

/// What reading the settings file gives before sanitizing: a missing file
/// means the defaults.
pub open spec fn spec_load_from_read(r: FileRead) -> Result<Settings, LoadError> {
    match r {
        FileRead::NotFound => Ok(spec_default_settings()),
        FileRead::Failed => Err(LoadError::Read),
        FileRead::Text(t) => spec_parse_settings(t@),
    }
}

/// The settings the monitor starts with: what the file gives, sanitized,
/// and the defaults whenever reading or parsing fails.
pub open spec fn spec_load(r: FileRead) -> Settings {
    match spec_load_from_read(r) {
        Ok(s) => spec_sanitized(s),
        Err(_) => spec_default_settings(),
    }
}

/// The entries the settings are written as, in field order.
pub open spec fn spec_settings_entries(s: Settings) -> Seq<(Seq<char>, TomlValue)> {
    seq![
        ("refresh_rate_ms"@, TomlValue::Int(s.refresh_rate_ms as int)),
        ("theme"@, TomlValue::Str(spec_theme_label(s.theme))),
        ("flow_enabled"@, TomlValue::Bool(s.flow_enabled)),
    ]
}

/// Whether a TOML integer can hold the refresh interval.
pub open spec fn spec_savable(s: Settings) -> bool {
    s.refresh_rate_ms <= i64::MAX
}

/// Whether the optional report `v` stands for the optional value `m`.
pub open spec fn reports_opt(v: Option<TomlNode>, m: Option<TomlValue>) -> bool {
    match v {
        None => m is None,
        Some(n) => m matches Some(x) && node_reports(n, x),
    }
}

/// The theme named `s`.
fn theme_named(s: &String) -> (r: Option<ThemeName>)
    ensures
        r == spec_theme_named(s@),
{
    if *s == String::from_str("mizu") {
        Some(ThemeName::Mizu)
    } else if *s == String::from_str("abyss") {
        Some(ThemeName::Abyss)
    } else if *s == String::from_str("coral") {
        Some(ThemeName::Coral)
    } else {
        None
    }
}

/// The refresh interval one document value gives.
fn refresh_field(v: Option<TomlNode>, Ghost(m): Ghost<Option<TomlValue>>) -> (r: Option<u64>)
    requires
        reports_opt(v, m),
    ensures
        r == spec_refresh_field(m),
{
    match v {
        None => Some(DEFAULT_REFRESH_MS),
        Some(TomlNode::Int(i)) => if i >= 0 {
            Some(i as u64)
        } else {
            None
        },
        Some(_) => None,
    }
}

/// The flow toggle one document value gives.
fn flow_field(v: Option<TomlNode>, Ghost(m): Ghost<Option<TomlValue>>) -> (r: Option<bool>)
    requires
        reports_opt(v, m),
    ensures
        r == spec_flow_field(m),
{
    match v {
        None => Some(true),
        Some(TomlNode::Bool(b)) => Some(b),
        Some(_) => None,
    }
}

/// Whether the reported value is an empty table or an empty array.
fn unit_payload(v: &TomlNode, Ghost(m): Ghost<TomlValue>) -> (r: bool)
    requires
        node_reports(*v, m),
    ensures
        r == is_unit_payload(m),
{
    match v {
        TomlNode::Table(t) => table_len(t) == 0,
        TomlNode::Array(a) => a.len() == 0,
        _ => false,
    }
}

/// The theme one document value gives.
fn theme_field(v: Option<TomlNode>, Ghost(m): Ghost<Option<TomlValue>>) -> (r: Option<ThemeName>)
    requires
        reports_opt(v, m),
    ensures
        r == spec_theme_field(m),
{
    match v {
        None => Some(ThemeName::Mizu),
        Some(TomlNode::Str(s)) => theme_named(s),
        Some(TomlNode::Table(t)) => {
            if table_len(t) != 1 {
                return None;
            }
            let ghost e = toml_table_entries(*t);
            match table_first_key(t) {
                None => None,
                Some(k) => match table_lookup(t, k.as_str()) {
                    None => None,
                    Some(inner) => {
                        if unit_payload(&inner, Ghost(e[0].1)) {
                            theme_named(&k)
                        } else {
                            None
                        }
                    },
                },
            }
        },
        Some(_) => None,
    }
}

impl Settings {
    /// The settings a parsed TOML document describes, `None` where a
    /// setting is present but of the wrong kind or an unknown theme.
    pub fn from_document(doc: &toml::Table) -> (res: Option<Settings>)
        ensures
            res == spec_settings_from_entries(toml_table_entries(*doc)),
    {
        let ghost e = toml_table_entries(*doc);
        let r = refresh_field(table_lookup(doc, "refresh_rate_ms"), Ghost(entry_lookup(e, "refresh_rate_ms"@)));
        let t = theme_field(table_lookup(doc, "theme"), Ghost(entry_lookup(e, "theme"@)));
        let f = flow_field(table_lookup(doc, "flow_enabled"), Ghost(entry_lookup(e, "flow_enabled"@)));
        match (r, t, f) {
            (Some(r), Some(t), Some(f)) => Some(Settings { refresh_rate_ms: r, theme: t, flow_enabled: f }),
            _ => None,
        }
    }

    /// The settings the text of a settings file gives.
    pub fn parse(text: &str) -> (res: Result<Settings, LoadError>)
        ensures
            res == spec_parse_settings(text@),
    {
        match parse_document(text) {
            Err(_) => Err(LoadError::Parse),
            Ok(doc) => match Settings::from_document(&doc) {
                Some(s) => Ok(s),
                None => Err(LoadError::Parse),
            },
        }
    }

    /// What reading the settings file gives, before sanitizing: a missing
    /// file means the defaults, an unreadable one or bad contents an error.
    pub fn load_from_read(read: FileRead) -> (res: Result<Settings, LoadError>)
        ensures
            res == spec_load_from_read(read),
    {
        match read {
            FileRead::NotFound => Ok(Settings::default()),
            FileRead::Failed => Err(LoadError::Read),
            FileRead::Text(t) => Settings::parse(t.as_str()),
        }
    }

    /// The settings to start with, given what reading the settings file
    /// gave: the file's settings sanitized, or the defaults whenever the
    /// file cannot be read or parsed. A bad file never stops the monitor.
    pub fn load(read: FileRead) -> (s: Settings)
        ensures
            s == spec_load(read),
    {
        match Settings::load_from_read(read) {
            Ok(s) => s.sanitized(),
            Err(_) => Settings::default(),
        }
    }
}

/// The three setting keys are distinct.
proof fn lemma_setting_keys_distinct()
    ensures
        "refresh_rate_ms"@ != "theme"@,
        "refresh_rate_ms"@ != "flow_enabled"@,
        "theme"@ != "flow_enabled"@,
{
    reveal_strlit("refresh_rate_ms");
    reveal_strlit("theme");
    reveal_strlit("flow_enabled");
    assert("refresh_rate_ms"@.len() != "theme"@.len());
    assert("refresh_rate_ms"@.len() != "flow_enabled"@.len());
    assert("theme"@.len() != "flow_enabled"@.len());
}

/// The written entries describe exactly the settings they were written
/// from.
proof fn lemma_settings_entries_read_back(s: Settings)
    ensures
        is_flat_table(spec_settings_entries(s)),
        spec_settings_from_entries(spec_settings_entries(s)) == Some(s),
{
    lemma_setting_keys_distinct();
    lemma_theme_label_named(s.theme);
    let e = spec_settings_entries(s);
    assert(e.drop_first() =~= seq![e[1], e[2]]);
    assert(e.drop_first().drop_first() =~= seq![e[2]]);
    assert(entry_lookup(e, "refresh_rate_ms"@) == Some(e[0].1));
    assert(entry_lookup(e.drop_first().drop_first(), "flow_enabled"@) == Some(e[2].1));
    assert(entry_lookup(e.drop_first(), "theme"@) == Some(e[1].1));
    assert(entry_lookup(e, "theme"@) == Some(e[1].1));
    assert(entry_lookup(e.drop_first(), "flow_enabled"@) == Some(e[2].1));
    assert(entry_lookup(e, "flow_enabled"@) == Some(e[2].1));
}

impl Settings {
    /// The TOML text the settings are saved as, in field order. Fails only
    /// where the refresh interval does not fit a TOML integer; the text that
    /// comes back parses to the very same settings.
    pub fn save(&self) -> (res: Result<String, SaveError>)
        ensures
            res is Ok <==> spec_savable(*self),
            res matches Err(e) ==> e == SaveError::OutOfRange,
            res matches Ok(text) ==> text@ == toml_render_pretty(spec_settings_entries(*self)),
            res matches Ok(text) ==> spec_parse_settings(text@) == Ok::<Settings, LoadError>(*self),
            res matches Ok(text) ==> spec_load(FileRead::Text(text)) == spec_sanitized(*self),
    {
        if self.refresh_rate_ms > 0x7fff_ffff_ffff_ffffu64 {
            return Err(SaveError::OutOfRange);
        }
        proof {
            lemma_setting_keys_distinct();
            lemma_settings_entries_read_back(*self);
        }
        let mut t = table_new();
        table_insert(&mut t, String::from_str("refresh_rate_ms"), TomlScalar::Int(self.refresh_rate_ms as i64));
        table_insert(&mut t, String::from_str("theme"), TomlScalar::Str(String::from_str(theme_label(self.theme))));
        table_insert(&mut t, String::from_str("flow_enabled"), TomlScalar::Bool(self.flow_enabled));
        assert(toml_table_entries(t) =~= spec_settings_entries(*self));
        match render_pretty(&t) {
            Ok(text) => Ok(text),
            Err(_) => Err(SaveError::OutOfRange),
        }
    }
}

/// Whatever reading the file gave, the settings the monitor starts with
/// have a refresh interval in `[MIN_REFRESH_MS, MAX_REFRESH_MS]`.
pub proof fn lemma_load_in_range(r: FileRead)
    ensures
        MIN_REFRESH_MS <= spec_load(r).refresh_rate_ms <= MAX_REFRESH_MS,
{
}

/// Where `settings.toml` lives, given the directories the environment
/// offers.
#[derive(Debug, Clone, Copy, PartialEq, Eq)]
pub enum ConfigDir<T> {
    /// `<dir>/settings.toml`, for the directory named by `MIZU_CONFIG_DIR`.
    FromEnv(T),
    /// `<dir>/mizu/settings.toml`, in the user's configuration directory.
    UserConfig(T),
    /// `<home>/.config/mizu/settings.toml`.
    HomeConfig(T),
    /// `./mizu/settings.toml`, when nothing else is known.
    WorkingDir,
}

/// Picks the settings location: the `MIZU_CONFIG_DIR` directory if set,
/// else the user's configuration directory, else `.config` in the home
/// directory, else the working directory.
pub fn config_location<T>(env_dir: Option<T>, config_dir: Option<T>, home_dir: Option<T>) -> (c:
    ConfigDir<T>)
    ensures
        c == (match (env_dir, config_dir, home_dir) {
            (Some(e), _, _) => ConfigDir::FromEnv(e),
            (None, Some(d), _) => ConfigDir::UserConfig(d),
            (None, None, Some(h)) => ConfigDir::HomeConfig(h),
            (None, None, None) => ConfigDir::WorkingDir,
        }),
{
    match env_dir {
        Some(e) => ConfigDir::FromEnv(e),
        None => match config_dir {
            Some(d) => ConfigDir::UserConfig(d),
            None => match home_dir {
                Some(h) => ConfigDir::HomeConfig(h),
                None => ConfigDir::WorkingDir,
            },
        },
    }
}

impl LoadError {
    /// What the error says about the file, before its path.
    pub fn message(&self) -> (s: &'static str)
        ensures
            s@ == (match self {
                LoadError::Read => "failed to read"@,
                LoadError::Parse => "failed to parse"@,
            }),
    {
        match self {
            LoadError::Read => "failed to read",
            LoadError::Parse => "failed to parse",
        }
    }
}

} // verus!
