//! The command-line client's configuration: where the data lives (a remote
//! server, a local database file or a fresh data directory), logging and the
//! terminal interface, and the edits the `config` command makes to it.
use vstd::prelude::*;
use vstd::utf8::{decode_utf8, encode_utf8, encode_utf8_decode_utf8, is_char_boundary};
use crate::text::{chars_eq, extend_str, from_chars, to_chars, trim_end_char, trim_end_char_spec};

verus! {

/// Where the client's data lives.
pub enum DatabaseMode {
    /// A remote instance reached over its HTTP API.
    Remote { server: String, api_key: String },
    /// An existing local database file.
    Local { db_path: String },
    /// A new instance whose database is created in a directory.
    Fresh { data_dir: String },
}

/// The texts of a mode: its kind (0 remote, 1 local, 2 fresh) and its fields.
pub open spec fn mode_view(m: DatabaseMode) -> (u8, Seq<char>, Seq<char>) {
    match m {
        DatabaseMode::Remote { server, api_key } => (0u8, server@, api_key@),
        DatabaseMode::Local { db_path } => (1u8, db_path@, Seq::<char>::empty()),
        DatabaseMode::Fresh { data_dir } => (2u8, data_dir@, Seq::<char>::empty()),
    }
}

impl Default for DatabaseMode {
    /// Remote, with no server and no key.
    fn default() -> (m: Self)
        ensures
            mode_view(m) == (0u8, Seq::<char>::empty(), Seq::<char>::empty()),
    {
        DatabaseMode::Remote { server: String::new(), api_key: String::new() }
    }
}

/// Logging settings.
pub struct LogConfig {
    /// `auto`, `journald`, `syslog`, `file` or `stdout`.
    pub output: String,
    /// `trace`, `debug`, `info`, `warn` or `error`.
    pub level: String,
    pub file: Option<String>,
}

impl Default for LogConfig {
    /// Automatic output at level `info`, no file.
    fn default() -> (c: Self)
        ensures
            c.output@ == "auto"@,
            c.level@ == "info"@,
            c.file is None,
    {
        LogConfig { output: String::from_str("auto"), level: String::from_str("info"), file: None }
    }
}

/// Terminal interface settings.
pub struct TuiConfig {
    /// `dark` or `light`.
    pub theme: String,
    /// `zh` or `en`.
    pub language: String,
}

impl Default for TuiConfig {
    /// Dark theme, Chinese.
    fn default() -> (c: Self)
        ensures
            c.theme@ == "dark"@,
            c.language@ == "zh"@,
    {
        TuiConfig { theme: String::from_str("dark"), language: String::from_str("zh") }
    }
}

/// The client configuration.
pub struct Config {
    pub database: DatabaseMode,
    /// The server of configurations written before modes existed.
    pub server: String,
    /// The key of configurations written before modes existed.
    pub api_key: String,
    pub log: LogConfig,
    pub tui: TuiConfig,
}

impl Default for Config {
    /// Remote mode with nothing set, default logging and interface.
    fn default() -> (c: Self)
        ensures
            mode_view(c.database) == (0u8, Seq::<char>::empty(), Seq::<char>::empty()),
            c.server@.len() == 0,
            c.api_key@.len() == 0,
            c.log.output@ == "auto"@,
            c.log.level@ == "info"@,
            c.log.file is None,
            c.tui.theme@ == "dark"@,
            c.tui.language@ == "zh"@,
    {
        Config {
            database: DatabaseMode::default(),
            server: String::new(),
            api_key: String::new(),
            log: LogConfig::default(),
            tui: TuiConfig::default(),
        }
    }
}

// ---------------------------------------------------------------------------
// Paths
// ---------------------------------------------------------------------------

/// `base` joined with the relative path `comp`, as `PathBuf::join` does on
/// Unix: a separator is added unless `base` is empty or already ends in one.
pub open spec fn path_join(base: Seq<char>, comp: Seq<char>) -> Seq<char> {
    if base.len() == 0 {
        comp
    } else if base.last() == '/' {
        base + comp
    } else {
        base + seq!['/'] + comp
    }
}

/// Joins a relative path to a base path.
pub fn join_path(base: &[char], comp: &str) -> (r: Vec<char>)
    ensures
        r@ == path_join(base@, comp@),
{
    let mut v: Vec<char> = Vec::new();
    crate::text::extend_chars(&mut v, base);
    if base.len() > 0 && base[base.len() - 1] != '/' {
        v.push('/');
    }
    extend_str(&mut v, comp);
    v
}

/// The configuration file under a home directory (`.` when there is none).
pub open spec fn config_path_spec(home: Option<Seq<char>>) -> Seq<char> {
    let h = match home {
        Some(h) => h,
        None => "."@,
    };
    path_join(path_join(path_join(h, ".config"@), "tranrss"@), "config.toml"@)
}

impl Config {
    /// `<home>/.config/tranrss/config.toml`, the home directory being `.` when
    /// `HOME` is not set.
    pub fn config_path(home: Option<&str>) -> (p: String)
        ensures
            p@ == config_path_spec(match home {
                Some(h) => Some(h@),
                None => None,
            }),
    {
        let h = match home {
            Some(h) => to_chars(h),
            None => to_chars("."),
        };
        let a = join_path(&h, ".config");
        let b = join_path(&a, "tranrss");
        from_chars(&join_path(&b, "config.toml"))
    }

    /// The data location.
    pub fn database_mode(&self) -> (m: &DatabaseMode)
        ensures
            m == &self.database,
    {
        &self.database
    }

    /// The server address of remote mode without trailing `/`; empty in the
    /// other modes.
    pub fn api_base(&self) -> (r: String)
        ensures
            r@ == match self.database {
                DatabaseMode::Remote { server, .. } => trim_end_char_spec(server@, '/'),
                _ => Seq::<char>::empty(),
            },
    {
        match &self.database {
            DatabaseMode::Remote { server, .. } => from_chars(&trim_end_char(&to_chars(server.as_str()), '/')),
            _ => String::new(),
        }
    }

    /// The API key of remote mode; empty in the other modes.
    pub fn api_key_value(&self) -> (r: String)
        ensures
            r@ == match self.database {
                DatabaseMode::Remote { api_key, .. } => api_key@,
                _ => Seq::<char>::empty(),
            },
    {
        match &self.database {
            DatabaseMode::Remote { api_key, .. } => api_key.clone(),
            _ => String::new(),
        }
    }

    /// The database file: the given file in local mode, `data.database` in the
    /// data directory in fresh mode, none in remote mode.
    pub fn db_path(&self) -> (r: Option<String>)
        ensures
            match self.database {
                DatabaseMode::Local { db_path } => r is Some && r->0@ == db_path@,
                DatabaseMode::Fresh { data_dir } => r is Some && r->0@ == path_join(data_dir@, "data.database"@),
                DatabaseMode::Remote { .. } => r is None,
            },
    {
        match &self.database {
            DatabaseMode::Local { db_path } => Some(db_path.clone()),
            DatabaseMode::Fresh { data_dir } => Some(from_chars(&join_path(&to_chars(data_dir.as_str()), "data.database"))),
            DatabaseMode::Remote { .. } => None,
        }
    }

    /// Whether the client uses an existing local database.
    pub fn is_parasitic(&self) -> (b: bool)
        ensures
            b == (self.database is Local),
    {
        match self.database {
            DatabaseMode::Local { .. } => true,
            _ => false,
        }
    }

    /// Whether the client creates a new instance.
    pub fn is_fresh(&self) -> (b: bool)
        ensures
            b == (self.database is Fresh),
    {
        match self.database {
            DatabaseMode::Fresh { .. } => true,
            _ => false,
        }
    }

    /// Whether the client talks to a remote server.
    pub fn is_remote(&self) -> (b: bool)
        ensures
            b == (self.database is Remote),
    {
        match self.database {
            DatabaseMode::Remote { .. } => true,
            _ => false,
        }
    }

    /// Reads an older configuration: a remote mode without a server takes the
    /// top-level server and key, when that server is set.
    pub fn upgrade_legacy(&mut self)
        ensures
            ({
                let m = mode_view(old(self).database);
                if m.0 == 0 && m.1.len() == 0 && old(self).server@.len() > 0 {
                    mode_view(final(self).database) == (0u8, old(self).server@, old(self).api_key@)
                } else {
                    mode_view(final(self).database) == m
                }
            }),
            final(self).server@ == old(self).server@,
            final(self).api_key@ == old(self).api_key@,
            final(self).log == old(self).log,
            final(self).tui == old(self).tui,
    {
        let upgrade = match &self.database {
            DatabaseMode::Remote { server, .. } => to_chars(server.as_str()).len() == 0
                && to_chars(self.server.as_str()).len() > 0,
            _ => false,
        };
        if upgrade {
            self.database = DatabaseMode::Remote { server: self.server.clone(), api_key: self.api_key.clone() };
        }
    }
}

// ---------------------------------------------------------------------------
// The `config` command
// ---------------------------------------------------------------------------

/// The `config` subcommands.
pub enum ConfigAction {
    Show,
    /// `config set key value`.
    SetValue { key: String, value: String },
    Remote { server: String, api_key: String },
    Local { db_path: String },
    Fresh { data_dir: String },
}

/// What a `config` command came to.
#[derive(PartialEq, Eq, Structural)]
pub enum ConfigOutcome {
    /// Nothing changed; the configuration is to be shown.
    Show,
    /// The configuration changed and is to be saved.
    Changed,
    /// `api_key` was set outside remote mode; nothing changed.
    NotRemote,
    /// `database.mode` was given an unknown mode; nothing changed.
    UnknownMode,
    /// The key is not a configuration key; nothing changed.
    UnknownKey,
}

/// The configuration after `config set key value`, and the outcome.
pub open spec fn set_spec(old_c: Config, key: Seq<char>, value: Seq<char>, new_c: Config, o: ConfigOutcome) -> bool {
    let m = mode_view(old_c.database);
    let nm = mode_view(new_c.database);
    let same_rest = new_c.server@ == old_c.server@ && new_c.api_key@ == old_c.api_key@;
    let same_log = new_c.log.output@ == old_c.log.output@ && new_c.log.level@ == old_c.log.level@
        && new_c.log.file == old_c.log.file;
    let same_tui = new_c.tui.theme@ == old_c.tui.theme@ && new_c.tui.language@ == old_c.tui.language@;
    let unchanged = nm == m && same_rest && same_log && same_tui;
    if key == "server"@ {
        o == ConfigOutcome::Changed && same_rest && same_log && same_tui
            && nm == (0u8, value, if m.0 == 0 { m.2 } else { Seq::<char>::empty() })
    } else if key == "api_key"@ {
        if m.0 == 0 {
            o == ConfigOutcome::Changed && same_rest && same_log && same_tui && nm == (0u8, m.1, value)
        } else {
            o == ConfigOutcome::NotRemote && unchanged
        }
    } else if key == "database.mode"@ {
        if value == "remote"@ {
            o == ConfigOutcome::Changed && same_rest && same_log && same_tui
                && nm == (0u8, Seq::<char>::empty(), Seq::<char>::empty())
        } else if value == "local"@ {
            o == ConfigOutcome::Changed && same_rest && same_log && same_tui
                && nm == (1u8, Seq::<char>::empty(), Seq::<char>::empty())
        } else if value == "fresh"@ {
            o == ConfigOutcome::Changed && same_rest && same_log && same_tui
                && nm == (2u8, Seq::<char>::empty(), Seq::<char>::empty())
        } else {
            o == ConfigOutcome::UnknownMode && unchanged
        }
    } else if key == "database.db_path"@ {
        o == ConfigOutcome::Changed && same_rest && same_log && same_tui
            && nm == (1u8, value, Seq::<char>::empty())
    } else if key == "database.data_dir"@ {
        o == ConfigOutcome::Changed && same_rest && same_log && same_tui
            && nm == (2u8, value, Seq::<char>::empty())
    } else if key == "log.output"@ {
        o == ConfigOutcome::Changed && nm == m && same_rest && same_tui && new_c.log.output@ == value
            && new_c.log.level@ == old_c.log.level@ && new_c.log.file == old_c.log.file
    } else if key == "log.level"@ {
        o == ConfigOutcome::Changed && nm == m && same_rest && same_tui && new_c.log.level@ == value
            && new_c.log.output@ == old_c.log.output@ && new_c.log.file == old_c.log.file
    } else if key == "tui.theme"@ {
        o == ConfigOutcome::Changed && nm == m && same_rest && same_log && new_c.tui.theme@ == value
            && new_c.tui.language@ == old_c.tui.language@
    } else if key == "tui.language"@ {
        o == ConfigOutcome::Changed && nm == m && same_rest && same_log && new_c.tui.language@ == value
            && new_c.tui.theme@ == old_c.tui.theme@
    } else {
        o == ConfigOutcome::UnknownKey && unchanged
    }
}

fn is_key(k: &[char], name: &str) -> (b: bool)
    ensures
        b == (k@ == name@),
{
    chars_eq(k, &to_chars(name))
}

/// Applies `config set key value`.
pub fn config_set(config: &mut Config, key: &str, value: String) -> (o: ConfigOutcome)
    ensures
        set_spec(*old(config), key@, value@, *final(config), o),
{
    let k = to_chars(key);
    if is_key(&k, "server") {
        let keep = match &config.database {
            DatabaseMode::Remote { api_key, .. } => api_key.clone(),
            _ => String::new(),
        };
        config.database = DatabaseMode::Remote { server: value, api_key: keep };
        ConfigOutcome::Changed
    } else if is_key(&k, "api_key") {
        let server = match &config.database {
            DatabaseMode::Remote { server, .. } => Some(server.clone()),
            _ => None,
        };
        match server {
            Some(s) => {
                config.database = DatabaseMode::Remote { server: s, api_key: value };
                ConfigOutcome::Changed
            },
            None => ConfigOutcome::NotRemote,
        }
    } else if is_key(&k, "database.mode") {
        let v = to_chars(value.as_str());
        if is_key(&v, "remote") {
            config.database = DatabaseMode::Remote { server: String::new(), api_key: String::new() };
            ConfigOutcome::Changed
        } else if is_key(&v, "local") {
            config.database = DatabaseMode::Local { db_path: String::new() };
            ConfigOutcome::Changed
        } else if is_key(&v, "fresh") {
            config.database = DatabaseMode::Fresh { data_dir: String::new() };
            ConfigOutcome::Changed
        } else {
            ConfigOutcome::UnknownMode
        }
    } else if is_key(&k, "database.db_path") {
        config.database = DatabaseMode::Local { db_path: value };
        ConfigOutcome::Changed
    } else if is_key(&k, "database.data_dir") {
        config.database = DatabaseMode::Fresh { data_dir: value };
        ConfigOutcome::Changed
    } else if is_key(&k, "log.output") {
        config.log.output = value;
        ConfigOutcome::Changed
    } else if is_key(&k, "log.level") {
        config.log.level = value;
        ConfigOutcome::Changed
    } else if is_key(&k, "tui.theme") {
        config.tui.theme = value;
        ConfigOutcome::Changed
    } else if is_key(&k, "tui.language") {
        config.tui.language = value;
        ConfigOutcome::Changed
    } else {
        ConfigOutcome::UnknownKey
    }
}

/// Applies a `config` command to the loaded configuration: `show` changes
/// nothing, `set` edits one key, and the mode commands replace the data
/// location.
pub fn apply_config_action(config: &mut Config, action: ConfigAction) -> (o: ConfigOutcome)
    ensures
        match action {
            ConfigAction::Show => o == ConfigOutcome::Show && *final(config) == *old(config),
            ConfigAction::SetValue { key, value } => set_spec(*old(config), key@, value@, *final(config), o),
            ConfigAction::Remote { server, api_key } => o == ConfigOutcome::Changed
                && mode_view(final(config).database) == (0u8, server@, api_key@)
                && final(config).server == old(config).server && final(config).api_key == old(config).api_key
                && final(config).log == old(config).log && final(config).tui == old(config).tui,
            ConfigAction::Local { db_path } => o == ConfigOutcome::Changed
                && mode_view(final(config).database) == (1u8, db_path@, Seq::<char>::empty())
                && final(config).server == old(config).server && final(config).api_key == old(config).api_key
                && final(config).log == old(config).log && final(config).tui == old(config).tui,
            ConfigAction::Fresh { data_dir } => o == ConfigOutcome::Changed
                && mode_view(final(config).database) == (2u8, data_dir@, Seq::<char>::empty())
                && final(config).server == old(config).server && final(config).api_key == old(config).api_key
                && final(config).log == old(config).log && final(config).tui == old(config).tui,
        },
{
    match action {
        ConfigAction::Show => ConfigOutcome::Show,
        ConfigAction::SetValue { key, value } => config_set(config, key.as_str(), value),
        ConfigAction::Remote { server, api_key } => {
            config.database = DatabaseMode::Remote { server, api_key };
            ConfigOutcome::Changed
        },
        ConfigAction::Local { db_path } => {
            config.database = DatabaseMode::Local { db_path };
            ConfigOutcome::Changed
        },
        ConfigAction::Fresh { data_dir } => {
            config.database = DatabaseMode::Fresh { data_dir };
            ConfigOutcome::Changed
        },
    }
}

// ---------------------------------------------------------------------------
// Display helpers
// ---------------------------------------------------------------------------

/// An API key as shown: its first eight and last four bytes around `...` when
/// longer than twelve bytes, `(未设置)` when empty, `***` otherwise.
pub open spec fn mask_key_spec(key: Seq<char>) -> Seq<char> {
    let b = encode_utf8(key);
    if b.len() > 12 {
        decode_utf8(b.subrange(0, 8)) + "..."@ + decode_utf8(b.subrange(b.len() - 4, b.len() as int))
    } else if b.len() == 0 {
        "(未设置)"@
    } else {
        "***"@
    }
}

/// Masks an API key for display. The cut points must fall between characters.
pub fn mask_key(key: &str) -> (r: String)
    requires
        encode_utf8(key@).len() > 12 ==> is_char_boundary(encode_utf8(key@), 8)
            && is_char_boundary(encode_utf8(key@), encode_utf8(key@).len() - 4),
    ensures
        r@ == mask_key_spec(key@),
{
    let n = key.as_bytes().len();
    if n > 12 {
        let (head, _) = key.split_at(8);
        let (_, tail) = key.split_at(n - 4);
        proof {
            encode_utf8_decode_utf8(head@);
            encode_utf8_decode_utf8(tail@);
        }
        let mut v = to_chars(head);
        extend_str(&mut v, "...");
        extend_str(&mut v, tail);
        from_chars(&v)
    } else if n == 0 {
        String::from_str("(未设置)")
    } else {
        String::from_str("***")
    }
}

/// A text cut to `max_len` bytes: unchanged when it fits, else its first
/// `max_len - 3` bytes and `...`.
pub open spec fn truncate_spec(s: Seq<char>, max_len: nat) -> Seq<char> {
    let b = encode_utf8(s);
    if b.len() <= max_len {
        s
    } else {
        decode_utf8(b.subrange(0, max_len - 3)) + "..."@
    }
}

/// Cuts a text for a table column. Where it is cut, `max_len` is at least 3
/// and the cut falls between characters.
pub fn truncate(s: &str, max_len: usize) -> (r: String)
    requires
        encode_utf8(s@).len() > max_len ==> max_len >= 3 && is_char_boundary(encode_utf8(s@), max_len - 3),
    ensures
        r@ == truncate_spec(s@, max_len as nat),
{
    if s.as_bytes().len() <= max_len {
        String::from_str(s)
    } else {
        let (head, _) = s.split_at(max_len - 3);
        proof {
            encode_utf8_decode_utf8(head@);
        }
        let mut v = to_chars(head);
        extend_str(&mut v, "...");
        from_chars(&v)
    }
}

/// The lines `config show` prints: the mode and its settings (the key
/// masked), then the logging and interface settings.
pub open spec fn show_lines_spec(c: Config) -> Seq<Seq<char>> {
    let mode_lines = match c.database {
        DatabaseMode::Remote { server, api_key } => seq![
            "  模式: 远程 (Remote)"@,
            "  server: "@ + server@,
            "  api_key: "@ + mask_key_spec(api_key@),
        ],
        DatabaseMode::Local { db_path } => seq!["  模式: 寄生 (Local)"@, "  db_path: "@ + db_path@],
        DatabaseMode::Fresh { data_dir } => seq!["  模式: 全新 (Fresh)"@, "  data_dir: "@ + data_dir@],
    };
    seq!["当前配置:"@, Seq::<char>::empty()] + mode_lines + seq![
        Seq::<char>::empty(),
        "  log.output: "@ + c.log.output@,
        "  log.level: "@ + c.log.level@,
        "  tui.theme: "@ + c.tui.theme@,
        "  tui.language: "@ + c.tui.language@,
    ]
}

fn line_of(prefix: &str, value: &str) -> (r: String)
    ensures
        r@ == prefix@ + value@,
{
    let mut v = to_chars(prefix);
    extend_str(&mut v, value);
    from_chars(&v)
}

/// The lines `config show` prints. A long remote key is cut between
/// characters.
pub fn show_lines(c: &Config) -> (r: Vec<String>)
    requires
        c.database matches DatabaseMode::Remote { api_key, .. } ==> (encode_utf8(api_key@).len() > 12
            ==> is_char_boundary(encode_utf8(api_key@), 8) && is_char_boundary(
            encode_utf8(api_key@),
            encode_utf8(api_key@).len() - 4,
        )),
    ensures
        r@.map_values(|l: String| l@) == show_lines_spec(*c),
{
    proof {
        reveal_strlit("");
    }
    let mut v: Vec<String> = Vec::new();
    v.push(String::from_str("当前配置:"));
    v.push(String::new());
    match &c.database {
        DatabaseMode::Remote { server, api_key } => {
            v.push(String::from_str("  模式: 远程 (Remote)"));
            v.push(line_of("  server: ", server.as_str()));
            v.push(line_of("  api_key: ", mask_key(api_key.as_str()).as_str()));
        },
        DatabaseMode::Local { db_path } => {
            v.push(String::from_str("  模式: 寄生 (Local)"));
            v.push(line_of("  db_path: ", db_path.as_str()));
        },
        DatabaseMode::Fresh { data_dir } => {
            v.push(String::from_str("  模式: 全新 (Fresh)"));
            v.push(line_of("  data_dir: ", data_dir.as_str()));
        },
    }
    v.push(String::new());
    v.push(line_of("  log.output: ", c.log.output.as_str()));
    v.push(line_of("  log.level: ", c.log.level.as_str()));
    v.push(line_of("  tui.theme: ", c.tui.theme.as_str()));
    v.push(line_of("  tui.language: ", c.tui.language.as_str()));
    assert(v@.map_values(|l: String| l@) =~= show_lines_spec(*c));
    v
}

} // verus!
