//! Configuration: its settings and their defaults.

use vstd::prelude::*;

verus! {

/// General settings.
#[derive(Debug, Clone)]
pub struct GeneralConfig {
    /// Refresh interval for the tick timer (milliseconds).
    pub refresh_interval_ms: u64,
    /// Whether mouse support is enabled.
    pub mouse_enabled: bool,
    /// External editor command for commit messages.
    pub editor: String,
}

impl Default for GeneralConfig {
    fn default() -> (r: Self)
        ensures
            r.refresh_interval_ms == 250,
            r.mouse_enabled,
            r.editor@ == "vim"@,
    {
        GeneralConfig { refresh_interval_ms: 250, mouse_enabled: true, editor: "vim".to_owned() }
    }
}

/// Theme settings.
#[derive(Debug, Clone)]
pub struct ThemeConfig {
    /// Name of the colour theme.
    pub name: String,
}

impl Default for ThemeConfig {
    fn default() -> (r: Self)
        ensures
            r.name@ == "default"@,
    {
        ThemeConfig { name: "default".to_owned() }
    }
}

/// Diff viewer settings.
#[derive(Debug, Clone)]
pub struct DiffConfig {
    /// Number of context lines around changes.
    pub context_lines: u32,
    /// Default diff display mode: "unified" or "side-by-side".
    pub mode: String,
    /// Enable word-level diff highlighting.
    pub word_diff: bool,
}

impl Default for DiffConfig {
    fn default() -> (r: Self)
        ensures
            r.context_lines == 3,
            r.mode@ == "unified"@,
            r.word_diff,
    {
        DiffConfig { context_lines: 3, mode: "unified".to_owned(), word_diff: true }
    }
}

/// Log / graph settings.
#[derive(Debug, Clone)]
pub struct LogConfig {
    /// Graph style: "rounded", "ascii", or "unicode".
    pub graph_style: String,
    /// Show remote-tracking branches in the log graph.
    pub show_remote_branches: bool,
    /// Maximum number of commits to load.
    pub max_count: usize,
}

impl Default for LogConfig {
    fn default() -> (r: Self)
        ensures
            r.graph_style@ == "rounded"@,
            r.show_remote_branches,
            r.max_count == 500,
    {
        LogConfig { graph_style: "rounded".to_owned(), show_remote_branches: true, max_count: 500 }
    }
}

/// Settings of the commit message assistant.
#[derive(Debug, Clone)]
pub struct AiConfig {
    /// Whether the assistant is enabled.
    pub enabled: bool,
    /// Model to use.
    pub model: String,
}

impl Default for AiConfig {
    fn default() -> (r: Self)
        ensures
            r.enabled,
            r.model@ == "haiku"@,
    {
        AiConfig { enabled: true, model: "haiku".to_owned() }
    }
}

/// Top-level configuration.
#[derive(Debug, Clone)]
pub struct Config {
    pub general: GeneralConfig,
    pub theme: ThemeConfig,
    pub diff: DiffConfig,
    pub log: LogConfig,
    pub ai: AiConfig,
}

/// Whether a configuration holds the default settings.
pub open spec fn is_default_config(c: Config) -> bool {
    &&& c.general.refresh_interval_ms == 250 && c.general.mouse_enabled && c.general.editor@ == "vim"@
    &&& c.theme.name@ == "default"@
    &&& c.diff.context_lines == 3 && c.diff.mode@ == "unified"@ && c.diff.word_diff
    &&& c.log.graph_style@ == "rounded"@ && c.log.show_remote_branches && c.log.max_count == 500
    &&& c.ai.enabled && c.ai.model@ == "haiku"@
}

impl Default for Config {
    fn default() -> (r: Self)
        ensures
            is_default_config(r),
    {
        Config {
            general: GeneralConfig::default(),
            theme: ThemeConfig::default(),
            diff: DiffConfig::default(),
            log: LogConfig::default(),
            ai: AiConfig::default(),
        }
    }
}

/// The configuration to use: the one read from the configuration file,
/// or the defaults when there was none or it could not be read.
pub fn load_config(parsed: Option<Config>) -> (r: Config)
    ensures
        match parsed {
            Some(c) => r == c,
            None => is_default_config(r),
        },
{
    match parsed {
        Some(c) => c,
        None => Config::default(),
    }
}

} // verus!
