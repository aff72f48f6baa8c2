//! The configuration lazyjj reads from jj, and the environment it runs in.
use vstd::prelude::*;

use crate::keybinds::config::KeybindsConfig;

verus! {

/// A terminal color, as the configuration names it.
#[derive(Clone, Copy, Debug, PartialEq, Eq, Structural)]
pub enum Color {
    Reset,
    Black,
    Red,
    Green,
    Yellow,
    Blue,
    Magenta,
    Cyan,
    Gray,
    DarkGray,
    LightRed,
    LightGreen,
    LightYellow,
    LightBlue,
    LightMagenta,
    LightCyan,
    White,
    Rgb(u8, u8, u8),
    Indexed(u8),
}

/// How a change's diff is shown.
#[derive(Clone, Copy, Debug, PartialEq, Eq, Structural)]
pub enum DiffFormat {
    ColorWords,
    Git,
    /// The external diff tool that jj is configured with.
    DiffTool,
    Summary,
    Stat,
}

/// How the main and the details panel are laid out.
#[derive(Clone, Copy, Debug, PartialEq, Eq, Structural)]
pub enum JJLayout {
    Horizontal,
    Vertical,
}


impl DiffFormat {
    /// The next format when the user toggles it: color-words, then git, then
    /// the diff tool if one is configured, then color-words again.
    pub fn get_next(&self, has_diff_tool: bool) -> (r: DiffFormat)
        ensures
            r == match *self {
                DiffFormat::ColorWords => DiffFormat::Git,
                DiffFormat::Git => if has_diff_tool { DiffFormat::DiffTool } else { DiffFormat::ColorWords },
                _ => DiffFormat::ColorWords,
            },
    {
        match self {
            DiffFormat::ColorWords => DiffFormat::Git,
            DiffFormat::Git => {
                if has_diff_tool {
                    DiffFormat::DiffTool
                } else {
                    DiffFormat::ColorWords
                }
            },
            _ => DiffFormat::ColorWords,
        }
    }
}

/// lazyjj's settings, as read from jj's configuration.
#[derive(Debug, Clone)]
pub struct Config {
    pub lazyjj_highlight_color: Option<Color>,
    pub lazyjj_diff_format: Option<DiffFormat>,
    pub lazyjj_bookmark_prefix: Option<String>,
    pub lazyjj_layout: Option<JJLayout>,
    pub lazyjj_layout_percent: Option<u16>,
    pub lazyjj_keybinds: Option<KeybindsConfig>,
    pub ui_diff_format: Option<DiffFormat>,
    /// Whether `ui.diff.tool` is set.
    pub ui_diff_tool: Option<()>,
    pub git_push_bookmark_prefix: Option<String>,
}

impl Default for Config {
    fn default() -> (r: Self)
        ensures
            r.lazyjj_highlight_color is None,
            r.lazyjj_diff_format is None,
            r.lazyjj_bookmark_prefix is None,
            r.lazyjj_layout is None,
            r.lazyjj_layout_percent is None,
            r.lazyjj_keybinds is None,
            r.ui_diff_format is None,
            r.ui_diff_tool is None,
            r.git_push_bookmark_prefix is None,
    {
        Config {
            lazyjj_highlight_color: None,
            lazyjj_diff_format: None,
            lazyjj_bookmark_prefix: None,
            lazyjj_layout: None,
            lazyjj_layout_percent: None,
            lazyjj_keybinds: None,
            ui_diff_format: None,
            ui_diff_tool: None,
            git_push_bookmark_prefix: None,
        }
    }
}

/// The highlight color used when none is configured: `#323264`.
pub open spec fn default_highlight_color() -> Color {
    Color::Rgb(0x32, 0x32, 0x64)
}

impl Config {
    /// The diff format to start with: lazyjj's own setting, else jj's
    /// `ui.diff.format`, else the diff tool if one is set, else color-words.
    pub fn diff_format(&self) -> (r: DiffFormat)
        ensures
            r == match self.lazyjj_diff_format {
                Some(f) => f,
                None => match self.ui_diff_format {
                    Some(f) => f,
                    None => if self.ui_diff_tool is Some { DiffFormat::DiffTool } else { DiffFormat::ColorWords },
                },
            },
    {
        let default = if self.has_diff_tool() {
            DiffFormat::DiffTool
        } else {
            DiffFormat::ColorWords
        };
        match self.lazyjj_diff_format {
            Some(f) => f,
            None => match self.ui_diff_format {
                Some(f) => f,
                None => default,
            },
        }
    }

    /// Whether jj is configured with a diff tool.
    pub fn has_diff_tool(&self) -> (r: bool)
        ensures
            r == self.ui_diff_tool is Some,
    {
        self.ui_diff_tool.is_some()
    }

    /// The color that marks the selection.
    pub fn highlight_color(&self) -> (r: Color)
        ensures
            r == match self.lazyjj_highlight_color {
                Some(c) => c,
                None => default_highlight_color(),
            },
    {
        match self.lazyjj_highlight_color {
            Some(c) => c,
            None => Color::Rgb(0x32, 0x32, 0x64),
        }
    }

    /// The prefix of generated bookmark names: lazyjj's own setting, else
    /// jj's `git.push-bookmark-prefix`, else `push-`.
    pub fn bookmark_prefix(&self) -> (r: String)
        ensures
            r@ == match self.lazyjj_bookmark_prefix {
                Some(p) => p@,
                None => match self.git_push_bookmark_prefix {
                    Some(p) => p@,
                    None => "push-"@,
                },
            },
    {
        match &self.lazyjj_bookmark_prefix {
            Some(p) => p.clone(),
            None => match &self.git_push_bookmark_prefix {
                Some(p) => p.clone(),
                None => "push-".to_owned(),
            },
        }
    }

    /// The layout of the panels; horizontal unless configured.
    pub fn layout(&self) -> (r: JJLayout)
        ensures
            r == match self.lazyjj_layout {
                Some(l) => l,
                None => JJLayout::Horizontal,
            },
    {
        match self.lazyjj_layout {
            Some(l) => l,
            None => JJLayout::Horizontal,
        }
    }

    /// The share of the main panel, in percent; 50 unless configured.
    pub fn layout_percent(&self) -> (r: u16)
        ensures
            r == match self.lazyjj_layout_percent {
                Some(p) => p,
                None => 50,
            },
    {
        match self.lazyjj_layout_percent {
            Some(p) => p,
            None => 50,
        }
    }

    /// The configured key bindings, if any.
    pub fn keybinds(&self) -> (r: Option<&KeybindsConfig>)
        ensures
            r == match &self.lazyjj_keybinds {
                Some(k) => Some(k),
                None => None::<&KeybindsConfig>,
            },
    {
        match &self.lazyjj_keybinds {
            Some(k) => Some(k),
            None => None,
        }
    }
}

/// The `lazyjj` table of jj's configuration.
#[derive(Debug, Clone)]
pub struct JjConfigLazyjj {
    pub highlight_color: Option<Color>,
    pub diff_format: Option<DiffFormat>,
    pub bookmark_prefix: Option<String>,
    pub layout: Option<JJLayout>,
    pub layout_percent: Option<u16>,
    pub keybinds: Option<KeybindsConfig>,
}

/// The `ui.diff` table of jj's configuration.
#[derive(Debug, Clone)]
pub struct JjConfigUiDiff {
    pub format: Option<DiffFormat>,
    /// Whether `tool` is set (its value is not read).
    pub tool: Option<()>,
}

/// The `ui` table of jj's configuration.
#[derive(Debug, Clone)]
pub struct JjConfigUi {
    pub diff: Option<JjConfigUiDiff>,
}

/// The `git` table of jj's configuration.
#[derive(Debug, Clone)]
pub struct JjConfigGit {
    pub push_bookmark_prefix: Option<String>,
}

/// jj's configuration, as nested tables.
#[derive(Debug, Clone)]
pub struct JjConfig {
    pub lazyjj: Option<JjConfigLazyjj>,
    pub ui: Option<JjConfigUi>,
    pub git: Option<JjConfigGit>,
}

/// The diff table of a `ui` table, if any.
pub open spec fn ui_diff(ui: Option<JjConfigUi>) -> Option<JjConfigUiDiff> {
    match ui {
        Some(u) => u.diff,
        None => None,
    }
}

impl Config {
    /// The settings that nested tables of jj's configuration hold.
    pub fn from_jj_config(config: JjConfig) -> (r: Config)
        ensures
            r.lazyjj_highlight_color == (match config.lazyjj { Some(l) => l.highlight_color, None => None }),
            r.lazyjj_diff_format == (match config.lazyjj { Some(l) => l.diff_format, None => None }),
            r.lazyjj_bookmark_prefix == (match config.lazyjj { Some(l) => l.bookmark_prefix, None => None }),
            r.lazyjj_layout == (match config.lazyjj { Some(l) => l.layout, None => None }),
            r.lazyjj_layout_percent == (match config.lazyjj { Some(l) => l.layout_percent, None => None }),
            r.lazyjj_keybinds == (match config.lazyjj { Some(l) => l.keybinds, None => None }),
            r.ui_diff_format == (match ui_diff(config.ui) { Some(d) => d.format, None => None }),
            r.ui_diff_tool == (match ui_diff(config.ui) { Some(d) => d.tool, None => None }),
            r.git_push_bookmark_prefix == (match config.git { Some(g) => g.push_bookmark_prefix, None => None }),
    {
        let (ui_diff_format, ui_diff_tool) = match config.ui {
            Some(ui) => match ui.diff {
                Some(d) => (d.format, d.tool),
                None => (None, None),
            },
            None => (None, None),
        };
        let git_push_bookmark_prefix = match config.git {
            Some(g) => g.push_bookmark_prefix,
            None => None,
        };
        match config.lazyjj {
            Some(l) => Config {
                lazyjj_highlight_color: l.highlight_color,
                lazyjj_diff_format: l.diff_format,
                lazyjj_bookmark_prefix: l.bookmark_prefix,
                lazyjj_layout: l.layout,
                lazyjj_layout_percent: l.layout_percent,
                lazyjj_keybinds: l.keybinds,
                ui_diff_format,
                ui_diff_tool,
                git_push_bookmark_prefix,
            },
            None => Config {
                lazyjj_highlight_color: None,
                lazyjj_diff_format: None,
                lazyjj_bookmark_prefix: None,
                lazyjj_layout: None,
                lazyjj_layout_percent: None,
                lazyjj_keybinds: None,
                ui_diff_format,
                ui_diff_tool,
                git_push_bookmark_prefix,
            },
        }
    }
}

/// Where lazyjj runs: the repository root, the jj binary, the default revset
/// and the settings.
#[derive(Debug, Clone)]
pub struct Env {
    pub config: Config,
    pub root: String,
    pub default_revset: Option<String>,
    pub jj_bin: String,
}

} // verus!
