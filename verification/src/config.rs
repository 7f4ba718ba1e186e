//! The configuration.
use crate::clipboard::ClipboardAction;
use crate::path::{below, join};
use crate::text::{blank, is_blank, join3};
use vstd::prelude::*;
use vstd::string::*;

verus! {

/// How often the selections are polled unless the configuration says otherwise.
pub const DEFAULT_POLLING_PERIOD_MS: u64 = 1_000;

/// The most entries that the stack may be configured to hold.
pub const MAX_STACK_SIZE: usize = 16;

/// How the applet learns that a selection changed.
#[derive(Clone, Copy, Debug, PartialEq, Eq, Structural)]
pub enum UpdateMethod {
    Events,
    Polling,
}

impl UpdateMethod {
    /// The name of the method in configuration files and logs.
    pub fn name(self) -> (name: &'static str)
        ensures
            name@ == (match self {
                UpdateMethod::Events => "EVENTS"@,
                UpdateMethod::Polling => "POLLING"@,
            }),
    {
        match self {
            Self::Events => "EVENTS",
            Self::Polling => "POLLING",
        }
    }
}

/// The configuration.
#[derive(Debug, PartialEq, Eq)]
pub struct Config {
    pub update_method: UpdateMethod,
    pub polling_period_ms: u64,
    pub hide_content: bool,
    pub notifications: bool,
    pub notify_on_change: bool,
    pub icon_name: String,
    /// The command that starts an editor: a program and its arguments.
    pub editor: Vec<String>,
    pub stack_size: usize,
    pub left_click: ClipboardAction,
    pub middle_click: ClipboardAction,
}

impl Default for Config {
    fn default() -> (config: Self)
        ensures
            config.update_method == UpdateMethod::Events,
            config.polling_period_ms == DEFAULT_POLLING_PERIOD_MS,
            !config.hide_content,
            !config.notifications,
            !config.notify_on_change,
            config.icon_name@ == "edit-paste"@,
            config.editor@.len() == 0,
            config.stack_size == MAX_STACK_SIZE,
            config.left_click == ClipboardAction::CopyPrimary,
            config.middle_click == ClipboardAction::Switch,
            config.valid(),
    {
        let config = Config {
            update_method: UpdateMethod::Events,
            polling_period_ms: DEFAULT_POLLING_PERIOD_MS,
            hide_content: false,
            notifications: false,
            notify_on_change: false,
            icon_name: "edit-paste".to_owned(),
            editor: Vec::new(),
            stack_size: MAX_STACK_SIZE,
            left_click: ClipboardAction::CopyPrimary,
            middle_click: ClipboardAction::Switch,
        };
        proof {
            reveal_strlit("edit-paste");
            assert(config.icon_name@[0] == 'e');
        }
        config
    }
}

impl Config {
    /// Why a configuration is refused, if it is; the first reason that applies.
    pub open spec fn objection(self) -> Option<Seq<char>> {
        if self.polling_period_ms == 0 {
            Some("polling_period_ms must be greater than zero"@)
        } else if blank(self.icon_name@) {
            Some("icon_name must not be empty"@)
        } else if self.editor@.len() > 0 && blank(self.editor@[0]@) {
            Some("editor program must not be empty"@)
        } else if !(1 <= self.stack_size <= MAX_STACK_SIZE) {
            Some("stack_size must be between 1 and 16"@)
        } else {
            None
        }
    }

    /// Whether a configuration can be used.
    pub open spec fn valid(self) -> bool {
        &&& self.polling_period_ms > 0
        &&& !blank(self.icon_name@)
        &&& self.editor@.len() > 0 ==> !blank(self.editor@[0]@)
        &&& 1 <= self.stack_size <= MAX_STACK_SIZE
    }

    fn find_objection(&self) -> (objection: Option<&'static str>)
        ensures
            match self.objection() {
                Some(reason) => objection matches Some(text) && text@ == reason,
                None => objection is None,
            },
    {
        if self.polling_period_ms == 0 {
            Some("polling_period_ms must be greater than zero")
        } else if is_blank(self.icon_name.as_str()) {
            Some("icon_name must not be empty")
        } else if self.editor.len() > 0 && is_blank(self.editor[0].as_str()) {
            Some("editor program must not be empty")
        } else if self.stack_size < 1 || self.stack_size > MAX_STACK_SIZE {
            Some("stack_size must be between 1 and 16")
        } else {
            None
        }
    }
}

/// Accepts a configuration that can be used.
///
/// `parsed` is what the TOML parser made of the file at `path`: the values, or why there are
/// none.
pub fn parse(parsed: Result<Config, String>, path: &str) -> (result: Result<Config, String>)
    ensures
        match parsed {
            Ok(config) => match config.objection() {
                None => result == Ok::<Config, String>(config) && config.valid(),
                Some(reason) => result matches Err(message) && message@ == path@ + ": "@ + reason
                    && !config.valid(),
            },
            Err(error) => result matches Err(message) && message@ == path@ + ": "@ + error@,
        },
{
    let config = match parsed {
        Ok(config) => config,
        Err(error) => return Err(join3(path, ": ", error.as_str())),
    };
    match config.find_objection() {
        Some(reason) => Err(join3(path, ": ", reason)),
        None => Ok(config),
    }
}

/// Where the configuration file is by default: below the configuration directory, which is
/// `.config` below the home directory unless it is set.
pub fn path(xdg_config_home: Option<Vec<u8>>, home: Option<Vec<u8>>) -> (path: Option<Vec<u8>>)
    ensures
        match (xdg_config_home, home) {
            (Some(directory), _) => path matches Some(path) && path@ == below(
                directory@,
                "clipboard-applet/config.toml"@,
            ),
            (None, Some(home)) => path matches Some(path) && path@ == below(
                below(home@, ".config"@),
                "clipboard-applet/config.toml"@,
            ),
            (None, None) => path is None,
        },
{
    let base = match xdg_config_home {
        Some(directory) => directory,
        None => match home {
            Some(home) => join(home, ".config"),
            None => return None,
        },
    };
    Some(join(base, "clipboard-applet/config.toml"))
}

/// Where the configuration comes from.
#[derive(Debug, PartialEq, Eq)]
pub enum ConfigSource {
    /// The built-in defaults.
    Defaults,
    /// A file, which may be missing if `use_default_if_missing`.
    File { path: Vec<u8>, use_default_if_missing: bool },
}

/// Decides where the configuration comes from: the file that was asked for, or the default file
/// if it exists.
pub fn load(
    config_file: Option<Vec<u8>>,
    xdg_config_home: Option<Vec<u8>>,
    home: Option<Vec<u8>>,
) -> (source: ConfigSource)
    ensures
        match (config_file, xdg_config_home, home) {
            (Some(asked), _, _) => source == (ConfigSource::File {
                path: asked,
                use_default_if_missing: false,
            }),
            (None, Some(directory), _) => source matches ConfigSource::File {
                path,
                use_default_if_missing: true,
            } && path@ == below(directory@, "clipboard-applet/config.toml"@),
            (None, None, Some(home)) => source matches ConfigSource::File {
                path,
                use_default_if_missing: true,
            } && path@ == below(below(home@, ".config"@), "clipboard-applet/config.toml"@),
            (None, None, None) => source == ConfigSource::Defaults,
        },
{
    if let Some(path) = config_file {
        return ConfigSource::File { path, use_default_if_missing: false };
    }
    match path(xdg_config_home, home) {
        Some(path) => ConfigSource::File { path, use_default_if_missing: true },
        None => ConfigSource::Defaults,
    }
}

/// How an attempt to read the configuration file ended.
#[derive(Debug, PartialEq, Eq)]
pub enum FileRead {
    Contents(String),
    Failed { not_found: bool, error: String },
}

/// What to do with the configuration file that was read.
#[derive(Debug, PartialEq, Eq)]
pub enum LoadStep {
    /// Parse this text.
    Parse(String),
    /// Use the built-in defaults.
    Defaults,
    /// Give up with this message.
    Fail(String),
}

/// Decides what to do with the configuration file at `path`.
pub fn load_from(read: FileRead, use_default_if_missing: bool, path: &str) -> (step: LoadStep)
    ensures
        match read {
            FileRead::Contents(contents) => step == LoadStep::Parse(contents),
            FileRead::Failed { not_found, error } => if use_default_if_missing && not_found {
                step == LoadStep::Defaults
            } else {
                step matches LoadStep::Fail(message) && message@ == path@ + ": "@ + error@
            },
        },
{
    match read {
        FileRead::Contents(contents) => LoadStep::Parse(contents),
        FileRead::Failed { not_found, error } => if use_default_if_missing && not_found {
            LoadStep::Defaults
        } else {
            LoadStep::Fail(join3(path, ": ", error.as_str()))
        },
    }
}

/// A configuration is refused exactly when it cannot be used.
pub proof fn law_objection_iff_invalid(config: Config)
    ensures
        config.objection() is None <==> config.valid(),
{
}

} // verus!
