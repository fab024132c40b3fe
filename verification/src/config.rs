//! Configuration of the picture frame: where it is looked for, which of the
//! places wins, and where the photos are.
//!
//! The library reads no file. The host looks at each place and reports what it
//! found as a [`ConfigProbe`]; [`FrameConfig::load`] decides between them.

use std::path::Path;
use vstd::prelude::*;
use vstd::string::StringExecFns;

verus! {

/// Whether `path` is relative, as `std::path::Path::is_relative` tells it on
/// the platform that the library is built for.
pub uninterp spec fn path_is_relative(path: Seq<char>) -> bool;

/// `path` adjoined to `base`, as `std::path::Path::join` builds it on the
/// platform that the library is built for.
pub uninterp spec fn path_joined(base: Seq<char>, path: Seq<char>) -> Seq<char>;

/// Calls `std::path::Path::is_relative` on the path that `path` spells.
///
/// Trusted: the result is the named function `path_is_relative` of the text.
#[verifier::external_body]
fn is_relative(path: &str) -> (relative: bool)
    ensures
        relative == path_is_relative(path@),
{
    Path::new(path).is_relative()
}

/// Calls `std::path::Path::join` on the paths that `base` and `path` spell.
///
/// Trusted: the result is the named function `path_joined` of the two texts.
/// Both paths are valid Unicode, and so is what is made of them.
#[verifier::external_body]
fn join(base: &str, path: &str) -> (joined: String)
    ensures
        joined@ == path_joined(base@, path@),
{
    Path::new(base).join(path).to_string_lossy().into_owned()
}

/// Settings of the picture frame.
#[derive(Debug)]
pub struct FrameConfig {
    /// Base directory where photos are located.
    pub photos_directory: String,
}

impl View for FrameConfig {
    type V = Seq<char>;

    open spec fn view(&self) -> Seq<char> {
        self.photos_directory@
    }
}

impl Clone for FrameConfig {
    fn clone(&self) -> (copy: Self)
        ensures
            copy@ == self@,
    {
        FrameConfig { photos_directory: self.photos_directory.clone() }
    }
}

impl Default for FrameConfig {
    fn default() -> (config: Self)
        ensures
            config@ == "images"@,
    {
        FrameConfig { photos_directory: String::from_str("images") }
    }
}

/// Why a configuration file that exists gave no configuration.
#[derive(Debug)]
pub enum ConfigError {
    /// The file at `path` could not be read.
    ReadFailed { path: String, cause: String },
    /// What the file at `path` holds is no configuration.
    ParseFailed { path: String, cause: String },
}

/// A [`ConfigError`] with its texts as sequences of characters.
pub enum ConfigErrorView {
    ReadFailed { path: Seq<char>, cause: Seq<char> },
    ParseFailed { path: Seq<char>, cause: Seq<char> },
}

impl View for ConfigError {
    type V = ConfigErrorView;

    open spec fn view(&self) -> ConfigErrorView {
        match self {
            ConfigError::ReadFailed { path, cause } => ConfigErrorView::ReadFailed {
                path: path@,
                cause: cause@,
            },
            ConfigError::ParseFailed { path, cause } => ConfigErrorView::ParseFailed {
                path: path@,
                cause: cause@,
            },
        }
    }
}

/// What the host found at one place where a configuration file may lie.
#[derive(Debug)]
pub enum ConfigProbe {
    /// There is no file.
    Missing,
    /// There is a file, and it holds this configuration.
    Found(FrameConfig),
    /// There is a file, and it gave no configuration.
    Failed(ConfigError),
}

/// A [`ConfigProbe`] with its texts as sequences of characters.
pub enum ProbeView {
    Missing,
    Found(Seq<char>),
    Failed(ConfigErrorView),
}

impl View for ConfigProbe {
    type V = ProbeView;

    open spec fn view(&self) -> ProbeView {
        match self {
            ConfigProbe::Missing => ProbeView::Missing,
            ConfigProbe::Found(config) => ProbeView::Found(config@),
            ConfigProbe::Failed(error) => ProbeView::Failed(error@),
        }
    }
}

/// The configuration that is in force, or the failure that stands in its way.
pub type LoadedView = Result<Seq<char>, ConfigErrorView>;

/// The outcome of a load.
pub open spec fn loaded_view(loaded: Result<FrameConfig, ConfigError>) -> LoadedView {
    match loaded {
        Ok(config) => Ok(config@),
        Err(error) => Err(error@),
    }
}

/// The file in the current directory wins over the one in the home directory;
/// the first file that exists decides, also where it fails; without a file
/// the defaults hold.
pub open spec fn chosen(current_dir: ProbeView, home: ProbeView) -> LoadedView {
    match current_dir {
        ProbeView::Found(directory) => Ok(directory),
        ProbeView::Failed(error) => Err(error),
        ProbeView::Missing => match home {
            ProbeView::Found(directory) => Ok(directory),
            ProbeView::Failed(error) => Err(error),
            ProbeView::Missing => Ok("images"@),
        },
    }
}

/// The place of the configuration file under the home directory `home`.
pub open spec fn home_config_location(home: Seq<char>) -> Seq<char> {
    path_joined(path_joined(home, ".picture-frame-ui"@), "frame-config.json"@)
}

/// Where the photos are: a relative photos directory is taken from the
/// current directory, or from `.` where that is not known; an absolute one
/// stands as it is.
pub open spec fn photos_location(
    photos_directory: Seq<char>,
    current_dir: Option<Seq<char>>,
) -> Seq<char> {
    if path_is_relative(photos_directory) {
        path_joined(
            match current_dir {
                Some(directory) => directory,
                None => "."@,
            },
            photos_directory,
        )
    } else {
        photos_directory
    }
}

impl FrameConfig {
    /// The name of the configuration file, which is also its place in the
    /// current directory.
    pub fn config_file_name() -> (name: &'static str)
        ensures
            name@ == "frame-config.json"@,
    {
        "frame-config.json"
    }

    /// The place of the configuration file under the home directory `home`.
    pub fn home_config_path(home: &str) -> (path: String)
        ensures
            path@ == home_config_location(home@),
    {
        let directory = join(home, ".picture-frame-ui");
        join(directory.as_str(), Self::config_file_name())
    }

    /// The configuration in force, given what was found in the current
    /// directory and under the home directory.
    pub fn load(current_dir: ConfigProbe, home: ConfigProbe) -> (loaded: Result<Self, ConfigError>)
        ensures
            loaded_view(loaded) == chosen(current_dir@, home@),
    {
        match current_dir {
            ConfigProbe::Found(config) => Ok(config),
            ConfigProbe::Failed(error) => Err(error),
            ConfigProbe::Missing => match home {
                ConfigProbe::Found(config) => Ok(config),
                ConfigProbe::Failed(error) => Err(error),
                ConfigProbe::Missing => Ok(FrameConfig::default()),
            },
        }
    }

    /// The absolute path to the photos directory, where `current_dir` is the
    /// current directory of the process, if it is known.
    pub fn get_photos_path(&self, current_dir: Option<&str>) -> (path: String)
        ensures
            path@ == photos_location(
                self@,
                match current_dir {
                    Some(directory) => Some(directory@),
                    None => None,
                },
            ),
    {
        if is_relative(self.photos_directory.as_str()) {
            let base = match current_dir {
                Some(directory) => directory,
                None => ".",
            };
            join(base, self.photos_directory.as_str())
        } else {
            self.photos_directory.clone()
        }
    }
}

} // verus!
