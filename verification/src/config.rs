//! Where things are, and what the user has set.

use crate::bytes::{copy_bytes, same_bytes, text_bytes};
use crate::failure::{about, message_at, Failure};
use crate::host::{Ask, Fault, FaultKind, Reply, Request};
use crate::paths::{absolute, components_of, file_name, file_name_of, has_parent, is_absolute};
use crate::paths::{join_text, parent, parent_of, same_path, under};
use crate::script::Phase;
use crate::settings::{as_settings, entry_views, names_differ, read_toml, setting_named};
use crate::settings::{setting_views, toml_document, toml_settings, toml_text, write_toml, Setting};
use crate::settings::Value;
use crate::storage::{atomic_save, create_initial_file, Save, SaveMode};
use crate::text::{decode_text, same_text};
use vstd::prelude::*;
use vstd::utf8::{decode_utf8, encode_utf8, valid_utf8};

verus! {

/// Where the repository of the installer is.
pub const ORIGIN: &'static str = "https://github.com/su-ito-lab/eiyah";

// --------------------------------------------------
// Paths
// --------------------------------------------------

/// All places that the installer uses.
#[derive(Clone, Debug, PartialEq, Eq)]
pub struct ResolvedPaths {
    pub config_home: Vec<u8>,
    pub data_home: Vec<u8>,
    pub state_home: Vec<u8>,
    pub cache_home: Vec<u8>,
    /// The installer itself and what it knows of the installation.
    pub eiyah_prefix: Vec<u8>,
    /// The settings of the user.
    pub eiyah_config: Vec<u8>,
    /// The managed Pixi environment.
    pub pixi_home: Vec<u8>,
}

/// The four base directories, which are kept with an installation.
#[derive(Clone, Debug, PartialEq, Eq)]
pub struct InstallMetadata {
    pub config_home: Vec<u8>,
    pub data_home: Vec<u8>,
    pub state_home: Vec<u8>,
    pub cache_home: Vec<u8>,
}

/// The four base directories.
#[verifier::ext_equal]
pub struct Homes {
    pub config_home: Seq<u8>,
    pub data_home: Seq<u8>,
    pub state_home: Seq<u8>,
    pub cache_home: Seq<u8>,
}

/// What the user can set.
#[derive(Clone, Copy, Debug, PartialEq, Eq, Structural)]
pub struct Config {
    /// Whether the status of the CAD servers is shown before the shell is left.
    pub show_cad_status: bool,
}

impl View for InstallMetadata {
    type V = Homes;

    open spec fn view(&self) -> Homes {
        Homes {
            config_home: self.config_home@,
            data_home: self.data_home@,
            state_home: self.state_home@,
            cache_home: self.cache_home@,
        }
    }
}

impl ResolvedPaths {
    /// The base directories.
    pub open spec fn homes(&self) -> Homes {
        Homes {
            config_home: self.config_home@,
            data_home: self.data_home@,
            state_home: self.state_home@,
            cache_home: self.cache_home@,
        }
    }

    /// Whether the other places are where they belong below the base directories.
    pub open spec fn well_placed(&self) -> bool {
        &&& self.eiyah_prefix@ == under(self.data_home@, "eiyah"@)
        &&& self.eiyah_config@ == under(under(self.config_home@, "eiyah"@), "config.toml"@)
        &&& self.pixi_home@ == under(under(self.data_home@, "eiyah"@), "pixi"@)
    }

    /// Whether all places are the same paths.
    pub open spec fn same_places(&self, other: &ResolvedPaths) -> bool {
        &&& components_of(self.config_home@) == components_of(other.config_home@)
        &&& components_of(self.data_home@) == components_of(other.data_home@)
        &&& components_of(self.state_home@) == components_of(other.state_home@)
        &&& components_of(self.cache_home@) == components_of(other.cache_home@)
        &&& components_of(self.eiyah_prefix@) == components_of(other.eiyah_prefix@)
        &&& components_of(self.eiyah_config@) == components_of(other.eiyah_config@)
        &&& components_of(self.pixi_home@) == components_of(other.pixi_home@)
    }

    /// All places, from the base directories.
    pub fn from_homes(
        config_home: Vec<u8>,
        data_home: Vec<u8>,
        state_home: Vec<u8>,
        cache_home: Vec<u8>,
    ) -> (paths: ResolvedPaths)
        ensures
            paths.config_home == config_home,
            paths.data_home == data_home,
            paths.state_home == state_home,
            paths.cache_home == cache_home,
            paths.well_placed(),
    {
        let eiyah_prefix = join_text(&data_home, "eiyah");
        let eiyah_config = join_text(&join_text(&config_home, "eiyah"), "config.toml");
        let pixi_home = join_text(&eiyah_prefix, "pixi");
        ResolvedPaths {
            config_home,
            data_home,
            state_home,
            cache_home,
            eiyah_prefix,
            eiyah_config,
            pixi_home,
        }
    }

    /// All places, from what was kept with an installation.
    pub fn from_install_metadata(metadata: InstallMetadata) -> (result: Result<
        ResolvedPaths,
        Failure,
    >)
        ensures
            match homes_problem(metadata@) {
                Some(words) => result is Err && result->Err_0.says(words),
                None => result is Ok && result->Ok_0.homes() == metadata@
                    && result->Ok_0.well_placed(),
            },
    {
        match metadata.validate() {
            Err(failure) => Err(failure),
            Ok(()) => Ok(
                ResolvedPaths::from_homes(
                    metadata.config_home,
                    metadata.data_home,
                    metadata.state_home,
                    metadata.cache_home,
                ),
            ),
        }
    }

    /// Whether all places are the same paths.
    pub fn same_as(&self, other: &ResolvedPaths) -> (same: bool)
        ensures
            same == self.same_places(other),
    {
        same_path(&self.config_home, &other.config_home) && same_path(
            &self.data_home,
            &other.data_home,
        ) && same_path(&self.state_home, &other.state_home) && same_path(
            &self.cache_home,
            &other.cache_home,
        ) && same_path(&self.eiyah_prefix, &other.eiyah_prefix) && same_path(
            &self.eiyah_config,
            &other.eiyah_config,
        ) && same_path(&self.pixi_home, &other.pixi_home)
    }
}

/// What is wrong with a path that has to be absolute.
pub open spec fn absolute_problem(name: Seq<char>, path: Seq<u8>) -> Option<Seq<char>> {
    if path.len() == 0 {
        Some(name + " must not be empty"@)
    } else if !absolute(path) {
        Some(about(name + " must be an absolute path: "@, path))
    } else {
        None
    }
}

/// What is wrong with the first base directory that is not an absolute path.
pub open spec fn homes_problem(homes: Homes) -> Option<Seq<char>> {
    if absolute_problem("config-home"@, homes.config_home) is Some {
        absolute_problem("config-home"@, homes.config_home)
    } else if absolute_problem("data-home"@, homes.data_home) is Some {
        absolute_problem("data-home"@, homes.data_home)
    } else if absolute_problem("state-home"@, homes.state_home) is Some {
        absolute_problem("state-home"@, homes.state_home)
    } else {
        absolute_problem("cache-home"@, homes.cache_home)
    }
}

/// Checks that a path is absolute.
pub fn validate_absolute_path(name: &str, path: &[u8]) -> (result: Result<(), Failure>)
    ensures
        match absolute_problem(name@, path@) {
            Some(words) => result is Err && result->Err_0.says(words),
            None => result is Ok,
        },
{
    if path.len() == 0 {
        let mut message = name.to_owned();
        message.append(" must not be empty");
        return Err(Failure { message, cause: None });
    }
    if !is_absolute(path) {
        let mut message = name.to_owned();
        message.append(" must be an absolute path: ");
        return Err(Failure::at(&message, path));
    }
    Ok(())
}

impl InstallMetadata {
    /// Checks that every base directory is an absolute path.
    pub fn validate(&self) -> (result: Result<(), Failure>)
        ensures
            match homes_problem(self@) {
                Some(words) => result is Err && result->Err_0.says(words),
                None => result is Ok,
            },
    {
        match validate_absolute_path("config-home", &self.config_home) {
            Err(failure) => {
                return Err(failure);
            },
            Ok(()) => {},
        }
        match validate_absolute_path("data-home", &self.data_home) {
            Err(failure) => {
                return Err(failure);
            },
            Ok(()) => {},
        }
        match validate_absolute_path("state-home", &self.state_home) {
            Err(failure) => {
                return Err(failure);
            },
            Ok(()) => {},
        }
        validate_absolute_path("cache-home", &self.cache_home)
    }

    /// What is kept of the places of an installation.
    pub fn from(paths: &ResolvedPaths) -> (metadata: InstallMetadata)
        ensures
            metadata@ == paths.homes(),
    {
        InstallMetadata {
            config_home: copy_bytes(&paths.config_home),
            data_home: copy_bytes(&paths.data_home),
            state_home: copy_bytes(&paths.state_home),
            cache_home: copy_bytes(&paths.cache_home),
        }
    }
}

/// The places of an installation come back from what was kept of them.
pub proof fn paths_come_back(paths: ResolvedPaths, restored: ResolvedPaths)
    requires
        paths.well_placed(),
        restored.homes() == paths.homes(),
        restored.well_placed(),
    ensures
        restored.same_places(&paths),
        restored.eiyah_prefix@ == paths.eiyah_prefix@,
        restored.eiyah_config@ == paths.eiyah_config@,
        restored.pixi_home@ == paths.pixi_home@,
{
    assert(restored.homes().config_home == paths.homes().config_home);
    assert(restored.homes().data_home == paths.homes().data_home);
    assert(restored.homes().state_home == paths.homes().state_home);
    assert(restored.homes().cache_home == paths.homes().cache_home);
}

/// The environment variables that decide where things are.
#[derive(Debug)]
pub struct Environment {
    pub home: Option<Vec<u8>>,
    pub config_home: Option<Vec<u8>>,
    pub data_home: Option<Vec<u8>>,
    pub state_home: Option<Vec<u8>>,
    pub cache_home: Option<Vec<u8>>,
}

/// What is wrong with a variable that has to hold an absolute path.
pub open spec fn required_problem(name: Seq<char>, value: Option<Vec<u8>>) -> Option<Seq<char>> {
    match value {
        None => Some(name + " is not set"@),
        Some(path) => absolute_problem(name, path@),
    }
}

/// Whether a base directory is taken from the home directory.
pub open spec fn falls_back(value: Option<Vec<u8>>) -> bool {
    value is None || value->0@.len() == 0
}

/// What is wrong with a variable that may hold an absolute path.
pub open spec fn xdg_problem(name: Seq<char>, value: Option<Vec<u8>>) -> Option<Seq<char>> {
    if falls_back(value) {
        None
    } else {
        absolute_problem(name, value->0@)
    }
}

/// The base directory that a variable stands for.
pub open spec fn xdg_home(value: Option<Vec<u8>>, home: Seq<u8>, fallback: Seq<char>) -> Seq<u8> {
    if falls_back(value) {
        under(home, fallback)
    } else {
        value->0@
    }
}

/// What is wrong with the first variable that cannot be used.
pub open spec fn environment_problem(environment: Environment) -> Option<Seq<char>> {
    if required_problem("HOME"@, environment.home) is Some {
        required_problem("HOME"@, environment.home)
    } else if xdg_problem("XDG_CONFIG_HOME"@, environment.config_home) is Some {
        xdg_problem("XDG_CONFIG_HOME"@, environment.config_home)
    } else if xdg_problem("XDG_DATA_HOME"@, environment.data_home) is Some {
        xdg_problem("XDG_DATA_HOME"@, environment.data_home)
    } else if xdg_problem("XDG_STATE_HOME"@, environment.state_home) is Some {
        xdg_problem("XDG_STATE_HOME"@, environment.state_home)
    } else {
        xdg_problem("XDG_CACHE_HOME"@, environment.cache_home)
    }
}

/// The base directories that the environment stands for.
pub open spec fn environment_homes(environment: Environment) -> Homes {
    let home = environment.home->0@;
    Homes {
        config_home: xdg_home(environment.config_home, home, ".config"@),
        data_home: xdg_home(environment.data_home, home, ".local/share"@),
        state_home: xdg_home(environment.state_home, home, ".local/state"@),
        cache_home: xdg_home(environment.cache_home, home, ".cache"@),
    }
}

/// A variable that has to hold an absolute path.
pub fn required_absolute_environment_path(name: &str, value: Option<Vec<u8>>) -> (result: Result<
    Vec<u8>,
    Failure,
>)
    ensures
        match required_problem(name@, value) {
            Some(words) => result is Err && result->Err_0.says(words),
            None => result is Ok && result->Ok_0 == value->0,
        },
{
    match value {
        None => {
            let mut message = name.to_owned();
            message.append(" is not set");
            Err(Failure { message, cause: None })
        },
        Some(path) => match validate_absolute_path(name, &path) {
            Err(failure) => Err(failure),
            Ok(()) => Ok(path),
        },
    }
}

/// The base directory that a variable stands for.
pub fn xdg_path(name: &str, value: Option<Vec<u8>>, home: &[u8], fallback: &str) -> (result: Result<
    Vec<u8>,
    Failure,
>)
    ensures
        match xdg_problem(name@, value) {
            Some(words) => result is Err && result->Err_0.says(words),
            None => result is Ok && result->Ok_0@ == xdg_home(value, home@, fallback@),
        },
{
    match value {
        None => Ok(join_text(home, fallback)),
        Some(path) => if path.len() == 0 {
            Ok(join_text(home, fallback))
        } else {
            match validate_absolute_path(name, &path) {
                Err(failure) => Err(failure),
                Ok(()) => Ok(path),
            }
        },
    }
}

/// The places for a first installation.
pub fn resolve_paths(environment: Environment) -> (result: Result<ResolvedPaths, Failure>)
    ensures
        match environment_problem(environment) {
            Some(words) => result is Err && result->Err_0.says(words),
            None => result is Ok && result->Ok_0.homes() == environment_homes(environment)
                && result->Ok_0.well_placed(),
        },
{
    let home = match required_absolute_environment_path("HOME", environment.home) {
        Err(failure) => {
            return Err(failure);
        },
        Ok(home) => home,
    };
    let config_home = match xdg_path(
        "XDG_CONFIG_HOME",
        environment.config_home,
        &home,
        ".config",
    ) {
        Err(failure) => {
            return Err(failure);
        },
        Ok(path) => path,
    };
    let data_home = match xdg_path("XDG_DATA_HOME", environment.data_home, &home, ".local/share") {
        Err(failure) => {
            return Err(failure);
        },
        Ok(path) => path,
    };
    let state_home = match xdg_path("XDG_STATE_HOME", environment.state_home, &home, ".local/state") {
        Err(failure) => {
            return Err(failure);
        },
        Ok(path) => path,
    };
    let cache_home = match xdg_path("XDG_CACHE_HOME", environment.cache_home, &home, ".cache") {
        Err(failure) => {
            return Err(failure);
        },
        Ok(path) => path,
    };
    Ok(ResolvedPaths::from_homes(config_home, data_home, state_home, cache_home))
}

/// Whether a link target has the form of an installed command: `bin/eiyah` below
/// an absolute directory.
pub open spec fn is_command_target(target: Seq<u8>) -> bool {
    let above = parent_of(target);
    &&& absolute(target)
    &&& has_parent(target)
    &&& file_name_of(target) == Some(encode_utf8("eiyah"@))
    &&& file_name_of(above) == Some(encode_utf8("bin"@))
    &&& has_parent(above)
}

/// The prefix of an installed command.
pub open spec fn command_prefix(target: Seq<u8>) -> Seq<u8> {
    parent_of(parent_of(target))
}

/// Why a link target is not the form of an installed command.
pub open spec fn command_problem(target: Seq<u8>) -> Seq<char> {
    let above = parent_of(target);
    if !absolute(target) {
        about("public entry point symlink target must be absolute: "@, target)
    } else if !has_parent(target) {
        about("public entry point target has no parent: "@, target)
    } else if file_name_of(target) != Some(encode_utf8("eiyah"@)) || file_name_of(above) != Some(
        encode_utf8("bin"@),
    ) {
        about("public entry point target must end with bin/eiyah: "@, target)
    } else {
        about("public entry point target has no Eiyah prefix: "@, target)
    }
}

fn is_named(path: &[u8], name: &str) -> (yes: bool)
    ensures
        yes == (file_name_of(path@) == Some(encode_utf8(name@))),
{
    match file_name(path) {
        Some(found) => same_bytes(&found, &text_bytes(name)),
        None => false,
    }
}

/// Where an installed command keeps what it knows of its installation, by the
/// target of the link to it. Nothing has to exist there.
pub fn discover_install_metadata(entry: &[u8], link: Result<Vec<u8>, Fault>) -> (result: Result<
    Vec<u8>,
    DiscoverError,
>)
    ensures
        match link {
            Err(fault) => result == Err::<Vec<u8>, DiscoverError>(DiscoverError::Unreadable(fault)),
            Ok(target) => if is_command_target(target@) {
                result is Ok && result->Ok_0@ == under(command_prefix(target@), "install.toml"@)
            } else {
                result is Err && result->Err_0 is Shape && result->Err_0->Shape_0.says(
                    command_problem(target@),
                )
            },
        },
{
    let target = match link {
        Err(fault) => {
            return Err(DiscoverError::Unreadable(fault));
        },
        Ok(target) => target,
    };
    if !is_absolute(&target) {
        return Err(
            DiscoverError::Shape(
                Failure::at("public entry point symlink target must be absolute: ", &target),
            ),
        );
    }
    let above = match parent(&target) {
        None => {
            return Err(
                DiscoverError::Shape(
                    Failure::at("public entry point target has no parent: ", &target),
                ),
            );
        },
        Some(above) => above,
    };
    if !is_named(&target, "eiyah") || !is_named(&above, "bin") {
        return Err(
            DiscoverError::Shape(
                Failure::at("public entry point target must end with bin/eiyah: ", &target),
            ),
        );
    }
    match parent(&above) {
        None => Err(
            DiscoverError::Shape(
                Failure::at("public entry point target has no Eiyah prefix: ", &target),
            ),
        ),
        Some(prefix) => Ok(join_text(&prefix, "install.toml")),
    }
}

/// Why the installation that a link leads to was not found.
#[derive(Debug)]
pub enum DiscoverError {
    /// The link could not be read.
    Unreadable(Fault),
    /// The link does not lead to an installed command.
    Shape(Failure),
}

/// Whether a system error says that the installation is not as it should be,
/// rather than that it could not be looked at.
pub open spec fn structural_kind(kind: FaultKind) -> bool {
    match kind {
        FaultKind::NotFound => true,
        FaultKind::InvalidArgument => true,
        FaultKind::InvalidInput => true,
        FaultKind::InvalidData => true,
        FaultKind::AlreadyExists => false,
        FaultKind::Ended => false,
        FaultKind::Other => false,
    }
}

/// Whether a system error says that the installation is not as it should be.
pub fn is_structural_error(kind: FaultKind) -> (yes: bool)
    ensures
        yes == structural_kind(kind),
{
    match kind {
        FaultKind::NotFound => true,
        FaultKind::InvalidArgument => true,
        FaultKind::InvalidInput => true,
        FaultKind::InvalidData => true,
        FaultKind::AlreadyExists => false,
        FaultKind::Ended => false,
        FaultKind::Other => false,
    }
}

impl DiscoverError {
    /// Whether the installation is not as it should be.
    pub open spec fn structural(&self) -> bool {
        match self {
            DiscoverError::Unreadable(fault) => structural_kind(fault.kind),
            DiscoverError::Shape(_) => true,
        }
    }

    /// Whether the installation is not as it should be.
    pub fn is_structural(&self) -> (yes: bool)
        ensures
            yes == self.structural(),
    {
        match self {
            DiscoverError::Unreadable(fault) => is_structural_error(fault.kind),
            DiscoverError::Shape(_) => true,
        }
    }

    /// The error in words.
    pub open spec fn tells(&self, entry: Seq<u8>, failure: Failure) -> bool {
        match self {
            DiscoverError::Unreadable(fault) => failure.blames(
                about("failed to read public entry point symlink: "@, entry),
                fault.text@,
            ),
            DiscoverError::Shape(found) => failure == *found,
        }
    }

    /// The error in words.
    pub fn explain(self, entry: &[u8]) -> (failure: Failure)
        ensures
            self.tells(entry@, failure),
    {
        match self {
            DiscoverError::Unreadable(fault) => Failure::caused_at(
                "failed to read public entry point symlink: ",
                entry,
                &fault.text,
            ),
            DiscoverError::Shape(failure) => failure,
        }
    }
}

// --------------------------------------------------
// Settings
// --------------------------------------------------

/// Why the settings of a document are not the ones that are wanted.
#[derive(Clone, Copy, Debug, PartialEq, Eq, Structural)]
pub enum SchemaError {
    /// A setting has a name that means nothing.
    Unknown,
    /// A setting is missing.
    Missing,
    /// A setting has a value of the wrong type.
    WrongType,
}

/// Why settings were not loaded.
#[derive(Debug)]
pub enum LoadError {
    /// The file could not be read.
    Unreadable(Fault),
    /// The file is not UTF-8.
    NotText,
    /// The file is not TOML.
    Malformed(String),
    /// The settings are not the ones that are wanted.
    Schema(SchemaError),
    /// A path is not absolute.
    Invalid(Failure),
}

impl LoadError {
    /// Whether the installation is not as it should be.
    pub open spec fn structural(&self) -> bool {
        match self {
            LoadError::Unreadable(fault) => structural_kind(fault.kind),
            _ => true,
        }
    }

    /// Whether the installation is not as it should be.
    pub fn is_structural(&self) -> (yes: bool)
        ensures
            yes == self.structural(),
    {
        match self {
            LoadError::Unreadable(fault) => is_structural_error(fault.kind),
            _ => true,
        }
    }

    /// Whether the failure is what is said of a file of this kind that was not
    /// loaded. Of settings that are not the ones that are wanted it is what a reader
    /// that knows the settings has said against them.
    pub open spec fn tells(
        &self,
        what: Seq<char>,
        path: Seq<u8>,
        complaint: Seq<char>,
        failure: Failure,
    ) -> bool {
        let read = about("failed to read "@ + what + ": "@, path);
        let parsed = about("failed to parse "@ + what + ": "@, path);
        match self {
            LoadError::Unreadable(fault) => failure.blames(read, fault.text@),
            LoadError::NotText => failure.blames(read, "stream did not contain valid UTF-8"@),
            LoadError::Malformed(text) => failure.blames(parsed, text@),
            LoadError::Schema(_) => failure.blames(parsed, complaint),
            LoadError::Invalid(found) => failure == *found,
        }
    }

    /// The error in words, for a file of this kind.
    pub fn explain(self, what: &str, path: &[u8], complaint: &str) -> (failure: Failure)
        ensures
            self.tells(what@, path@, complaint@, failure),
    {
        let mut read = "failed to read ".to_owned();
        read.append(what);
        read.append(": ");
        let mut parsed = "failed to parse ".to_owned();
        parsed.append(what);
        parsed.append(": ");
        match self {
            LoadError::Unreadable(fault) => Failure::caused_at(&read, path, &fault.text),
            LoadError::NotText => Failure::caused_at(
                &read,
                path,
                "stream did not contain valid UTF-8",
            ),
            LoadError::Malformed(text) => Failure::caused_at(&parsed, path, &text),
            LoadError::Schema(_) => Failure::caused_at(&parsed, path, complaint),
            LoadError::Invalid(found) => found,
        }
    }
}

pub open spec fn is_config_name(name: Seq<char>) -> bool {
    name == "show-cad-status"@
}

pub open spec fn is_metadata_name(name: Seq<char>) -> bool {
    name == "config-home"@ || name == "data-home"@ || name == "state-home"@ || name == "cache-home"@
}

/// The settings of the user, as the settings of a document.
pub open spec fn config_of(settings: Seq<(Seq<char>, Option<Setting>)>) -> Result<
    Config,
    SchemaError,
> {
    if exists|i: int| 0 <= i < settings.len() && !is_config_name(#[trigger] settings[i].0) {
        Err(SchemaError::Unknown)
    } else {
        match setting_named(settings, "show-cad-status"@) {
            None => Err(SchemaError::Missing),
            Some(Some(Setting::Flag(flag))) => Ok(Config { show_cad_status: flag }),
            Some(_) => Err(SchemaError::WrongType),
        }
    }
}

/// A path among the settings of a document.
pub open spec fn home_of(settings: Seq<(Seq<char>, Option<Setting>)>, name: Seq<char>) -> Result<
    Seq<u8>,
    SchemaError,
> {
    match setting_named(settings, name) {
        None => Err(SchemaError::Missing),
        Some(Some(Setting::Text(text))) => Ok(encode_utf8(text)),
        Some(_) => Err(SchemaError::WrongType),
    }
}

/// What is kept with an installation, as the settings of a document.
pub open spec fn metadata_of(settings: Seq<(Seq<char>, Option<Setting>)>) -> Result<
    Homes,
    SchemaError,
> {
    if exists|i: int| 0 <= i < settings.len() && !is_metadata_name(#[trigger] settings[i].0) {
        Err(SchemaError::Unknown)
    } else {
        let config = home_of(settings, "config-home"@);
        let data = home_of(settings, "data-home"@);
        let state = home_of(settings, "state-home"@);
        let cache = home_of(settings, "cache-home"@);
        if config is Err {
            Err(config->Err_0)
        } else if data is Err {
            Err(data->Err_0)
        } else if state is Err {
            Err(state->Err_0)
        } else if cache is Err {
            Err(cache->Err_0)
        } else {
            Ok(
                Homes {
                    config_home: config->Ok_0,
                    data_home: data->Ok_0,
                    state_home: state->Ok_0,
                    cache_home: cache->Ok_0,
                },
            )
        }
    }
}

/// The first setting with this name.
fn find_setting<'a>(settings: &'a Vec<(String, Option<Value>)>, name: &str) -> (found: Option<
    &'a Option<Value>,
>)
    ensures
        match found {
            Some(value) => setting_named(setting_views(settings@), name@) == Some(
                match value {
                    Some(value) => Some(value@),
                    None => None,
                },
            ),
            None => setting_named(setting_views(settings@), name@) is None,
        },
{
    let ghost all = setting_views(settings@);
    let mut index: usize = 0;
    assert(all.skip(0) =~= all);
    while index < settings.len()
        invariant
            index <= settings.len(),
            all == setting_views(settings@),
            setting_named(all, name@) == setting_named(all.skip(index as int), name@),
        decreases settings.len() - index,
    {
        assert(all.skip(index as int)[0] == all[index as int]);
        assert(all.skip(index as int).drop_first() =~= all.skip(index + 1));
        if same_text(&settings[index].0, name) {
            return Some(&settings[index].1);
        }
        index = index + 1;
    }
    None
}

/// Whether every setting has one of the given names.
fn all_known(settings: &Vec<(String, Option<Value>)>, metadata: bool) -> (known: bool)
    ensures
        metadata ==> known == !(exists|i: int|
            0 <= i < settings@.len() && !is_metadata_name(#[trigger] setting_views(settings@)[i].0)),
        !metadata ==> known == !(exists|i: int|
            0 <= i < settings@.len() && !is_config_name(#[trigger] setting_views(settings@)[i].0)),
{
    let ghost all = setting_views(settings@);
    let mut index: usize = 0;
    while index < settings.len()
        invariant
            index <= settings.len(),
            all == setting_views(settings@),
            metadata ==> forall|i: int| 0 <= i < index ==> is_metadata_name(#[trigger] all[i].0),
            !metadata ==> forall|i: int| 0 <= i < index ==> is_config_name(#[trigger] all[i].0),
        decreases settings.len() - index,
    {
        let name = &settings[index].0;
        assert(all[index as int].0 == name@);
        let fits = if metadata {
            same_text(name, "config-home") || same_text(name, "data-home") || same_text(
                name,
                "state-home",
            ) || same_text(name, "cache-home")
        } else {
            same_text(name, "show-cad-status")
        };
        if !fits {
            return false;
        }
        index = index + 1;
    }
    true
}

fn find_home(settings: &Vec<(String, Option<Value>)>, name: &str) -> (result: Result<
    Vec<u8>,
    SchemaError,
>)
    ensures
        match home_of(setting_views(settings@), name@) {
            Err(error) => result == Err::<Vec<u8>, SchemaError>(error),
            Ok(path) => result is Ok && result->Ok_0@ == path,
        },
{
    match find_setting(settings, name) {
        None => Err(SchemaError::Missing),
        Some(Some(Value::Text(text))) => Ok(text_bytes(text)),
        Some(_) => Err(SchemaError::WrongType),
    }
}

/// The settings of the user that a text holds.
pub open spec fn config_text_of(text: Seq<char>) -> Option<Config> {
    match toml_settings(text) {
        None => None,
        Some(settings) => match config_of(settings) {
            Ok(config) => Some(config),
            Err(_) => None,
        },
    }
}

/// The settings of the user that the bytes of a file hold.
pub open spec fn config_in(bytes: Seq<u8>) -> Option<Config> {
    if valid_utf8(bytes) {
        config_text_of(decode_utf8(bytes))
    } else {
        None
    }
}

/// Whether this is the error of a text that is not a TOML document.
pub open spec fn is_malformed(text: Seq<char>, error: LoadError) -> bool {
    error matches LoadError::Malformed(words) && toml_document(text) == Err::<
        Seq<(Seq<char>, Option<Setting>)>,
        Seq<char>,
    >(words@)
}

/// Reads the settings of the user.
pub fn parse_config(text: &str) -> (result: Result<Config, LoadError>)
    ensures
        match toml_settings(text@) {
            None => result is Err && is_malformed(text@, result->Err_0),
            Some(settings) => match config_of(settings) {
                Err(error) => result == Err::<Config, LoadError>(LoadError::Schema(error)),
                Ok(config) => result == Ok::<Config, LoadError>(config),
            },
        },
{
    let settings = match read_toml(text) {
        Err(words) => {
            return Err(LoadError::Malformed(words));
        },
        Ok(settings) => settings,
    };
    config_from_settings(&settings)
}

/// The settings of the user among the settings of a document.
pub fn config_from_settings(settings: &Vec<(String, Option<Value>)>) -> (result: Result<
    Config,
    LoadError,
>)
    ensures
        match config_of(setting_views(settings@)) {
            Err(error) => result == Err::<Config, LoadError>(LoadError::Schema(error)),
            Ok(config) => result == Ok::<Config, LoadError>(config),
        },
{
    if !all_known(settings, false) {
        return Err(LoadError::Schema(SchemaError::Unknown));
    }
    match find_setting(settings, "show-cad-status") {
        None => Err(LoadError::Schema(SchemaError::Missing)),
        Some(Some(Value::Flag(flag))) => Ok(Config { show_cad_status: *flag }),
        Some(_) => Err(LoadError::Schema(SchemaError::WrongType)),
    }
}

/// Reads what is kept with an installation.
pub fn parse_install_metadata(text: &str) -> (result: Result<InstallMetadata, LoadError>)
    ensures
        match toml_settings(text@) {
            None => result is Err && is_malformed(text@, result->Err_0),
            Some(settings) => match metadata_of(settings) {
                Err(error) => result == Err::<InstallMetadata, LoadError>(LoadError::Schema(error)),
                Ok(homes) => match homes_problem(homes) {
                    Some(words) => result is Err && result->Err_0 is Invalid
                        && result->Err_0->Invalid_0.says(words),
                    None => result is Ok && result->Ok_0@ == homes,
                },
            },
        },
{
    let settings = match read_toml(text) {
        Err(words) => {
            return Err(LoadError::Malformed(words));
        },
        Ok(settings) => settings,
    };
    metadata_from_settings(&settings)
}

/// What is kept with an installation, among the settings of a document.
pub fn metadata_from_settings(settings: &Vec<(String, Option<Value>)>) -> (result: Result<
    InstallMetadata,
    LoadError,
>)
    ensures
        match metadata_of(setting_views(settings@)) {
            Err(error) => result == Err::<InstallMetadata, LoadError>(LoadError::Schema(error)),
            Ok(homes) => match homes_problem(homes) {
                Some(words) => result is Err && result->Err_0 is Invalid
                    && result->Err_0->Invalid_0.says(words),
                None => result is Ok && result->Ok_0@ == homes,
            },
        },
{
    if !all_known(settings, true) {
        return Err(LoadError::Schema(SchemaError::Unknown));
    }
    let config_home = match find_home(settings, "config-home") {
        Err(error) => {
            return Err(LoadError::Schema(error));
        },
        Ok(path) => path,
    };
    let data_home = match find_home(settings, "data-home") {
        Err(error) => {
            return Err(LoadError::Schema(error));
        },
        Ok(path) => path,
    };
    let state_home = match find_home(settings, "state-home") {
        Err(error) => {
            return Err(LoadError::Schema(error));
        },
        Ok(path) => path,
    };
    let cache_home = match find_home(settings, "cache-home") {
        Err(error) => {
            return Err(LoadError::Schema(error));
        },
        Ok(path) => path,
    };
    let metadata = InstallMetadata { config_home, data_home, state_home, cache_home };
    match metadata.validate() {
        Err(failure) => Err(LoadError::Invalid(failure)),
        Ok(()) => Ok(metadata),
    }
}

/// Whether the failure is what is said of settings of the user that were not loaded.
pub open spec fn config_unread(
    contents: Result<Vec<u8>, Fault>,
    complaint: Seq<char>,
    path: Seq<u8>,
    failure: Failure,
) -> bool {
    match contents {
        Err(fault) => LoadError::Unreadable(fault).tells("config"@, path, complaint, failure),
        Ok(bytes) => if !valid_utf8(bytes@) {
            LoadError::NotText.tells("config"@, path, complaint, failure)
        } else {
            match toml_settings(decode_utf8(bytes@)) {
                None => failure.blames(
                    about("failed to parse "@ + "config"@ + ": "@, path),
                    toml_document(decode_utf8(bytes@))->Err_0,
                ),
                Some(settings) => match config_of(settings) {
                    Err(error) => LoadError::Schema(error).tells(
                        "config"@,
                        path,
                        complaint,
                        failure,
                    ),
                    Ok(_) => false,
                },
            }
        },
    }
}

/// Whether base directories lead to these places.
pub open spec fn homes_match(homes: Homes, paths: ResolvedPaths) -> bool {
    &&& components_of(homes.config_home) == components_of(paths.config_home@)
    &&& components_of(homes.data_home) == components_of(paths.data_home@)
    &&& components_of(homes.state_home) == components_of(paths.state_home@)
    &&& components_of(homes.cache_home) == components_of(paths.cache_home@)
    &&& components_of(under(homes.data_home, "eiyah"@)) == components_of(paths.eiyah_prefix@)
    &&& components_of(under(under(homes.config_home, "eiyah"@), "config.toml"@)) == components_of(
        paths.eiyah_config@,
    )
    &&& components_of(under(under(homes.data_home, "eiyah"@), "pixi"@)) == components_of(
        paths.pixi_home@,
    )
}

/// Loads the settings of the user from what reading their file gave.
pub fn load_config(contents: Result<Vec<u8>, Fault>) -> (result: Result<Config, LoadError>)
    ensures
        match contents {
            Err(fault) => result == Err::<Config, LoadError>(LoadError::Unreadable(fault)),
            Ok(bytes) => if !valid_utf8(bytes@) {
                result == Err::<Config, LoadError>(LoadError::NotText)
            } else {
                match toml_settings(decode_utf8(bytes@)) {
                    None => result is Err && is_malformed(decode_utf8(bytes@), result->Err_0),
                    Some(settings) => match config_of(settings) {
                        Err(error) => result == Err::<Config, LoadError>(LoadError::Schema(error)),
                        Ok(config) => result == Ok::<Config, LoadError>(config),
                    },
                }
            },
        },
{
    match contents {
        Err(fault) => Err(LoadError::Unreadable(fault)),
        Ok(bytes) => match decode_text(&bytes) {
            None => Err(LoadError::NotText),
            Some(text) => parse_config(&text),
        },
    }
}

/// The base directories that the bytes of a file hold, as far as they can be used.
pub open spec fn homes_in(bytes: Seq<u8>) -> Option<Homes> {
    if !valid_utf8(bytes) {
        None
    } else {
        match toml_settings(decode_utf8(bytes)) {
            None => None,
            Some(settings) => match metadata_of(settings) {
                Err(_) => None,
                Ok(homes) => if homes_problem(homes) is Some {
                    None
                } else {
                    Some(homes)
                },
            },
        }
    }
}

/// The base directories that were kept with an installation, as far as they can be
/// used.
pub open spec fn read_homes(contents: Result<Vec<u8>, Fault>) -> Option<Homes> {
    match contents {
        Err(_) => None,
        Ok(bytes) => homes_in(bytes@),
    }
}

/// Why the base directories that were kept with an installation cannot be used.
pub open spec fn refuses_homes(contents: Result<Vec<u8>, Fault>, error: LoadError) -> bool {
    match contents {
        Err(fault) => error == LoadError::Unreadable(fault),
        Ok(bytes) => if !valid_utf8(bytes@) {
            error == LoadError::NotText
        } else {
            match toml_settings(decode_utf8(bytes@)) {
                None => is_malformed(decode_utf8(bytes@), error),
                Some(settings) => match metadata_of(settings) {
                    Err(found) => error == LoadError::Schema(found),
                    Ok(homes) => match homes_problem(homes) {
                        Some(words) => error is Invalid && error->Invalid_0.says(words),
                        None => false,
                    },
                },
            }
        },
    }
}

/// Loads what is kept with an installation from what reading its file gave.
pub fn load_install_metadata(contents: Result<Vec<u8>, Fault>) -> (result: Result<
    InstallMetadata,
    LoadError,
>)
    ensures
        match read_homes(contents) {
            Some(homes) => result is Ok && result->Ok_0@ == homes,
            None => result is Err && refuses_homes(contents, result->Err_0),
        },
{
    match contents {
        Err(fault) => Err(LoadError::Unreadable(fault)),
        Ok(bytes) => match decode_text(&bytes) {
            None => Err(LoadError::NotText),
            Some(text) => parse_install_metadata(&text),
        },
    }
}

/// Whether the status of the CAD servers is to be shown, by what reading the file
/// of the settings gave.
pub fn is_show_cad_status_enabled(contents: Result<Vec<u8>, Fault>) -> (result: Result<
    bool,
    LoadError,
>)
    ensures
        match contents {
            Err(fault) => result == Err::<bool, LoadError>(LoadError::Unreadable(fault)),
            Ok(bytes) => if !valid_utf8(bytes@) {
                result == Err::<bool, LoadError>(LoadError::NotText)
            } else {
                match toml_settings(decode_utf8(bytes@)) {
                    None => result is Err && is_malformed(decode_utf8(bytes@), result->Err_0),
                    Some(settings) => match config_of(settings) {
                        Err(error) => result == Err::<bool, LoadError>(LoadError::Schema(error)),
                        Ok(config) => result == Ok::<bool, LoadError>(config.show_cad_status),
                    },
                }
            },
        },
{
    match load_config(contents) {
        Err(error) => Err(error),
        Ok(config) => Ok(config.show_cad_status),
    }
}

/// The settings of the user, to be written.
pub open spec fn config_entries(config: Config) -> Seq<(Seq<char>, Setting)> {
    seq![("show-cad-status"@, Setting::Flag(config.show_cad_status))]
}

/// What is kept with an installation, to be written.
pub open spec fn metadata_entries(homes: Homes) -> Seq<(Seq<char>, Setting)> {
    seq![
        ("config-home"@, Setting::Text(decode_utf8(homes.config_home))),
        ("data-home"@, Setting::Text(decode_utf8(homes.data_home))),
        ("state-home"@, Setting::Text(decode_utf8(homes.state_home))),
        ("cache-home"@, Setting::Text(decode_utf8(homes.cache_home))),
    ]
}

/// Whether all base directories are UTF-8.
pub open spec fn homes_are_text(homes: Homes) -> bool {
    &&& valid_utf8(homes.config_home)
    &&& valid_utf8(homes.data_home)
    &&& valid_utf8(homes.state_home)
    &&& valid_utf8(homes.cache_home)
}

/// The settings of the user come back from the settings that are written.
pub proof fn config_entries_come_back(config: Config)
    ensures
        config_of(as_settings(config_entries(config))) == Ok::<Config, SchemaError>(config),
{
    let settings = as_settings(config_entries(config));
    assert(settings[0] == ("show-cad-status"@, Some(Setting::Flag(config.show_cad_status))));
}

proof fn lemma_metadata_names()
    ensures
        "config-home"@ != "data-home"@,
        "config-home"@ != "state-home"@,
        "config-home"@ != "cache-home"@,
        "data-home"@ != "state-home"@,
        "data-home"@ != "cache-home"@,
        "state-home"@ != "cache-home"@,
{
    reveal_strlit("config-home");
    reveal_strlit("data-home");
    reveal_strlit("state-home");
    reveal_strlit("cache-home");
    assert("config-home"@.len() == 11);
    assert("data-home"@.len() == 9);
    assert("state-home"@.len() == 10);
    assert("cache-home"@.len() == 10);
    assert("state-home"@[0] != "cache-home"@[0]);
}

/// What is kept with an installation comes back from the settings that are written.
pub proof fn metadata_entries_come_back(homes: Homes)
    requires
        homes_are_text(homes),
    ensures
        names_differ(metadata_entries(homes)),
        metadata_of(as_settings(metadata_entries(homes))) == Ok::<Homes, SchemaError>(homes),
{
    broadcast use vstd::utf8::decode_utf8_encode_utf8;

    lemma_metadata_names();
    let settings = as_settings(metadata_entries(homes));
    assert(settings.len() == 4);
    assert(settings[0] == ("config-home"@, Some(Setting::Text(decode_utf8(homes.config_home)))));
    assert(settings[1] == ("data-home"@, Some(Setting::Text(decode_utf8(homes.data_home)))));
    assert(settings[2] == ("state-home"@, Some(Setting::Text(decode_utf8(homes.state_home)))));
    assert(settings[3] == ("cache-home"@, Some(Setting::Text(decode_utf8(homes.cache_home)))));
    reveal_with_fuel(setting_named, 5);
    assert(settings.drop_first()[0] == settings[1]);
    assert(settings.drop_first().drop_first()[0] == settings[2]);
    assert(settings.drop_first().drop_first().drop_first()[0] == settings[3]);
    assert(metadata_of(settings) is Ok);
    assert(metadata_of(settings)->Ok_0 =~= homes);
}

/// The settings of the user as a TOML document. Reading it gives back the settings.
pub fn render_config(config: &Config) -> (result: Result<String, Failure>)
    ensures
        result is Ok,
        result->Ok_0@ == toml_text(config_entries(*config)),
        config_text_of(result->Ok_0@) == Some(*config),
{
    let mut entries: Vec<(String, Value)> = Vec::new();
    entries.push(("show-cad-status".to_owned(), Value::Flag(config.show_cad_status)));
    assert(entry_views(entries@) =~= config_entries(*config));
    proof {
        config_entries_come_back(*config);
    }
    match write_toml(entries) {
        Ok(text) => Ok(text),
        Err(error) => Err(Failure::caused("failed to serialize config", &error.to_string())),
    }
}

/// What is kept with an installation as a TOML document. Reading it gives back the
/// base directories.
pub fn render_install_metadata(metadata: &InstallMetadata) -> (result: Result<String, Failure>)
    ensures
        !homes_are_text(metadata@) ==> result is Err && result->Err_0.blames(
            "failed to serialize installation metadata"@,
            "path contains invalid UTF-8 characters"@,
        ),
        homes_are_text(metadata@) ==> result is Ok && result->Ok_0@ == toml_text(
            metadata_entries(metadata@),
        ),
        result is Ok ==> toml_settings(result->Ok_0@) is Some && metadata_of(
            toml_settings(result->Ok_0@)->0,
        ) == Ok::<Homes, SchemaError>(metadata@),
{
    match (
        decode_text(&metadata.config_home),
        decode_text(&metadata.data_home),
        decode_text(&metadata.state_home),
        decode_text(&metadata.cache_home),
    ) {
        (Some(config), Some(data), Some(state), Some(cache)) => {
            let mut entries: Vec<(String, Value)> = Vec::new();
            entries.push(("config-home".to_owned(), Value::Text(config)));
            entries.push(("data-home".to_owned(), Value::Text(data)));
            entries.push(("state-home".to_owned(), Value::Text(state)));
            entries.push(("cache-home".to_owned(), Value::Text(cache)));
            assert(entry_views(entries@) =~= metadata_entries(metadata@));
            proof {
                metadata_entries_come_back(metadata@);
            }
            match write_toml(entries) {
                Ok(text) => Ok(text),
                Err(error) => Err(
                    Failure::caused(
                        "failed to serialize installation metadata",
                        &error.to_string(),
                    ),
                ),
            }
        },
        _ => Err(
            Failure::caused(
                "failed to serialize installation metadata",
                "path contains invalid UTF-8 characters",
            ),
        ),
    }
}

/// Whether a save writes this text to this path.
pub open spec fn saves(save: Save, mode: SaveMode, path: Seq<u8>, text: Seq<char>) -> bool {
    &&& save.valid()
    &&& save.mode == mode
    &&& save.target@ == path
    &&& save.contents@ == encode_utf8(text)
    &&& save.tries == 1
    &&& save.script.phase == (Phase::Running { position: 0, created: None })
}

/// Prepares saving the settings of the user. Loading what is saved gives them back.
pub fn save_config(path: &[u8], config: &Config, process: u64, sequence: u64) -> (result: Result<
    Save,
    Failure,
>)
    ensures
        result is Ok,
        saves(result->Ok_0, SaveMode::Replace, path@, toml_text(config_entries(*config))),
        result->Ok_0.process == process,
        result->Ok_0.sequence == sequence,
        config_in(result->Ok_0.contents@) == Some(*config),
{
    broadcast use {vstd::utf8::encode_utf8_valid_utf8, vstd::utf8::encode_utf8_decode_utf8};

    match render_config(config) {
        Err(failure) => Err(failure),
        Ok(text) => Ok(atomic_save(path, &text_bytes(&text), process, sequence)),
    }
}

/// What keeps the base directories from being kept with an installation.
pub open spec fn keep_problem(homes: Homes) -> bool {
    homes_problem(homes) is Some || !homes_are_text(homes)
}

fn metadata_contents(paths: &ResolvedPaths) -> (result: Result<Vec<u8>, Failure>)
    ensures
        result is Err <==> keep_problem(paths.homes()),
        homes_problem(paths.homes()) is Some ==> result is Err && result->Err_0.says(
            homes_problem(paths.homes())->0,
        ),
        homes_problem(paths.homes()) is None && result is Err ==> result->Err_0.blames(
            "failed to serialize installation metadata"@,
            "path contains invalid UTF-8 characters"@,
        ),
        result is Ok ==> result->Ok_0@ == encode_utf8(toml_text(metadata_entries(paths.homes()))),
        result is Ok ==> homes_in(result->Ok_0@) == Some(paths.homes()),
{
    broadcast use {vstd::utf8::encode_utf8_valid_utf8, vstd::utf8::encode_utf8_decode_utf8};

    let metadata = InstallMetadata::from(paths);
    match metadata.validate() {
        Err(failure) => {
            return Err(failure);
        },
        Ok(()) => {},
    }
    match render_install_metadata(&metadata) {
        Err(failure) => Err(failure),
        Ok(text) => Ok(text_bytes(&text)),
    }
}

/// Whether what is kept with an installation is about to be saved, or why it cannot be.
/// Loading what is saved gives back the base directories.
pub open spec fn metadata_saved(
    paths: ResolvedPaths,
    mode: SaveMode,
    process: u64,
    sequence: u64,
    result: Result<Save, Failure>,
) -> bool {
    match homes_problem(paths.homes()) {
        Some(words) => result is Err && result->Err_0.says(words),
        None => if !homes_are_text(paths.homes()) {
            result is Err && result->Err_0.blames(
                "failed to serialize installation metadata"@,
                "path contains invalid UTF-8 characters"@,
            )
        } else {
            &&& result is Ok
            &&& saves(
                result->Ok_0,
                mode,
                under(paths.eiyah_prefix@, "install.toml"@),
                toml_text(metadata_entries(paths.homes())),
            )
            &&& result->Ok_0.process == process
            &&& result->Ok_0.sequence == sequence
            &&& homes_in(result->Ok_0.contents@) == Some(paths.homes())
        },
    }
}

/// Prepares saving what is kept with an installation.
pub fn save_install_metadata(paths: &ResolvedPaths, process: u64, sequence: u64) -> (result: Result<
    Save,
    Failure,
>)
    ensures
        metadata_saved(*paths, SaveMode::Replace, process, sequence, result),
{
    match metadata_contents(paths) {
        Err(failure) => Err(failure),
        Ok(contents) => Ok(
            atomic_save(
                &join_text(&paths.eiyah_prefix, "install.toml"),
                &contents,
                process,
                sequence,
            ),
        ),
    }
}

/// Prepares creating what is kept with an installation, where there is none yet.
pub fn create_install_metadata(paths: &ResolvedPaths, process: u64, sequence: u64) -> (result: Result<
    Save,
    Failure,
>)
    ensures
        metadata_saved(*paths, SaveMode::Initial, process, sequence, result),
{
    match metadata_contents(paths) {
        Err(failure) => Err(failure),
        Ok(contents) => Ok(
            create_initial_file(
                &join_text(&paths.eiyah_prefix, "install.toml"),
                &contents,
                process,
                sequence,
            ),
        ),
    }
}

/// Whether the first settings of the user are about to be saved. Loading what is saved
/// gives them back.
pub open spec fn initial_config_saved(
    paths: ResolvedPaths,
    process: u64,
    sequence: u64,
    result: Result<Save, Failure>,
) -> bool {
    &&& result is Ok
    &&& saves(
        result->Ok_0,
        SaveMode::Initial,
        paths.eiyah_config@,
        toml_text(config_entries(Config { show_cad_status: true })),
    )
    &&& result->Ok_0.process == process
    &&& result->Ok_0.sequence == sequence
    &&& config_in(result->Ok_0.contents@) == Some(Config { show_cad_status: true })
}

/// Prepares creating the settings of the user, where there are none yet. The status
/// of the CAD servers is shown.
pub fn create_initial_config(paths: &ResolvedPaths, process: u64, sequence: u64) -> (result: Result<
    Save,
    Failure,
>)
    ensures
        initial_config_saved(*paths, process, sequence, result),
{
    broadcast use {vstd::utf8::encode_utf8_valid_utf8, vstd::utf8::encode_utf8_decode_utf8};

    match render_config(&Config { show_cad_status: true }) {
        Err(failure) => Err(
            Failure {
                message: "failed to serialize initial config".to_owned(),
                cause: failure.cause,
            },
        ),
        Ok(text) => Ok(
            create_initial_file(&paths.eiyah_config, &text_bytes(&text), process, sequence),
        ),
    }
}

// --------------------------------------------------
// Changing a setting
// --------------------------------------------------

/// What is said when another operation holds the lock.
pub const BUSY_MESSAGE: &'static str = "another Eiyah operation is already running.";

/// Why a setting was not changed.
#[derive(Debug)]
pub enum ChangeProblem {
    /// The lock was not taken.
    Lock(Fault),
    /// The settings could not be loaded.
    Load,
    /// The settings could not be saved.
    Save,
}

/// How far the change of a setting has come.
#[derive(Debug)]
pub enum ChangePhase {
    Lock,
    Read,
    Save { contents: Vec<u8> },
    Changed,
    Failed(ChangeProblem),
}

/// The change of a setting.
#[derive(Debug)]
pub struct ConfigChange {
    pub state_home: Vec<u8>,
    pub path: Vec<u8>,
    pub enabled: bool,
    pub phase: ChangePhase,
}

/// Whether `next` is the phase that follows a reply.
pub open spec fn change_follows(
    enabled: bool,
    phase: ChangePhase,
    reply: Reply,
    next: ChangePhase,
) -> bool {
    match phase {
        ChangePhase::Lock => match reply {
            Reply::Done => next == ChangePhase::Read,
            Reply::Failed(fault) => next == ChangePhase::Failed(ChangeProblem::Lock(fault)),
            _ => next == ChangePhase::Failed(ChangeProblem::Load),
        },
        ChangePhase::Read => match reply {
            Reply::Contents(contents) => if config_in(contents@) is None {
                next == ChangePhase::Failed(ChangeProblem::Load)
            } else {
                next is Save && next->contents@ == encode_utf8(
                    toml_text(config_entries(Config { show_cad_status: enabled })),
                ) && config_in(next->contents@) == Some(Config { show_cad_status: enabled })
            },
            _ => next == ChangePhase::Failed(ChangeProblem::Load),
        },
        ChangePhase::Save { .. } => match reply {
            Reply::Done => next == ChangePhase::Changed,
            _ => next == ChangePhase::Failed(ChangeProblem::Save),
        },
        ChangePhase::Changed => next == phase,
        ChangePhase::Failed(_) => next == phase,
    }
}

/// Prepares switching the display of the status of the CAD servers on or off. The
/// settings are read and saved while the lock is held.
pub fn set_show_cad_status(paths: &ResolvedPaths, enabled: bool) -> (change: ConfigChange)
    ensures
        change.state_home@ == paths.state_home@,
        change.path@ == paths.eiyah_config@,
        change.enabled == enabled,
        change.phase == ChangePhase::Lock,
{
    ConfigChange {
        state_home: copy_bytes(&paths.state_home),
        path: copy_bytes(&paths.eiyah_config),
        enabled,
        phase: ChangePhase::Lock,
    }
}

impl ConfigChange {
    /// The request that the change waits for.
    pub open spec fn asks(&self) -> Ask {
        match self.phase {
            ChangePhase::Lock => Ask::Lock(self.state_home@),
            ChangePhase::Read => Ask::Read(self.path@),
            ChangePhase::Save { contents } => Ask::SaveFile {
                path: self.path@,
                contents: contents@,
            },
            ChangePhase::Changed => Ask::Nothing,
            ChangePhase::Failed(_) => Ask::Nothing,
        }
    }

    /// The request that the change waits for.
    pub fn request(&self) -> (request: Request)
        ensures
            request@ == self.asks(),
    {
        match &self.phase {
            ChangePhase::Lock => Request::Lock(copy_bytes(&self.state_home)),
            ChangePhase::Read => Request::Read(copy_bytes(&self.path)),
            ChangePhase::Save { contents } => Request::SaveFile {
                path: copy_bytes(&self.path),
                contents: copy_bytes(contents),
            },
            ChangePhase::Changed => Request::Nothing,
            ChangePhase::Failed(_) => Request::Nothing,
        }
    }

    /// Goes on with the reply to the request.
    pub fn advance(self, reply: Reply) -> (next: ConfigChange)
        ensures
            next.state_home == self.state_home,
            next.path == self.path,
            next.enabled == self.enabled,
            change_follows(self.enabled, self.phase, reply, next.phase),
    {
        broadcast use {vstd::utf8::encode_utf8_valid_utf8, vstd::utf8::encode_utf8_decode_utf8};

        let phase = match self.phase {
            ChangePhase::Lock => match reply {
                Reply::Done => ChangePhase::Read,
                Reply::Failed(fault) => ChangePhase::Failed(ChangeProblem::Lock(fault)),
                _ => ChangePhase::Failed(ChangeProblem::Load),
            },
            ChangePhase::Read => match reply {
                Reply::Contents(contents) => match load_config(Ok(contents)) {
                    Err(_) => ChangePhase::Failed(ChangeProblem::Load),
                    Ok(_) => match render_config(&Config { show_cad_status: self.enabled }) {
                        Err(_) => ChangePhase::Failed(ChangeProblem::Save),
                        Ok(text) => ChangePhase::Save { contents: text_bytes(&text) },
                    },
                },
                _ => ChangePhase::Failed(ChangeProblem::Load),
            },
            ChangePhase::Save { .. } => match reply {
                Reply::Done => ChangePhase::Changed,
                _ => ChangePhase::Failed(ChangeProblem::Save),
            },
            ChangePhase::Changed => ChangePhase::Changed,
            ChangePhase::Failed(problem) => ChangePhase::Failed(problem),
        };
        ConfigChange { state_home: self.state_home, path: self.path, enabled: self.enabled, phase }
    }

    /// What is said of a problem.
    pub open spec fn words(&self, problem: ChangeProblem) -> Seq<char> {
        about("failed to update Eiyah config: "@, self.path@) + ": "@ + match problem {
            ChangeProblem::Lock(fault) => if fault.text@ == BUSY_MESSAGE@ {
                fault.text@
            } else {
                "exclusive access could not be acquired"@
            },
            ChangeProblem::Load => "the config could not be read or parsed"@,
            ChangeProblem::Save => "the config changes could not be saved"@,
        }
    }

    /// What came of the change; nothing while it is under way.
    pub fn outcome(&self) -> (outcome: Option<Result<(), Failure>>)
        ensures
            match self.phase {
                ChangePhase::Changed => outcome == Some(Ok::<(), Failure>(())),
                ChangePhase::Failed(problem) => outcome is Some && outcome->0 is Err
                    && outcome->0->Err_0.says(self.words(problem)),
                _ => outcome is None,
            },
    {
        match &self.phase {
            ChangePhase::Changed => Some(Ok(())),
            ChangePhase::Failed(problem) => {
                let detail = match problem {
                    ChangeProblem::Lock(fault) => if same_text(&fault.text, BUSY_MESSAGE) {
                        fault.text.clone()
                    } else {
                        "exclusive access could not be acquired".to_owned()
                    },
                    ChangeProblem::Load => "the config could not be read or parsed".to_owned(),
                    ChangeProblem::Save => "the config changes could not be saved".to_owned(),
                };
                Some(Err(config_update_error(&self.path, &detail)))
            },
            _ => None,
        }
    }
}

/// The failure to change the settings.
pub fn config_update_error(path: &[u8], detail: &str) -> (failure: Failure)
    ensures
        failure.says(about("failed to update Eiyah config: "@, path@) + ": "@ + detail@),
{
    let mut message = message_at("failed to update Eiyah config: ", path);
    message.append(": ");
    message.append(detail);
    Failure { message, cause: None }
}

/// A setting is saved only after the lock was taken and the settings were loaded,
/// and loading what is saved gives the new value.
pub proof fn settings_change_under_the_lock(
    enabled: bool,
    phase: ChangePhase,
    reply: Reply,
    next: ChangePhase,
)
    requires
        change_follows(enabled, phase, reply, next),
    ensures
        (!(phase is Read) && next is Read) ==> phase is Lock && reply == Reply::Done,
        (!(phase is Save) && next is Save) ==> phase is Read && (reply matches Reply::Contents(contents)
            && config_in(contents@) is Some) && config_in(next->contents@) == Some(
            Config { show_cad_status: enabled },
        ),
        (!(phase is Changed) && next is Changed) ==> phase is Save && reply == Reply::Done,
{
}

} // verus!
