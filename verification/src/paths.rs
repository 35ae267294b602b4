//! The directories the application keeps its files in.
//!
//! Each directory is set once, when the application starts, from what the
//! platform reports; afterwards it is only read.
use std::path::PathBuf;
use vstd::prelude::*;

verus! {

/// A path of std; its value is only carried here, never looked into.
#[verifier::external_type_specification]
#[verifier::external_body]
pub struct ExPathBuf(std::path::PathBuf);

/// The path that `std::path::PathBuf::push` makes of `path` and
/// `component`, on the platform the crate is built for.
pub uninterp spec fn pushed(path: PathBuf, component: Seq<char>) -> PathBuf;

/// Whether `std::path::Path::is_absolute` holds of `path`, on the platform
/// the crate is built for.
pub uninterp spec fn absolute(path: PathBuf) -> bool;

/// `std::path::PathBuf::push`: extends `path` with `component`. The result
/// is `pushed` of the path before and the component; how a component is
/// joined on is left to std.
#[verifier::external_body]
fn push_component(path: &mut PathBuf, component: &str)
    ensures
        *final(path) == pushed(*old(path), component@),
{
    path.push(component);
}

/// `std::path::Path::is_absolute` of `path`, named `absolute`.
#[verifier::external_body]
fn is_absolute(path: &PathBuf) -> (r: bool)
    ensures
        r == absolute(*path),
{
    path.is_absolute()
}

/// The directories of the application, each unset until `init` sets it.
pub struct AppDirs {
    home: Option<PathBuf>,
    cache: Option<PathBuf>,
    config: Option<PathBuf>,
    local_data: Option<PathBuf>,
    runtime: Option<PathBuf>,
}

/// What the platform reports: its directories of each kind, `None` where it
/// has none, and its directory for temporary files.
pub struct DirsFound {
    pub home: Option<PathBuf>,
    pub cache: Option<PathBuf>,
    pub config: Option<PathBuf>,
    pub data_local: Option<PathBuf>,
    pub runtime: Option<PathBuf>,
    pub temp: PathBuf,
}

/// A directory that the platform must report.
#[derive(Clone, Copy, Debug, PartialEq, Eq, Structural)]
pub enum RequiredDir {
    Home,
    Cache,
    Config,
    LocalData,
}

/// One of the application's directories.
#[derive(Clone, Copy, Debug, PartialEq, Eq, Structural)]
pub enum AppDir {
    Home,
    Cache,
    Config,
    LocalData,
    Runtime,
}

/// Why `init` failed.
#[derive(Clone, Copy, Debug, PartialEq, Eq, Structural)]
pub enum InitError {
    /// The platform reports no directory of this kind.
    Unavailable(RequiredDir),
    /// The directory was set before.
    AlreadySet,
}

/// The text of an `InitError`.
pub open spec fn init_error_text(e: InitError) -> Seq<char> {
    match e {
        InitError::Unavailable(RequiredDir::Home) => "Unable to determine home directory"@,
        InitError::Unavailable(RequiredDir::Cache) => "Unable to determine cache directory"@,
        InitError::Unavailable(RequiredDir::Config) => "Unable to determine config directory"@,
        InitError::Unavailable(RequiredDir::LocalData) => "Unable to determine local data directory"@,
        InitError::AlreadySet => "Already set"@,
    }
}

impl InitError {
    pub fn message(&self) -> (r: &'static str)
        ensures
            r@ == init_error_text(*self),
    {
        match self {
            InitError::Unavailable(RequiredDir::Home) => "Unable to determine home directory",
            InitError::Unavailable(RequiredDir::Cache) => "Unable to determine cache directory",
            InitError::Unavailable(RequiredDir::Config) => "Unable to determine config directory",
            InitError::Unavailable(RequiredDir::LocalData) => "Unable to determine local data directory",
            InitError::AlreadySet => "Already set",
        }
    }
}

impl AppDirs {
    pub closed spec fn home_slot(&self) -> Option<PathBuf> {
        self.home
    }

    pub closed spec fn cache_slot(&self) -> Option<PathBuf> {
        self.cache
    }

    pub closed spec fn config_slot(&self) -> Option<PathBuf> {
        self.config
    }

    pub closed spec fn local_data_slot(&self) -> Option<PathBuf> {
        self.local_data
    }

    pub closed spec fn runtime_slot(&self) -> Option<PathBuf> {
        self.runtime
    }

    /// The slot of `dir`.
    pub open spec fn slot(&self, dir: AppDir) -> Option<PathBuf> {
        match dir {
            AppDir::Home => self.home_slot(),
            AppDir::Cache => self.cache_slot(),
            AppDir::Config => self.config_slot(),
            AppDir::LocalData => self.local_data_slot(),
            AppDir::Runtime => self.runtime_slot(),
        }
    }

    /// Whether `dir` has been set.
    pub fn is_set(&self, dir: AppDir) -> (r: bool)
        ensures
            r == self.slot(dir) is Some,
    {
        match dir {
            AppDir::Home => self.home.is_some(),
            AppDir::Cache => self.cache.is_some(),
            AppDir::Config => self.config.is_some(),
            AppDir::LocalData => self.local_data.is_some(),
            AppDir::Runtime => self.runtime.is_some(),
        }
    }

    /// No directory is set yet.
    pub fn new() -> (r: AppDirs)
        ensures
            r.home_slot() is None,
            r.cache_slot() is None,
            r.config_slot() is None,
            r.local_data_slot() is None,
            r.runtime_slot() is None,
    {
        AppDirs { home: None, cache: None, config: None, local_data: None, runtime: None }
    }
}

/// How far `init` gets: the number of directories it sets, in the order
/// home, cache, config, local data, runtime.
pub open spec fn init_progress(dirs: AppDirs, found: DirsFound) -> nat {
    if found.home is None || dirs.home_slot() is Some {
        0
    } else if found.cache is None || dirs.cache_slot() is Some {
        1
    } else if found.config is None || dirs.config_slot() is Some {
        2
    } else if found.data_local is None || dirs.local_data_slot() is Some {
        3
    } else if dirs.runtime_slot() is Some {
        4
    } else {
        5
    }
}

/// What `init` returns: the first directory that the platform does not
/// report or that was set before stops it.
pub open spec fn init_result(dirs: AppDirs, found: DirsFound) -> Result<(), InitError> {
    if found.home is None {
        Err(InitError::Unavailable(RequiredDir::Home))
    } else if dirs.home_slot() is Some {
        Err(InitError::AlreadySet)
    } else if found.cache is None {
        Err(InitError::Unavailable(RequiredDir::Cache))
    } else if dirs.cache_slot() is Some {
        Err(InitError::AlreadySet)
    } else if found.config is None {
        Err(InitError::Unavailable(RequiredDir::Config))
    } else if dirs.config_slot() is Some {
        Err(InitError::AlreadySet)
    } else if found.data_local is None {
        Err(InitError::Unavailable(RequiredDir::LocalData))
    } else if dirs.local_data_slot() is Some {
        Err(InitError::AlreadySet)
    } else if dirs.runtime_slot() is Some {
        Err(InitError::AlreadySet)
    } else {
        Ok(())
    }
}

/// The cache directory made of what the platform reports: extended with
/// `identifier` and, on Windows, with `cache`.
pub open spec fn planned_cache(found: DirsFound, identifier: Seq<char>, windows: bool) -> Option<
    PathBuf,
> {
    match found.cache {
        Some(c) => Some(
            if windows {
                pushed(pushed(c, identifier), "cache"@)
            } else {
                pushed(c, identifier)
            },
        ),
        None => None,
    }
}

/// The config directory made of what the platform reports: extended with
/// `product_name`.
pub open spec fn planned_config(found: DirsFound, product_name: Seq<char>) -> Option<PathBuf> {
    match found.config {
        Some(c) => Some(pushed(c, product_name)),
        None => None,
    }
}

/// The local data directory made of what the platform reports: extended
/// with `identifier`.
pub open spec fn planned_local_data(found: DirsFound, identifier: Seq<char>) -> Option<PathBuf> {
    match found.data_local {
        Some(d) => Some(pushed(d, identifier)),
        None => None,
    }
}

/// The runtime directory made of what the platform reports, or else of
/// `runtime` under the temporary directory: extended with `identifier`.
pub open spec fn planned_runtime(found: DirsFound, identifier: Seq<char>) -> PathBuf {
    let base = match found.runtime {
        Some(r) => r,
        None => pushed(found.temp, "runtime"@),
    };
    pushed(base, identifier)
}

/// Every directory that a successful `init` would set is absolute.
pub open spec fn planned_absolute(
    found: DirsFound,
    identifier: Seq<char>,
    product_name: Seq<char>,
    windows: bool,
) -> bool {
    &&& absolute(found.home->0)
    &&& absolute(planned_cache(found, identifier, windows)->0)
    &&& absolute(planned_config(found, product_name)->0)
    &&& absolute(planned_local_data(found, identifier)->0)
    &&& absolute(planned_runtime(found, identifier))
}

/// The slots after `init` ran from `before`: the directories it got to are
/// set to the directories made of what the platform reports, the others
/// are as they were.
pub open spec fn init_sets(
    before: AppDirs,
    after: AppDirs,
    found: DirsFound,
    identifier: Seq<char>,
    product_name: Seq<char>,
    windows: bool,
) -> bool {
    let progress = init_progress(before, found);
    &&& after.home_slot() == if progress >= 1 {
        found.home
    } else {
        before.home_slot()
    }
    &&& after.cache_slot() == if progress >= 2 {
        planned_cache(found, identifier, windows)
    } else {
        before.cache_slot()
    }
    &&& after.config_slot() == if progress >= 3 {
        planned_config(found, product_name)
    } else {
        before.config_slot()
    }
    &&& after.local_data_slot() == if progress >= 4 {
        planned_local_data(found, identifier)
    } else {
        before.local_data_slot()
    }
    &&& after.runtime_slot() == if progress >= 5 {
        Some(planned_runtime(found, identifier))
    } else {
        before.runtime_slot()
    }
}

/// Every directory is set, and absolute.
pub open spec fn all_set_absolute(dirs: AppDirs) -> bool {
    &&& dirs.home_slot() matches Some(p) && absolute(p)
    &&& dirs.cache_slot() matches Some(p) && absolute(p)
    &&& dirs.config_slot() matches Some(p) && absolute(p)
    &&& dirs.local_data_slot() matches Some(p) && absolute(p)
    &&& dirs.runtime_slot() matches Some(p) && absolute(p)
}

/// The directories made of what the platform reports, before any is set.
pub struct PlannedDirs {
    pub home: Option<PathBuf>,
    pub cache: Option<PathBuf>,
    pub config: Option<PathBuf>,
    pub local_data: Option<PathBuf>,
    pub runtime: PathBuf,
}

/// Every planned directory is there and absolute.
pub open spec fn planned_dirs_absolute(planned: PlannedDirs) -> bool {
    &&& planned.home matches Some(p) && absolute(p)
    &&& planned.cache matches Some(p) && absolute(p)
    &&& planned.config matches Some(p) && absolute(p)
    &&& planned.local_data matches Some(p) && absolute(p)
    &&& absolute(planned.runtime)
}

/// How far `install` gets: the number of directories it sets, in the order
/// home, cache, config, local data, runtime.
pub open spec fn install_progress(dirs: AppDirs, planned: PlannedDirs) -> nat {
    if planned.home is None || dirs.home_slot() is Some {
        0
    } else if planned.cache is None || dirs.cache_slot() is Some {
        1
    } else if planned.config is None || dirs.config_slot() is Some {
        2
    } else if planned.local_data is None || dirs.local_data_slot() is Some {
        3
    } else if dirs.runtime_slot() is Some {
        4
    } else {
        5
    }
}

/// What `install` returns: the first directory that is missing or was set
/// before stops it.
pub open spec fn install_result(dirs: AppDirs, planned: PlannedDirs) -> Result<(), InitError> {
    if planned.home is None {
        Err(InitError::Unavailable(RequiredDir::Home))
    } else if dirs.home_slot() is Some {
        Err(InitError::AlreadySet)
    } else if planned.cache is None {
        Err(InitError::Unavailable(RequiredDir::Cache))
    } else if dirs.cache_slot() is Some {
        Err(InitError::AlreadySet)
    } else if planned.config is None {
        Err(InitError::Unavailable(RequiredDir::Config))
    } else if dirs.config_slot() is Some {
        Err(InitError::AlreadySet)
    } else if planned.local_data is None {
        Err(InitError::Unavailable(RequiredDir::LocalData))
    } else if dirs.local_data_slot() is Some {
        Err(InitError::AlreadySet)
    } else if dirs.runtime_slot() is Some {
        Err(InitError::AlreadySet)
    } else {
        Ok(())
    }
}

/// Makes the directories of the application of what the platform reports;
/// see `planned_cache`, `planned_config`, `planned_local_data` and
/// `planned_runtime`.
pub fn plan(found: DirsFound, identifier: &str, product_name: &str, windows: bool) -> (r: PlannedDirs)
    ensures
        r.home == found.home,
        r.cache == planned_cache(found, identifier@, windows),
        r.config == planned_config(found, product_name@),
        r.local_data == planned_local_data(found, identifier@),
        r.runtime == planned_runtime(found, identifier@),
{
    let DirsFound { home, cache, config, data_local, runtime, temp } = found;
    let cache = match cache {
        Some(p) => {
            let mut p = p;
            push_component(&mut p, identifier);
            if windows {
                push_component(&mut p, "cache");
            }
            Some(p)
        },
        None => None,
    };
    let config = match config {
        Some(p) => {
            let mut p = p;
            push_component(&mut p, product_name);
            Some(p)
        },
        None => None,
    };
    let local_data = match data_local {
        Some(p) => {
            let mut p = p;
            push_component(&mut p, identifier);
            Some(p)
        },
        None => None,
    };
    let mut runtime = match runtime {
        Some(p) => p,
        None => {
            let mut t = temp;
            push_component(&mut t, "runtime");
            t
        },
    };
    push_component(&mut runtime, identifier);
    PlannedDirs { home, cache, config, local_data, runtime }
}

fn is_absolute_if_some(path: &Option<PathBuf>) -> (r: bool)
    ensures
        r == (*path matches Some(p) && absolute(p)),
{
    match path {
        Some(p) => is_absolute(p),
        None => false,
    }
}

impl PlannedDirs {
    /// Whether every planned directory is there and absolute.
    pub fn all_absolute(&self) -> (r: bool)
        ensures
            r == planned_dirs_absolute(*self),
    {
        is_absolute_if_some(&self.home) && is_absolute_if_some(&self.cache) && is_absolute_if_some(
            &self.config,
        ) && is_absolute_if_some(&self.local_data) && is_absolute(&self.runtime)
    }

    /// Whether `install` would set every directory: each is there, and none
    /// was set before.
    pub fn gets_through(&self, dirs: &AppDirs) -> (r: bool)
        ensures
            r == install_result(*dirs, *self) is Ok,
    {
        self.home.is_some() && !dirs.is_set(AppDir::Home) && self.cache.is_some() && !dirs.is_set(
            AppDir::Cache,
        ) && self.config.is_some() && !dirs.is_set(AppDir::Config) && self.local_data.is_some()
            && !dirs.is_set(AppDir::LocalData) && !dirs.is_set(AppDir::Runtime)
    }
}

/// Sets the planned directories in turn, stopping at the first that is
/// missing or was set before; the directories set until then stay set.
/// When it gets through, every directory must be absolute.
pub fn install(dirs: &mut AppDirs, planned: PlannedDirs) -> (r: Result<(), InitError>)
    requires
        install_result(*old(dirs), planned) is Ok ==> planned_dirs_absolute(planned),
    ensures
        r == install_result(*old(dirs), planned),
        final(dirs).home_slot() == if install_progress(*old(dirs), planned) >= 1 {
            planned.home
        } else {
            old(dirs).home_slot()
        },
        final(dirs).cache_slot() == if install_progress(*old(dirs), planned) >= 2 {
            planned.cache
        } else {
            old(dirs).cache_slot()
        },
        final(dirs).config_slot() == if install_progress(*old(dirs), planned) >= 3 {
            planned.config
        } else {
            old(dirs).config_slot()
        },
        final(dirs).local_data_slot() == if install_progress(*old(dirs), planned) >= 4 {
            planned.local_data
        } else {
            old(dirs).local_data_slot()
        },
        final(dirs).runtime_slot() == if install_progress(*old(dirs), planned) >= 5 {
            Some(planned.runtime)
        } else {
            old(dirs).runtime_slot()
        },
        r is Ok ==> all_set_absolute(*final(dirs)),
{
    let PlannedDirs { home, cache, config, local_data, runtime } = planned;
    match home {
        None => return Err(InitError::Unavailable(RequiredDir::Home)),
        Some(p) => {
            if dirs.home.is_some() {
                return Err(InitError::AlreadySet);
            }
            dirs.home = Some(p);
        },
    }
    match cache {
        None => return Err(InitError::Unavailable(RequiredDir::Cache)),
        Some(p) => {
            if dirs.cache.is_some() {
                return Err(InitError::AlreadySet);
            }
            dirs.cache = Some(p);
        },
    }
    match config {
        None => return Err(InitError::Unavailable(RequiredDir::Config)),
        Some(p) => {
            if dirs.config.is_some() {
                return Err(InitError::AlreadySet);
            }
            dirs.config = Some(p);
        },
    }
    match local_data {
        None => return Err(InitError::Unavailable(RequiredDir::LocalData)),
        Some(p) => {
            if dirs.local_data.is_some() {
                return Err(InitError::AlreadySet);
            }
            dirs.local_data = Some(p);
        },
    }
    if dirs.runtime.is_some() {
        return Err(InitError::AlreadySet);
    }
    dirs.runtime = Some(runtime);
    Ok(())
}

/// Sets the directories of the application from what the platform
/// reports, in turn: home as reported; cache as reported, extended with
/// `identifier` and, on Windows, with `cache`; config extended with
/// `product_name`; local data extended with `identifier`; runtime as
/// reported or else `runtime` under the temporary directory, extended with
/// `identifier`. It stops at the first directory that the platform does not
/// report or that was set before; the directories set until then stay set.
/// When it gets through, every directory it set must be absolute.
pub fn init(dirs: &mut AppDirs, found: DirsFound, identifier: &str, product_name: &str, windows: bool) -> (r:
    Result<(), InitError>)
    requires
        init_result(*old(dirs), found) is Ok ==> planned_absolute(
            found,
            identifier@,
            product_name@,
            windows,
        ),
    ensures
        r == init_result(*old(dirs), found),
        init_sets(*old(dirs), *final(dirs), found, identifier@, product_name@, windows),
        r is Ok ==> all_set_absolute(*final(dirs)),
{
    let planned = plan(found, identifier, product_name, windows);
    install(dirs, planned)
}

/// `init`, unless it would get through and set a directory that is not
/// absolute: then it returns `None` and sets nothing.
pub fn try_init(dirs: &mut AppDirs, found: DirsFound, identifier: &str, product_name: &str, windows: bool) -> (r:
    Option<Result<(), InitError>>)
    ensures
        r is None <==> init_result(*old(dirs), found) is Ok && !planned_absolute(
            found,
            identifier@,
            product_name@,
            windows,
        ),
        r is None ==> *final(dirs) == *old(dirs),
        r matches Some(result) ==> {
            &&& result == init_result(*old(dirs), found)
            &&& init_sets(*old(dirs), *final(dirs), found, identifier@, product_name@, windows)
            &&& result is Ok ==> all_set_absolute(*final(dirs))
        },
{
    let planned = plan(found, identifier, product_name, windows);
    if planned.gets_through(dirs) && !planned.all_absolute() {
        return None;
    }
    Some(install(dirs, planned))
}

/// The user's home directory.
pub fn home_dir(dirs: &AppDirs) -> (r: &PathBuf)
    requires
        dirs.home_slot() is Some,
    ensures
        Some(*r) == dirs.home_slot(),
{
    dirs.home.as_ref().unwrap()
}

/// The directory the application caches files in.
pub fn cache_dir(dirs: &AppDirs) -> (r: &PathBuf)
    requires
        dirs.cache_slot() is Some,
    ensures
        Some(*r) == dirs.cache_slot(),
{
    dirs.cache.as_ref().unwrap()
}

/// The directory the application keeps its configuration in.
pub fn config_dir(dirs: &AppDirs) -> (r: &PathBuf)
    requires
        dirs.config_slot() is Some,
    ensures
        Some(*r) == dirs.config_slot(),
{
    dirs.config.as_ref().unwrap()
}

/// The directory the application keeps its local data in.
pub fn local_data_dir(dirs: &AppDirs) -> (r: &PathBuf)
    requires
        dirs.local_data_slot() is Some,
    ensures
        Some(*r) == dirs.local_data_slot(),
{
    dirs.local_data.as_ref().unwrap()
}

/// The directory the application keeps its runtime files in.
pub fn runtime_dir(dirs: &AppDirs) -> (r: &PathBuf)
    requires
        dirs.runtime_slot() is Some,
    ensures
        Some(*r) == dirs.runtime_slot(),
{
    dirs.runtime.as_ref().unwrap()
}


/// Each directory is set once: after a successful `init`, another `init`
/// fails, whatever the platform reports, and sets nothing.
pub proof fn lemma_init_once(dirs: AppDirs, first: DirsFound, second: DirsFound, after: AppDirs)
    requires
        init_result(dirs, first) is Ok,
        after.home_slot() == first.home,
    ensures
        init_progress(after, second) == 0,
        init_result(after, second) is Err,
{
}


/// Once `init` has got through, each directory is the one the platform
/// reports, extended as the application lays it out: home as reported;
/// cache with the identifier and, on Windows only, with `cache`; config
/// with the product name; local data with the identifier; runtime, or else
/// `runtime` under the temporary directory, with the identifier.
pub proof fn lemma_init_lays_out_reported_dirs(
    before: AppDirs,
    after: AppDirs,
    found: DirsFound,
    identifier: Seq<char>,
    product_name: Seq<char>,
    windows: bool,
)
    requires
        init_sets(before, after, found, identifier, product_name, windows),
        init_result(before, found) is Ok,
    ensures
        after.home_slot() == found.home,
        after.cache_slot() == Some(
            if windows {
                pushed(pushed(found.cache->0, identifier), "cache"@)
            } else {
                pushed(found.cache->0, identifier)
            },
        ),
        after.config_slot() == Some(pushed(found.config->0, product_name)),
        after.local_data_slot() == Some(pushed(found.data_local->0, identifier)),
        after.runtime_slot() == Some(
            pushed(
                match found.runtime {
                    Some(r) => r,
                    None => pushed(found.temp, "runtime"@),
                },
                identifier,
            ),
        ),
{
}

/// Only the cache directory depends on the platform being Windows: `init`
/// from the same slots and the same report sets every other directory alike
/// on Windows and elsewhere, and returns alike.
pub proof fn lemma_only_cache_depends_on_windows(
    before: AppDirs,
    found: DirsFound,
    identifier: Seq<char>,
    product_name: Seq<char>,
    on_windows: AppDirs,
    elsewhere: AppDirs,
)
    requires
        init_sets(before, on_windows, found, identifier, product_name, true),
        init_sets(before, elsewhere, found, identifier, product_name, false),
    ensures
        on_windows.home_slot() == elsewhere.home_slot(),
        on_windows.config_slot() == elsewhere.config_slot(),
        on_windows.local_data_slot() == elsewhere.local_data_slot(),
        on_windows.runtime_slot() == elsewhere.runtime_slot(),
{
}

/// The directories `plan` makes are the ones the platform reports, extended
/// as the application lays them out; a directory the platform does not
/// report stays missing.
pub proof fn lemma_plan_lays_out_reported_dirs(
    found: DirsFound,
    identifier: Seq<char>,
    product_name: Seq<char>,
    windows: bool,
)
    ensures
        planned_cache(found, identifier, windows) == match found.cache {
            Some(c) => Some(
                if windows {
                    pushed(pushed(c, identifier), "cache"@)
                } else {
                    pushed(c, identifier)
                },
            ),
            None => None,
        },
        planned_config(found, product_name) == match found.config {
            Some(c) => Some(pushed(c, product_name)),
            None => None,
        },
        planned_local_data(found, identifier) == match found.data_local {
            Some(d) => Some(pushed(d, identifier)),
            None => None,
        },
{
}


/// `init` gets through exactly when the platform reports every required
/// directory and none of the directories was set before; it then sets all
/// five.
pub proof fn lemma_init_ok_exactly_when_all_reported_and_unset(dirs: AppDirs, found: DirsFound)
    ensures
        init_result(dirs, found) is Ok <==> {
            &&& found.home is Some && found.cache is Some && found.config is Some
                && found.data_local is Some
            &&& dirs.home_slot() is None && dirs.cache_slot() is None && dirs.config_slot() is None
                && dirs.local_data_slot() is None && dirs.runtime_slot() is None
        },
        init_result(dirs, found) is Ok <==> init_progress(dirs, found) == 5,
{
}

/// On fresh slots, `init` fails only for a directory that the platform does
/// not report, and names the first such one, in the order home, cache,
/// config, local data.
pub proof fn lemma_init_names_first_missing(dirs: AppDirs, found: DirsFound)
    requires
        dirs.home_slot() is None,
        dirs.cache_slot() is None,
        dirs.config_slot() is None,
        dirs.local_data_slot() is None,
        dirs.runtime_slot() is None,
    ensures
        found.home is None ==> init_result(dirs, found) == Err::<(), InitError>(
            InitError::Unavailable(RequiredDir::Home),
        ),
        found.home is Some && found.cache is None ==> init_result(dirs, found) == Err::<
            (),
            InitError,
        >(InitError::Unavailable(RequiredDir::Cache)),
        found.home is Some && found.cache is Some && found.config is None ==> init_result(
            dirs,
            found,
        ) == Err::<(), InitError>(InitError::Unavailable(RequiredDir::Config)),
        found.home is Some && found.cache is Some && found.config is Some && found.data_local is None
            ==> init_result(dirs, found) == Err::<(), InitError>(
            InitError::Unavailable(RequiredDir::LocalData),
        ),
        init_result(dirs, found) != Err::<(), InitError>(InitError::AlreadySet),
{
}

/// When the platform reports everything, `init` can fail only because a
/// directory was set before.
pub proof fn lemma_init_with_full_report_fails_only_as_already_set(dirs: AppDirs, found: DirsFound)
    requires
        found.home is Some,
        found.cache is Some,
        found.config is Some,
        found.data_local is Some,
    ensures
        init_result(dirs, found) is Ok || init_result(dirs, found) == Err::<(), InitError>(
            InitError::AlreadySet,
        ),
{
}

/// `install` gets through exactly when every directory is planned and none
/// was set before.
pub proof fn lemma_install_ok_exactly_when_all_planned_and_unset(dirs: AppDirs, planned: PlannedDirs)
    ensures
        install_result(dirs, planned) is Ok <==> {
            &&& planned.home is Some && planned.cache is Some && planned.config is Some
                && planned.local_data is Some
            &&& dirs.home_slot() is None && dirs.cache_slot() is None && dirs.config_slot() is None
                && dirs.local_data_slot() is None && dirs.runtime_slot() is None
        },
        install_result(dirs, planned) is Ok <==> install_progress(dirs, planned) == 5,
{
}

/// All directories being set and absolute means each slot holds an
/// absolute path.
pub proof fn lemma_all_set_absolute_means_each(dirs: AppDirs, dir: AppDir)
    requires
        all_set_absolute(dirs),
    ensures
        dirs.slot(dir) matches Some(p) && absolute(p),
{
}

} // verus!
