use std::path::PathBuf;

use manderrow::paths::{
    cache_dir, config_dir, home_dir, init, install, local_data_dir, plan, runtime_dir, try_init,
    AppDir, AppDirs,
    DirsFound,
    InitError, RequiredDir,
};

fn found() -> DirsFound {
    DirsFound {
        home: Some(PathBuf::from("/home/u")),
        cache: Some(PathBuf::from("/home/u/.cache")),
        config: Some(PathBuf::from("/home/u/.config")),
        data_local: Some(PathBuf::from("/home/u/.local/share")),
        runtime: Some(PathBuf::from("/run/user/1000")),
        temp: PathBuf::from("/tmp"),
    }
}

#[test]
fn init_sets_every_directory() {
    let mut dirs = AppDirs::new();
    assert_eq!(init(&mut dirs, found(), "zone.dp.manderrow", "Manderrow", false), Ok(()));
    assert_eq!(home_dir(&dirs), &PathBuf::from("/home/u"));
    assert_eq!(cache_dir(&dirs), &PathBuf::from("/home/u/.cache/zone.dp.manderrow"));
    assert_eq!(config_dir(&dirs), &PathBuf::from("/home/u/.config/Manderrow"));
    assert_eq!(local_data_dir(&dirs), &PathBuf::from("/home/u/.local/share/zone.dp.manderrow"));
    assert_eq!(runtime_dir(&dirs), &PathBuf::from("/run/user/1000/zone.dp.manderrow"));
}

#[test]
fn init_on_windows_nests_the_cache() {
    let mut dirs = AppDirs::new();
    assert_eq!(init(&mut dirs, found(), "id", "P", true), Ok(()));
    assert_eq!(cache_dir(&dirs), &PathBuf::from("/home/u/.cache/id/cache"));
}

#[test]
fn runtime_falls_back_to_temp() {
    let mut dirs = AppDirs::new();
    let mut f = found();
    f.runtime = None;
    assert_eq!(init(&mut dirs, f, "id", "P", false), Ok(()));
    assert_eq!(runtime_dir(&dirs), &PathBuf::from("/tmp/runtime/id"));
}

#[test]
fn missing_home_is_reported_first() {
    let mut dirs = AppDirs::new();
    let mut f = found();
    f.home = None;
    f.cache = None;
    let e = init(&mut dirs, f, "id", "P", false).unwrap_err();
    assert_eq!(e, InitError::Unavailable(RequiredDir::Home));
    assert_eq!(e.message(), "Unable to determine home directory");
}

#[test]
fn missing_directories_stop_init_part_way() {
    let mut dirs = AppDirs::new();
    let mut f = found();
    f.config = None;
    let e = init(&mut dirs, f, "id", "P", false).unwrap_err();
    assert_eq!(e, InitError::Unavailable(RequiredDir::Config));
    assert_eq!(e.message(), "Unable to determine config directory");
    assert_eq!(home_dir(&dirs), &PathBuf::from("/home/u"));
    assert_eq!(cache_dir(&dirs), &PathBuf::from("/home/u/.cache/id"));
    let mut f = found();
    f.data_local = None;
    let mut fresh = AppDirs::new();
    assert_eq!(
        init(&mut fresh, f, "id", "P", false),
        Err(InitError::Unavailable(RequiredDir::LocalData))
    );
    let mut f = found();
    f.cache = None;
    let mut fresh = AppDirs::new();
    assert_eq!(init(&mut fresh, f, "id", "P", false), Err(InitError::Unavailable(RequiredDir::Cache)));
}

#[test]
fn second_init_is_refused() {
    let mut dirs = AppDirs::new();
    assert_eq!(init(&mut dirs, found(), "id", "P", false), Ok(()));
    let mut other = found();
    other.home = Some(PathBuf::from("/elsewhere"));
    let e = init(&mut dirs, other, "id", "P", false).unwrap_err();
    assert_eq!(e, InitError::AlreadySet);
    assert_eq!(e.message(), "Already set");
    assert_eq!(home_dir(&dirs), &PathBuf::from("/home/u"));
}

#[test]
fn error_messages() {
    assert_eq!(
        InitError::Unavailable(RequiredDir::Cache).message(),
        "Unable to determine cache directory"
    );
    assert_eq!(
        InitError::Unavailable(RequiredDir::LocalData).message(),
        "Unable to determine local data directory"
    );
}

#[test]
fn try_init_sets_absolute_directories() {
    let mut dirs = AppDirs::new();
    assert_eq!(try_init(&mut dirs, found(), "id", "P", false), Some(Ok(())));
    assert_eq!(config_dir(&dirs), &PathBuf::from("/home/u/.config/P"));
    assert!(dirs.is_set(AppDir::Runtime));
}

#[test]
fn try_init_refuses_a_relative_directory() {
    let mut dirs = AppDirs::new();
    let mut f = found();
    f.home = Some(PathBuf::from("rel"));
    assert_eq!(try_init(&mut dirs, f, "id", "P", false), None);
    assert!(!dirs.is_set(AppDir::Home));
    assert!(!dirs.is_set(AppDir::Cache));
    let mut f = found();
    f.runtime = None;
    f.temp = PathBuf::from("tmp");
    assert_eq!(try_init(&mut dirs, f, "id", "P", false), None);
    assert!(!dirs.is_set(AppDir::Runtime));
}

#[test]
fn try_init_reports_errors_before_checking_paths() {
    let mut dirs = AppDirs::new();
    let mut f = found();
    f.home = Some(PathBuf::from("rel"));
    f.config = None;
    assert_eq!(
        try_init(&mut dirs, f, "id", "P", false),
        Some(Err(InitError::Unavailable(RequiredDir::Config)))
    );
    assert_eq!(home_dir(&dirs), &PathBuf::from("rel"));
}

#[test]
fn plan_then_install() {
    let planned = plan(found(), "id", "P", false);
    assert_eq!(planned.local_data, Some(PathBuf::from("/home/u/.local/share/id")));
    assert!(planned.all_absolute());
    let mut dirs = AppDirs::new();
    assert!(planned.gets_through(&dirs));
    assert_eq!(install(&mut dirs, planned), Ok(()));
    assert_eq!(runtime_dir(&dirs), &PathBuf::from("/run/user/1000/id"));
    let mut f = found();
    f.config = Some(PathBuf::from("cfg"));
    let planned = plan(f, "id", "P", false);
    assert!(!planned.all_absolute());
    assert!(!planned.gets_through(&dirs));
}
