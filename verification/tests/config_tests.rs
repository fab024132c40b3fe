use picture_frame_ui::config::{ConfigError, ConfigProbe, FrameConfig};
use std::path::{Path, PathBuf};

#[test]
fn test_default_config() {
    let config = FrameConfig::default();
    assert_eq!(config.photos_directory, "images");
}

#[test]
fn test_get_photos_path_relative() {
    let config = FrameConfig {
        photos_directory: "photos".to_string(),
    };

    let path = PathBuf::from(config.get_photos_path(Some("/srv/frame")));
    assert!(path.is_absolute());
    assert!(path.ends_with("photos"));
}

#[test]
fn test_get_photos_path_absolute() {
    let config = FrameConfig {
        photos_directory: "/home/user/photos".to_string(),
    };

    let path = PathBuf::from(config.get_photos_path(Some("/srv/frame")));
    assert_eq!(path, PathBuf::from("/home/user/photos"));
}

#[test]
fn relative_photos_path_is_taken_from_the_current_directory() {
    let config = FrameConfig { photos_directory: "photos/summer".to_string() };
    assert_eq!(config.get_photos_path(Some("/srv/frame")), "/srv/frame/photos/summer");
    assert_eq!(config.get_photos_path(Some("/srv/frame/")), "/srv/frame/photos/summer");
    assert_eq!(FrameConfig::default().get_photos_path(Some("/")), "/images");
}

#[test]
fn unknown_current_directory_stands_for_the_dot() {
    let config = FrameConfig { photos_directory: "photos".to_string() };
    assert_eq!(config.get_photos_path(None), "./photos");
    assert_eq!(Path::new(&config.get_photos_path(None)), Path::new(".").join("photos"));

    let absolute = FrameConfig { photos_directory: "/home/user/photos".to_string() };
    assert_eq!(absolute.get_photos_path(None), "/home/user/photos");
}

#[test]
fn home_config_lies_in_a_hidden_directory() {
    assert_eq!(FrameConfig::config_file_name(), "frame-config.json");
    assert_eq!(
        FrameConfig::home_config_path("/home/user"),
        "/home/user/.picture-frame-ui/frame-config.json"
    );
    assert_eq!(
        PathBuf::from(FrameConfig::home_config_path("/home/user/")),
        PathBuf::from("/home/user/").join(".picture-frame-ui").join("frame-config.json")
    );
}

fn found(directory: &str) -> ConfigProbe {
    ConfigProbe::Found(FrameConfig { photos_directory: directory.to_string() })
}

fn unreadable(path: &str) -> ConfigProbe {
    ConfigProbe::Failed(ConfigError::ReadFailed {
        path: path.to_string(),
        cause: "Permission denied (os error 13)".to_string(),
    })
}

fn malformed(path: &str) -> ConfigProbe {
    ConfigProbe::Failed(ConfigError::ParseFailed {
        path: path.to_string(),
        cause: "expected value at line 1 column 1".to_string(),
    })
}

#[test]
fn load_falls_back_to_the_defaults() {
    let config = FrameConfig::load(ConfigProbe::Missing, ConfigProbe::Missing).expect("defaults");
    assert_eq!(config.photos_directory, "images");
}

#[test]
fn load_prefers_the_current_directory() {
    let config = FrameConfig::load(found("/test/photos"), found("/home/photos")).expect("found");
    assert_eq!(config.photos_directory, "/test/photos");

    let config = FrameConfig::load(found("/test/photos"), malformed("/home/u/x")).expect("found");
    assert_eq!(config.photos_directory, "/test/photos");

    let config = FrameConfig::load(ConfigProbe::Missing, found("/home/photos")).expect("found");
    assert_eq!(config.photos_directory, "/home/photos");
    assert_eq!(config.clone().photos_directory, "/home/photos");
}

#[test]
fn load_fails_on_the_first_file_that_exists() {
    match FrameConfig::load(unreadable("frame-config.json"), found("/home/photos")) {
        Err(ConfigError::ReadFailed { path, cause }) => {
            assert_eq!(path, "frame-config.json");
            assert_eq!(cause, "Permission denied (os error 13)");
        }
        other => panic!("expected ReadFailed, got {:?}", other),
    }
    match FrameConfig::load(ConfigProbe::Missing, malformed("/home/u/frame-config.json")) {
        Err(ConfigError::ParseFailed { path, cause }) => {
            assert_eq!(path, "/home/u/frame-config.json");
            assert_eq!(cause, "expected value at line 1 column 1");
        }
        other => panic!("expected ParseFailed, got {:?}", other),
    }
}
