use std::path::Path;

use server_supervisor::error::ProcessSpawnError;
use server_supervisor::launch::{
    bundle_dir, join_path, launch_from_bundle, launch_spec, models_dir, resources_dir,
    server_binary,
};

#[test]
fn bundle_dir_is_two_levels_above_the_binary() {
    assert_eq!(
        bundle_dir("/Applications/A.app/Contents/MacOS/a"),
        Some("/Applications/A.app/Contents".to_string())
    );
    assert_eq!(bundle_dir("/opt/studio/bin/studio"), Some("/opt/studio".to_string()));
}

#[test]
fn bundle_dir_can_be_the_root_or_empty() {
    assert_eq!(bundle_dir("/MacOS/a"), Some("/".to_string()));
    assert_eq!(bundle_dir("MacOS/a"), Some(String::new()));
}

#[test]
fn bundle_dir_is_missing_close_to_the_root() {
    assert_eq!(bundle_dir("/a"), None);
    assert_eq!(bundle_dir("a"), None);
    assert_eq!(bundle_dir("/"), None);
    assert_eq!(bundle_dir(""), None);
}

#[test]
fn join_puts_one_separator_between_the_parts() {
    assert_eq!(join_path("/x", "Resources"), "/x/Resources");
    assert_eq!(join_path("/x/y", "bin/server"), "/x/y/bin/server");
}

#[test]
fn join_adds_no_separator_after_one() {
    assert_eq!(join_path("/x/", "Resources"), "/x/Resources");
    assert_eq!(join_path("/", "Resources"), "/Resources");
}

#[test]
fn join_adds_no_separator_to_an_empty_directory() {
    assert_eq!(join_path("", "Resources"), "Resources");
}

#[test]
fn join_agrees_with_the_standard_library() {
    let dirs = ["", "/", "/x", "/x/", "x", "x/y", "/Applications/A.app/Contents", "/zoë/Ü"];
    let rests = ["Resources", "bin/mlx-audio-server", "models"];
    for dir in dirs {
        for rest in rests {
            let expected = Path::new(dir).join(rest);
            assert_eq!(Some(join_path(dir, rest).as_str()), expected.to_str());
        }
    }
}

#[test]
fn resources_dir_lies_in_the_bundle_directory() {
    assert_eq!(
        resources_dir("/Applications/A.app/Contents"),
        "/Applications/A.app/Contents/Resources"
    );
}

#[test]
fn server_binary_lies_under_bin() {
    assert_eq!(
        server_binary("/Applications/A.app/Contents"),
        "/Applications/A.app/Contents/Resources/bin/mlx-audio-server"
    );
}

#[test]
fn models_dir_lies_under_resources() {
    assert_eq!(
        models_dir("/Applications/A.app/Contents"),
        "/Applications/A.app/Contents/Resources/models"
    );
}

#[test]
fn paths_extend_the_resources_dir() {
    let bundle = "/opt/studio";
    let resources = resources_dir(bundle);
    assert_eq!(server_binary(bundle), format!("{}/bin/mlx-audio-server", resources));
    assert_eq!(models_dir(bundle), format!("{}/models", resources));
    assert!(resources.starts_with(bundle));
}

#[test]
fn launch_spec_starts_the_server_of_the_bundle() {
    let spec = launch_spec("/Applications/A.app/Contents/MacOS/a").ok().unwrap();
    assert_eq!(spec.program, "/Applications/A.app/Contents/Resources/bin/mlx-audio-server");
    assert_eq!(spec.env.len(), 2);
    assert_eq!(spec.env[0].name, "HF_HOME");
    assert_eq!(spec.env[0].value, "/Applications/A.app/Contents/Resources/models");
    assert_eq!(spec.env[1].name, "TRANSFORMERS_CACHE");
    assert_eq!(spec.env[1].value, "/Applications/A.app/Contents/Resources/models");
    assert!(spec.inherit_output);
}

#[test]
fn launch_spec_holds_no_step_to_a_parent() {
    let spec = launch_spec("/Applications/A.app/Contents/MacOS/a").ok().unwrap();
    assert!(!spec.program.contains(".."));
    assert!(!spec.program.contains("MacOS"));
    assert!(!spec.env[0].value.contains(".."));
    assert!(!spec.env[1].value.contains(".."));
}

#[test]
fn launch_spec_agrees_with_the_standard_library() {
    let exe = Path::new("/Applications/A.app/Contents/MacOS/a");
    let resources = exe.parent().unwrap().parent().unwrap().join("Resources");
    let spec = launch_spec(exe.to_str().unwrap()).ok().unwrap();
    assert_eq!(Some(spec.program.as_str()), resources.join("bin/mlx-audio-server").to_str());
    assert_eq!(Some(spec.env[0].value.as_str()), resources.join("models").to_str());
    assert_eq!(Some(spec.env[1].value.as_str()), resources.join("models").to_str());
}

#[test]
fn launch_spec_without_a_bundle_directory_is_a_missing_executable() {
    assert_eq!(launch_spec("/a").err(), Some(ProcessSpawnError::ExecutableMissing));
    assert_eq!(launch_spec("a").err(), Some(ProcessSpawnError::ExecutableMissing));
    assert_eq!(launch_spec("/").err(), Some(ProcessSpawnError::ExecutableMissing));
    assert_eq!(launch_spec("").err(), Some(ProcessSpawnError::ExecutableMissing));
}

#[test]
fn launch_spec_in_a_bundle_at_the_root() {
    let spec = launch_spec("/MacOS/a").ok().unwrap();
    assert_eq!(spec.program, "/Resources/bin/mlx-audio-server");
    assert_eq!(spec.env[0].value, "/Resources/models");
}

#[test]
fn launch_spec_of_a_relative_binary_path() {
    let spec = launch_spec("MacOS/a").ok().unwrap();
    assert_eq!(spec.program, "Resources/bin/mlx-audio-server");
    assert_eq!(spec.env[1].value, "Resources/models");
}

#[test]
fn launch_from_bundle_sets_home_and_cache_to_the_models_dir() {
    let spec = launch_from_bundle("/opt/studio");
    assert_eq!(spec.program, "/opt/studio/Resources/bin/mlx-audio-server");
    assert_eq!(spec.env.len(), 2);
    assert_eq!(spec.env[0].name, "HF_HOME");
    assert_eq!(spec.env[0].value, "/opt/studio/Resources/models");
    assert_eq!(spec.env[1].name, "TRANSFORMERS_CACHE");
    assert_eq!(spec.env[1].value, "/opt/studio/Resources/models");
    assert!(spec.inherit_output);
}

#[test]
fn launch_from_bundle_keeps_text_that_is_not_ascii() {
    let spec = launch_from_bundle("/Users/zoë/Übung.app/Contents");
    assert_eq!(spec.program, "/Users/zoë/Übung.app/Contents/Resources/bin/mlx-audio-server");
    let spec = launch_spec("/Users/zoë/Übung.app/Contents/MacOS/übung").ok().unwrap();
    assert_eq!(spec.program, "/Users/zoë/Übung.app/Contents/Resources/bin/mlx-audio-server");
}
