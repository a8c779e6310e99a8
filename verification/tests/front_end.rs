use phosphene::cache::FileState;
use phosphene::cli::{
    cli_args_from, determine_execution_mode, parse_args, ExecutionMode, UsageError,
};
use phosphene::config::{
    cache_dir_or_fallback, default_cache_dir, default_color_theme, default_max_resolution,
    default_window_spawn_behavior, Config, CACHE_DIR_FALLBACK,
};
use phosphene::viewer::{display_char, plan_render, CacheAction};

fn line(words: &[&str]) -> Vec<String> {
    words.iter().map(|w| w.to_string()).collect()
}

#[test]
fn terminal_selects_text_mode() {
    assert_eq!(determine_execution_mode(true), ExecutionMode::CLI);
    assert_eq!(determine_execution_mode(false), ExecutionMode::GUI);
}

#[test]
fn one_path_is_accepted() {
    let args = parse_args(line(&["phosphene", "firmware.bin"])).expect("accepted");
    assert_eq!(args.file_path, "firmware.bin");
}

#[test]
fn missing_path_is_refused() {
    assert!(matches!(parse_args(line(&["phosphene"])), Err(UsageError::Refused(_))));
}

#[test]
fn extra_argument_is_refused() {
    assert!(matches!(parse_args(line(&["phosphene", "a", "b"])), Err(UsageError::Refused(_))));
}

#[test]
fn help_and_version_are_information() {
    match parse_args(line(&["phosphene", "--help"])) {
        Err(UsageError::Info(text)) => assert!(text.contains("FILE_PATH")),
        other => panic!("unexpected {:?}", other),
    }
    match parse_args(line(&["phosphene", "--version"])) {
        Err(UsageError::Info(text)) => assert!(text.contains("0.1.0")),
        other => panic!("unexpected {:?}", other),
    }
}

#[test]
fn parser_outcome_is_kept() {
    let ok = cli_args_from(Ok("x".to_string())).expect("ok");
    assert_eq!(ok.file_path, "x");
    assert!(matches!(
        cli_args_from(Err(UsageError::Refused("no".to_string()))),
        Err(UsageError::Refused(m)) if m == "no"
    ));
}

#[test]
fn defaults_are_fixed() {
    assert_eq!(default_max_resolution(), 1024);
    assert_eq!(default_color_theme(), "viridis");
    assert_eq!(default_window_spawn_behavior(), "center");
    let config = Config::default();
    assert_eq!(config.max_resolution, 1024);
    assert_eq!(config.color_theme, "viridis");
    assert_eq!(config.window_spawn_behavior, "center");
    assert!(!config.cache_dir.is_empty());
    assert_eq!(config.cache_dir, default_cache_dir());
    assert!(config.cache_dir == CACHE_DIR_FALLBACK || config.cache_dir.ends_with("phosphene"));
}

#[test]
fn cache_dir_falls_back_when_none_is_found() {
    assert_eq!(cache_dir_or_fallback(None), "~/.cache/phosphene");
    assert_eq!(CACHE_DIR_FALLBACK, "~/.cache/phosphene");
    assert_eq!(cache_dir_or_fallback(Some("/home/u/.cache/phosphene".to_string())), "/home/u/.cache/phosphene");
}

#[test]
fn modified_file_is_regenerated_with_warning() {
    let plan = plan_render(FileState::Modified("m.png".to_string()), true);
    assert_eq!(plan.img_path, "m.png");
    assert_eq!(plan.action, CacheAction::Regenerate);
    assert!(plan.was_modified);
}

#[test]
fn new_file_is_regenerated_without_warning() {
    let plan = plan_render(FileState::New("n.png".to_string()), true);
    assert_eq!(plan.action, CacheAction::Regenerate);
    assert!(!plan.was_modified);
}

#[test]
fn unchanged_file_refreshes_or_regenerates_a_missing_image() {
    let kept = plan_render(FileState::Unchanged("u.png".to_string()), true);
    assert_eq!(kept.action, CacheAction::Refresh);
    assert!(!kept.was_modified);
    let lost = plan_render(FileState::Unchanged("u.png".to_string()), false);
    assert_eq!(lost.action, CacheAction::Regenerate);
    assert!(!lost.was_modified);
}

#[test]
fn printable_bytes_show_as_themselves() {
    assert_eq!(display_char(b'A'), 'A');
    assert_eq!(display_char(b' '), ' ');
    assert_eq!(display_char(b'~'), '~');
    assert_eq!(display_char(0x00), '.');
    assert_eq!(display_char(31), '.');
    assert_eq!(display_char(127), '.');
    assert_eq!(display_char(0xff), '.');
}
