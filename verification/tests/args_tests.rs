use ergosphere::args::{determine_color_usage, CliArgs, Commands};

#[test]
fn explicit_color_choice_wins() {
    assert!(determine_color_usage(Some(true), true, Some("dumb".to_string()), false));
    assert!(!determine_color_usage(Some(false), false, None, true));
}

#[test]
fn environment_turns_color_off() {
    assert!(!determine_color_usage(None, true, None, true));
    assert!(!determine_color_usage(None, false, Some("dumb".to_string()), true));
    assert!(determine_color_usage(None, false, Some("xterm-256color".to_string()), true));
    assert!(!determine_color_usage(None, false, None, false));
}

#[test]
fn sync_command_carries_flags() {
    let args = CliArgs { command: Commands::Sync { daemon: true, force_sync: true } };
    match args.command {
        Commands::Sync { daemon, force_sync } => assert!(daemon && force_sync),
    }
}
