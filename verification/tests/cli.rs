use smart_geyser::cli::{parse_command_line, CommandLine};

fn args(a: &[&str]) -> Vec<String> {
    a.iter().map(|s| s.to_string()).collect()
}

#[test]
fn no_arguments_use_the_default_path() {
    assert_eq!(parse_command_line(&args(&[])), CommandLine::Default);
    assert_eq!(parse_command_line(&args(&["--verbose"])), CommandLine::Default);
}

#[test]
fn config_names_the_following_path() {
    assert_eq!(
        parse_command_line(&args(&["--config", "/data/options.json"])),
        CommandLine::Config("/data/options.json".to_string())
    );
    assert_eq!(
        parse_command_line(&args(&["-v", "--config", "a.toml", "--help"])),
        CommandLine::Config("a.toml".to_string())
    );
}

#[test]
fn help_wins_when_it_comes_first() {
    assert_eq!(parse_command_line(&args(&["--help", "--config", "a.toml"])), CommandLine::Help);
    assert_eq!(parse_command_line(&args(&["-h"])), CommandLine::Help);
}

#[test]
fn config_without_a_path_names_nothing() {
    assert_eq!(parse_command_line(&args(&["--config"])), CommandLine::Default);
    // The argument after `--config` is taken as the path, whatever it is.
    assert_eq!(
        parse_command_line(&args(&["--config", "--help"])),
        CommandLine::Config("--help".to_string())
    );
}
