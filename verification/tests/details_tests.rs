use infocard::command::{eq_ignoring_case, route, Command, Route};
use infocard::config::{MemoryFormatDisplay, MemoryFormatMetric, UptimeFormat};
use infocard::date::Moment;
use infocard::details::{format_memory, format_uptime, resolve, MemoryStats};
use infocard::failure::Failure;
use infocard::shell::{extract_version_from_output, shell_name};

#[test]
fn a_missing_fact_reads_unknown() {
    assert_eq!(resolve("", &None), "unknown");
}

#[test]
fn a_collected_fact_is_used() {
    assert_eq!(resolve("", &Some("ferris".to_string())), "ferris");
}

#[test]
fn a_configured_fact_comes_first() {
    assert_eq!(resolve("root", &Some("ferris".to_string())), "root");
    assert_eq!(resolve("root", &None), "root");
}

#[test]
fn memory_as_values() {
    let stats = MemoryStats { used: 3_500_000_000, total: 16_000_000_000 };
    assert_eq!(
        format_memory(stats, MemoryFormatDisplay::Values, MemoryFormatMetric::GB),
        "3GB / 16GB"
    );
    assert_eq!(
        format_memory(stats, MemoryFormatDisplay::Values, MemoryFormatMetric::MiB),
        "3337MiB / 15258MiB"
    );
}

#[test]
fn memory_as_percent() {
    let stats = MemoryStats { used: 3_500_000_000, total: 16_000_000_000 };
    assert_eq!(format_memory(stats, MemoryFormatDisplay::Percent, MemoryFormatMetric::GB), "21%");
    let full = MemoryStats { used: u64::MAX, total: u64::MAX };
    assert_eq!(format_memory(full, MemoryFormatDisplay::Percent, MemoryFormatMetric::MiB), "100%");
    let over = MemoryStats { used: u64::MAX, total: 1 };
    assert_eq!(
        format_memory(over, MemoryFormatDisplay::Percent, MemoryFormatMetric::MiB),
        "1844674407370955161500%"
    );
}

#[test]
fn memory_without_any_is_zero_percent() {
    let none = MemoryStats { used: 5, total: 0 };
    assert_eq!(format_memory(none, MemoryFormatDisplay::Percent, MemoryFormatMetric::GB), "0%");
}

#[test]
fn memory_as_both() {
    let stats = MemoryStats { used: 1_048_576, total: 4_194_304 };
    assert_eq!(
        format_memory(stats, MemoryFormatDisplay::Both, MemoryFormatMetric::MiB),
        "1MiB / 4MiB (25%)"
    );
}

#[test]
fn uptime_in_days() {
    assert_eq!(format_uptime(200_000, UptimeFormat::Days), "2d 7h 33m");
    assert_eq!(format_uptime(59, UptimeFormat::Days), "0d 0h 0m");
}

#[test]
fn uptime_in_hours() {
    assert_eq!(format_uptime(200_000, UptimeFormat::Hours), "55h 33m");
}

#[test]
fn uptime_with_colons() {
    assert_eq!(format_uptime(200_000, UptimeFormat::Colon), "55:33:20");
    assert_eq!(format_uptime(3_725, UptimeFormat::Colon), "01:02:05");
    assert_eq!(format_uptime(0, UptimeFormat::Colon), "00:00:00");
    assert_eq!(format_uptime(360_000, UptimeFormat::Colon), "100:00:00");
}

#[test]
fn uptime_hidden_is_empty() {
    assert_eq!(format_uptime(200_000, UptimeFormat::Hidden), "");
}

#[test]
fn a_moment_is_written_under_its_pattern() {
    let epoch = Moment { seconds: 0, offset: 0 };
    assert_eq!(epoch.format("%Y-%m-%d %H:%M:%S"), Some("1970-01-01 00:00:00".to_string()));
    let later = Moment { seconds: 1_700_000_000, offset: 0 };
    assert_eq!(later.format("%d/%m/%Y %H:%M"), Some("14/11/2023 22:13".to_string()));
    assert_eq!(later.format("%A, %B %e"), Some("Tuesday, November 14".to_string()));
}

#[test]
fn a_moment_is_seen_from_its_offset() {
    let east = Moment { seconds: 0, offset: 3600 };
    assert_eq!(east.format("%H:%M %z"), Some("01:00 +0100".to_string()));
    let west = Moment { seconds: 0, offset: -18_000 };
    assert_eq!(west.format("%Y-%m-%d %H:%M"), Some("1969-12-31 19:00".to_string()));
}

#[test]
fn a_pattern_without_fields_is_written_as_it_stands() {
    let epoch = Moment { seconds: 0, offset: 0 };
    assert_eq!(epoch.format("today"), Some("today".to_string()));
    assert_eq!(epoch.format(""), Some("".to_string()));
}

#[test]
fn what_cannot_be_written_gives_nothing() {
    let epoch = Moment { seconds: 0, offset: 0 };
    assert_eq!(epoch.format("%Q"), None);
    assert_eq!(Moment { seconds: 0, offset: 86_400 }.format("%Y"), None);
    assert_eq!(Moment { seconds: i64::MAX, offset: 0 }.format("%Y"), None);
}

#[test]
fn the_shell_is_named_by_the_end_of_its_path() {
    assert_eq!(shell_name("/bin/bash"), "BASH");
    assert_eq!(shell_name("/usr/local/bin/zsh"), "ZSH");
    assert_eq!(shell_name("fish"), "FISH");
    assert_eq!(shell_name("/bin/"), "");
    assert_eq!(shell_name(""), "");
    assert_eq!(shell_name("/opt/straße"), "STRASSE");
}

#[test]
fn the_version_is_the_first_line() {
    let out = b"GNU bash, version 5.2.15\nCopyright (C) 2022\n".to_vec();
    assert_eq!(extract_version_from_output(out), Ok("GNU bash, version 5.2.15".to_string()));
    assert_eq!(extract_version_from_output(b"zsh 5.9".to_vec()), Ok("zsh 5.9".to_string()));
    assert_eq!(extract_version_from_output(Vec::new()), Ok("".to_string()));
    assert_eq!(extract_version_from_output(b"\nsecond".to_vec()), Ok("".to_string()));
}

#[test]
fn a_version_that_is_no_text_is_unavailable() {
    assert_eq!(
        extract_version_from_output(vec![0x66, 0xff, 0x0a]),
        Err(Failure::DetailUnavailable)
    );
}

#[test]
fn only_two_kinds_of_failure_are_fatal() {
    assert!(Failure::ConfigLoadError.is_fatal());
    assert!(Failure::InvalidConfig.is_fatal());
    assert!(!Failure::DetailUnavailable.is_fatal());
    assert!(!Failure::UnknownCommand.is_fatal());
}

#[test]
fn a_subcommand_is_found_whatever_its_case() {
    assert_eq!(Command::parse("init"), Some(Command::Init));
    assert_eq!(Command::parse("RESET"), Some(Command::Reset));
    assert_eq!(Command::parse("Config"), Some(Command::Config));
    assert_eq!(Command::parse("hELP"), Some(Command::Help));
    assert_eq!(Command::parse("create"), Some(Command::Create));
}

#[test]
fn what_names_no_subcommand_is_not_found() {
    assert_eq!(Command::parse(""), None);
    assert_eq!(Command::parse("ini"), None);
    assert_eq!(Command::parse("init "), None);
    assert_eq!(Command::parse("ınit"), None);
}

#[test]
fn subcommands_have_their_names() {
    assert_eq!(Command::Init.as_str(), "Init");
    assert_eq!(Command::Create.as_str(), "Create");
}

#[test]
fn case_is_ignored_for_plain_letters_only() {
    assert!(eq_ignoring_case("AbC", "aBc"));
    assert!(!eq_ignoring_case("é", "É"));
    assert!(!eq_ignoring_case("[", "{"));
    assert!(!eq_ignoring_case("@", "`"));
    assert!(!eq_ignoring_case("ab", "abc"));
}

#[test]
fn no_argument_renders_the_card() {
    assert!(matches!(route(&vec!["card".to_string()]), Route::Base));
    assert!(matches!(route(&Vec::new()), Route::Base));
}

#[test]
fn the_first_argument_chooses_the_subcommand() {
    let args = vec!["card".to_string(), "HELP".to_string(), "more".to_string()];
    assert!(matches!(route(&args), Route::Run(Command::Help)));
}

#[test]
fn an_unknown_argument_is_named() {
    let args = vec!["card".to_string(), "frobnicate".to_string()];
    match route(&args) {
        Route::Unknown(said) => assert_eq!(said, "Matching variant not found: 'frobnicate'"),
        other => panic!("{:?}", other),
    }
}
