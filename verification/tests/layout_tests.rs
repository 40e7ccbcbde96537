use infocard::config::{
    Alignment, BulletChar, Config, Details, Display, Formats, MemoryFormatDisplay,
    MemoryFormatMetric, Override, TextColor, UptimeFormat,
};
use infocard::date::Moment;
use infocard::details::{DetailSet, MemoryStats};
use infocard::esc_seq::EscSeq;
use infocard::failure::Failure;
use infocard::layout::{
    assemble, assemble_details, assemble_message, base_command, make_row, print_lines, render,
};

fn config() -> Config {
    Config {
        formats: Formats {
            date_format: "%Y-%m-%d".to_string(),
            uptime_format: UptimeFormat::Hours,
            cpu_memory_format: (MemoryFormatDisplay::Values, MemoryFormatMetric::MiB),
            ram_memory_format: (MemoryFormatDisplay::Both, MemoryFormatMetric::GB),
        },
        displays: Display {
            should_display_image: false,
            should_display_blocks: true,
            should_display_text: true,
            should_display_keys: true,
        },
        alignments: Alignment {
            space_before: 1,
            space_after: 0,
            lines_before: 1,
            lines_after: 1,
            hr_node_repeat: 3,
            word_wrap: 10,
            color_block_padding: 1,
        },
        chars: BulletChar {
            hr_divider_node: "-".to_string(),
            default_bullet: "* ".to_string(),
            interface_bullet: "> ".to_string(),
            machine_bullet: "# ".to_string(),
            shell_bullet: "$ ".to_string(),
            cpu_bullet: "c ".to_string(),
            ram_bullet: "r ".to_string(),
            uptime_bullet: "u ".to_string(),
            date_bullet: "d ".to_string(),
        },
        colors: TextColor {
            user_string_color: EscSeq::Red,
            machine_string_color: EscSeq::Green,
            hr_color: EscSeq::Yellow,
            detail_key_color: EscSeq::Blue,
            detail_value_color: EscSeq::Magenta,
            text_description_color: EscSeq::Cyan,
            default_bullet_color: EscSeq::White,
            interface_bullet_color: EscSeq::LightRed,
            machine_bullet_color: EscSeq::LightGreen,
            shell_bullet_color: EscSeq::LightYellow,
            cpu_bullet_color: EscSeq::LightBlue,
            ram_bullet_color: EscSeq::LightMagenta,
            uptime_bullet_color: EscSeq::LightCyan,
            date_bullet_color: EscSeq::LightWhite,
        },
        overrides: Override {
            interface_override: String::new(),
            machine_override: String::new(),
            shell_override: String::new(),
            cpu_override: false,
            ram_override: false,
            uptime_override: false,
            date_override: false,
        },
        details: Details {
            username: String::new(),
            device_name: String::new(),
            operating_sys_distro: String::new(),
            machine_architecture: String::new(),
            machine_shell: String::new(),
            machine_shell_version: String::new(),
            cpu_status: String::new(),
            ram_status: String::new(),
            system_uptime: String::new(),
            current_date_time: String::new(),
            welcome_message: "The quick brown fox jumps".to_string(),
        },
    }
}

fn collected() -> DetailSet {
    DetailSet {
        username: Some("ferris".to_string()),
        device_name: Some("crab".to_string()),
        distro: Some("Debian 12".to_string()),
        architecture: Some("x86_64".to_string()),
        shell_name: Some("BASH".to_string()),
        shell_version: Some("5.2".to_string()),
        cpu_memory: Some(MemoryStats { used: 2_097_152, total: 8_388_608 }),
        ram_memory: Some(MemoryStats { used: 4_000_000_000, total: 16_000_000_000 }),
        uptime: Some(3_725),
        current_time: Some(Moment { seconds: 1_700_000_000, offset: 0 }),
    }
}

fn nothing_collected() -> DetailSet {
    DetailSet {
        username: None,
        device_name: None,
        distro: None,
        architecture: None,
        shell_name: None,
        shell_version: None,
        cpu_memory: None,
        ram_memory: None,
        uptime: None,
        current_time: None,
    }
}

fn palette(base: &str) -> String {
    (0..9).map(|i| format!("\x1b[{}{}m \x1b[0m", base, i)).collect()
}

fn full_card() -> Vec<String> {
    vec![
        "".to_string(),
        "".to_string(),
        palette("4"),
        palette("10"),
        "\x1b[33m---\x1b[0m".to_string(),
        "\x1b[37m* \x1b[0m\x1b[31mferris@\x1b[0m\x1b[32mcrab\x1b[0m".to_string(),
        "\x1b[91m> \x1b[0m\x1b[34mOS: \x1b[0m\x1b[35mDebian 12\x1b[0m".to_string(),
        "\x1b[92m# \x1b[0m\x1b[34mArch: \x1b[0m\x1b[35mx86_64\x1b[0m".to_string(),
        "\x1b[93m$ \x1b[0m\x1b[34mShell: \x1b[0m\x1b[35mBASH 5.2\x1b[0m".to_string(),
        "\x1b[94mc \x1b[0m\x1b[34mCPU: \x1b[0m\x1b[35m2MiB / 8MiB\x1b[0m".to_string(),
        "\x1b[95mr \x1b[0m\x1b[34mRAM: \x1b[0m\x1b[35m4GB / 16GB (25%)\x1b[0m".to_string(),
        "\x1b[96mu \x1b[0m\x1b[34mUptime: \x1b[0m\x1b[35m1h 2m\x1b[0m".to_string(),
        "\x1b[97md \x1b[0m\x1b[34mDate: \x1b[0m\x1b[35m2023-11-14\x1b[0m".to_string(),
        "\x1b[33m---\x1b[0m".to_string(),
        "\x1b[36mThe quick\x1b[0m".to_string(),
        "\x1b[36mbrown fox\x1b[0m".to_string(),
        "\x1b[36mjumps\x1b[0m".to_string(),
        "".to_string(),
    ]
}

#[test]
fn the_whole_card() {
    assert_eq!(render(&config(), &collected()), Ok(full_card()));
}

#[test]
fn the_card_is_printed_line_by_line() {
    let mut expected = full_card().join("\n");
    expected.push('\n');
    assert_eq!(base_command(&config(), &collected()), Ok(expected));
}

#[test]
fn zero_wrap_width_prints_nothing() {
    let mut c = config();
    c.alignments.word_wrap = 0;
    assert_eq!(c.validate(), Err(Failure::InvalidConfig));
    assert_eq!(base_command(&c, &collected()), Err(Failure::InvalidConfig));
    assert_eq!(render(&c, &collected()), Err(Failure::InvalidConfig));
}

#[test]
fn zero_wrap_width_is_refused_even_without_a_message() {
    let mut c = config();
    c.alignments.word_wrap = 0;
    c.displays.should_display_text = false;
    assert_eq!(base_command(&c, &collected()), Err(Failure::InvalidConfig));
    assert!(render(&c, &collected()).is_ok());
}

#[test]
fn a_valid_configuration_passes() {
    assert_eq!(config().validate(), Ok(()));
}

#[test]
fn rendering_twice_gives_the_same_bytes() {
    let first = base_command(&config(), &collected()).unwrap();
    let second = base_command(&config(), &collected()).unwrap();
    assert_eq!(first.as_bytes(), second.as_bytes());
}

#[test]
fn missing_facts_read_unknown() {
    let lines = render(&config(), &nothing_collected()).unwrap();
    assert_eq!(lines[5], "\x1b[37m* \x1b[0m\x1b[31munknown@\x1b[0m\x1b[32munknown\x1b[0m");
    assert_eq!(lines[6], "\x1b[91m> \x1b[0m\x1b[34mOS: \x1b[0m\x1b[35munknown\x1b[0m");
    assert_eq!(lines[7], "\x1b[92m# \x1b[0m\x1b[34mArch: \x1b[0m\x1b[35munknown\x1b[0m");
    assert_eq!(lines[8], "\x1b[93m$ \x1b[0m\x1b[34mShell: \x1b[0m\x1b[35munknown unknown\x1b[0m");
    assert_eq!(lines[9], "\x1b[94mc \x1b[0m\x1b[34mCPU: \x1b[0m\x1b[35munknown\x1b[0m");
    assert_eq!(lines[10], "\x1b[95mr \x1b[0m\x1b[34mRAM: \x1b[0m\x1b[35munknown\x1b[0m");
    assert_eq!(lines[11], "\x1b[96mu \x1b[0m\x1b[34mUptime: \x1b[0m\x1b[35munknown\x1b[0m");
    assert_eq!(lines[12], "\x1b[97md \x1b[0m\x1b[34mDate: \x1b[0m\x1b[35munknown\x1b[0m");
    assert_eq!(lines.len(), 18);
}

#[test]
fn a_date_that_cannot_be_written_reads_unknown() {
    let mut c = config();
    c.formats.date_format = "%Q".to_string();
    let lines = render(&c, &collected()).unwrap();
    assert_eq!(lines[12], "\x1b[97md \x1b[0m\x1b[34mDate: \x1b[0m\x1b[35munknown\x1b[0m");
}

#[test]
fn an_override_replaces_the_collected_fact() {
    let mut c = config();
    c.overrides.interface_override = "Plan 9".to_string();
    c.overrides.machine_override = "pdp11".to_string();
    c.overrides.shell_override = "rc".to_string();
    let lines = render(&c, &nothing_collected()).unwrap();
    assert_eq!(lines[6], "\x1b[91m> \x1b[0m\x1b[34mOS: \x1b[0m\x1b[35mPlan 9\x1b[0m");
    assert_eq!(lines[7], "\x1b[92m# \x1b[0m\x1b[34mArch: \x1b[0m\x1b[35mpdp11\x1b[0m");
    assert_eq!(lines[8], "\x1b[93m$ \x1b[0m\x1b[34mShell: \x1b[0m\x1b[35mrc\x1b[0m");
}

#[test]
fn a_filled_in_text_comes_before_the_collected_fact() {
    let mut c = config();
    c.details.username = "root".to_string();
    c.details.ram_status = "plenty".to_string();
    c.details.current_date_time = "today".to_string();
    let lines = render(&c, &collected()).unwrap();
    assert_eq!(lines[5], "\x1b[37m* \x1b[0m\x1b[31mroot@\x1b[0m\x1b[32mcrab\x1b[0m");
    assert_eq!(lines[10], "\x1b[95mr \x1b[0m\x1b[34mRAM: \x1b[0m\x1b[35mplenty\x1b[0m");
    assert_eq!(lines[12], "\x1b[97md \x1b[0m\x1b[34mDate: \x1b[0m\x1b[35mtoday\x1b[0m");
}

#[test]
fn a_flag_takes_its_row_off() {
    let mut c = config();
    c.overrides.cpu_override = true;
    c.overrides.uptime_override = true;
    let lines = render(&c, &collected()).unwrap();
    let mut expected = full_card();
    expected.remove(11);
    expected.remove(9);
    assert_eq!(lines, expected);
    c.overrides.ram_override = true;
    c.overrides.date_override = true;
    let lines = render(&c, &collected()).unwrap();
    expected.remove(10);
    expected.remove(9);
    assert_eq!(lines, expected);
}

#[test]
fn a_hidden_uptime_has_no_row() {
    let mut c = config();
    c.formats.uptime_format = UptimeFormat::Hidden;
    let lines = render(&c, &collected()).unwrap();
    let mut expected = full_card();
    expected.remove(11);
    assert_eq!(lines, expected);
}

#[test]
fn only_the_sections_switched_on_are_shown() {
    let mut c = config();
    c.displays.should_display_blocks = false;
    let mut expected = full_card();
    expected.drain(2..5);
    assert_eq!(render(&c, &collected()), Ok(expected));

    let mut c = config();
    c.displays.should_display_keys = false;
    let mut expected = full_card();
    expected.drain(4..13);
    assert_eq!(render(&c, &collected()), Ok(expected));

    let mut c = config();
    c.displays.should_display_text = false;
    let mut expected = full_card();
    expected.drain(13..17);
    assert_eq!(render(&c, &collected()), Ok(expected));
}

#[test]
fn a_single_section_has_no_divider() {
    let mut c = config();
    c.displays.should_display_blocks = false;
    c.displays.should_display_keys = false;
    let expected = vec![
        "".to_string(),
        "".to_string(),
        "\x1b[36mThe quick\x1b[0m".to_string(),
        "\x1b[36mbrown fox\x1b[0m".to_string(),
        "\x1b[36mjumps\x1b[0m".to_string(),
        "".to_string(),
    ];
    assert_eq!(render(&c, &collected()), Ok(expected));
}

#[test]
fn nothing_switched_on_leaves_the_blank_lines() {
    let mut c = config();
    c.displays.should_display_blocks = false;
    c.displays.should_display_keys = false;
    c.displays.should_display_text = false;
    c.alignments.space_after = 2;
    assert_eq!(render(&c, &collected()), Ok(vec![String::new(); 5]));
    assert_eq!(base_command(&c, &collected()), Ok("\n\n\n\n\n".to_string()));
}

#[test]
fn the_image_flag_changes_nothing() {
    let mut c = config();
    c.displays.should_display_image = true;
    assert_eq!(render(&c, &collected()), Ok(full_card()));
}

#[test]
fn blank_lines_can_fill_both_bytes() {
    let mut c = config();
    c.displays.should_display_blocks = false;
    c.displays.should_display_keys = false;
    c.displays.should_display_text = false;
    c.alignments.space_before = 255;
    c.alignments.lines_before = 255;
    c.alignments.space_after = 0;
    c.alignments.lines_after = 0;
    assert_eq!(render(&c, &collected()).unwrap().len(), 510);
}

#[test]
fn the_divider_repeats_its_glyph() {
    let mut c = config();
    c.chars.hr_divider_node = "=-".to_string();
    c.alignments.hr_node_repeat = 2;
    let lines = render(&c, &collected()).unwrap();
    assert_eq!(lines[4], "\x1b[33m=-=-\x1b[0m");
    assert_eq!(lines[13], "\x1b[33m=-=-\x1b[0m");
    c.alignments.hr_node_repeat = 0;
    let lines = render(&c, &collected()).unwrap();
    assert_eq!(lines[4], "\x1b[33m\x1b[0m");
}

#[test]
fn assemble_lays_out_what_it_is_given() {
    let c = config();
    let d = collected().fill(&c);
    assert_eq!(d.system_uptime, "1h 2m");
    assert_eq!(d.welcome_message, "The quick brown fox jumps");
    assert_eq!(assemble(&c, &d), Ok(full_card()));
    assert_eq!(assemble_details(&c, &d), full_card()[5..13].to_vec());
    assert_eq!(assemble_message(&c, &d), Ok(full_card()[14..17].to_vec()));
}

#[test]
fn a_row_is_three_coloured_parts() {
    assert_eq!(
        make_row(&EscSeq::Red, "-", &EscSeq::Green, "key", &EscSeq::Blue, "value"),
        "\x1b[31m-\x1b[0m\x1b[32mkey\x1b[0m\x1b[34mvalue\x1b[0m"
    );
}

#[test]
fn printed_lines_end_with_a_line_feed() {
    assert_eq!(print_lines(&vec!["a".to_string(), "".to_string(), "b".to_string()]), "a\n\nb\n");
    assert_eq!(print_lines(&Vec::new()), "");
}
