//! The card: sections in their fixed order, dividers between them, blank
//! lines around them.

use vstd::prelude::*;
use vstd::string::*;
use crate::config::{Config, Details, UptimeFormat};
use crate::details::{filled, DetailSet, DetailsText};
use crate::esc_seq::{colorize, colorized, push_colorized, EscSeq};
use crate::failure::Failure;
use crate::general::{assemble_blocks, block_line, BlockType};
use crate::text::{blank_lines, repeat_text, repeated, texts};
use crate::wrap::{wrap, wrap_spec};

verus! {

/// One row of the list of facts: the bullet, the label and the value, each
/// in its colour and closed before the next opens.
pub open spec fn row(
    bullet_color: EscSeq,
    bullet: Seq<char>,
    key_color: EscSeq,
    label: Seq<char>,
    value_color: EscSeq,
    value: Seq<char>,
) -> Seq<char> {
    colorized(bullet_color, bullet) + colorized(key_color, label) + colorized(value_color, value)
}

/// `first` unless it is empty, else `second`.
pub open spec fn picked(first: Seq<char>, second: Seq<char>) -> Seq<char> {
    if first.len() > 0 {
        first
    } else {
        second
    }
}

/// The line `line` if it is shown, no line if it is not.
pub open spec fn optional(shown: bool, line: Seq<char>) -> Seq<Seq<char>> {
    if shown {
        seq![line]
    } else {
        Seq::empty()
    }
}

/// The row of the user and the machine's name.
pub open spec fn identity_row(config: Config, d: DetailsText) -> Seq<char> {
    row(
        config.colors.default_bullet_color,
        config.chars.default_bullet@,
        config.colors.user_string_color,
        d.username + "@"@,
        config.colors.machine_string_color,
        d.device_name,
    )
}

/// The row of the operating system.
pub open spec fn interface_row(config: Config, d: DetailsText) -> Seq<char> {
    row(
        config.colors.interface_bullet_color,
        config.chars.interface_bullet@,
        config.colors.detail_key_color,
        "OS: "@,
        config.colors.detail_value_color,
        picked(config.overrides.interface_override@, d.operating_sys_distro),
    )
}

/// The row of the machine's architecture.
pub open spec fn machine_row(config: Config, d: DetailsText) -> Seq<char> {
    row(
        config.colors.machine_bullet_color,
        config.chars.machine_bullet@,
        config.colors.detail_key_color,
        "Arch: "@,
        config.colors.detail_value_color,
        picked(config.overrides.machine_override@, d.machine_architecture),
    )
}

/// The row of the shell: its name, a blank, its version.
pub open spec fn shell_row(config: Config, d: DetailsText) -> Seq<char> {
    row(
        config.colors.shell_bullet_color,
        config.chars.shell_bullet@,
        config.colors.detail_key_color,
        "Shell: "@,
        config.colors.detail_value_color,
        picked(config.overrides.shell_override@, d.machine_shell + " "@ + d.machine_shell_version),
    )
}

/// The row of this process's memory.
pub open spec fn cpu_row(config: Config, d: DetailsText) -> Seq<char> {
    row(
        config.colors.cpu_bullet_color,
        config.chars.cpu_bullet@,
        config.colors.detail_key_color,
        "CPU: "@,
        config.colors.detail_value_color,
        d.cpu_status,
    )
}

/// The row of the machine's memory.
pub open spec fn ram_row(config: Config, d: DetailsText) -> Seq<char> {
    row(
        config.colors.ram_bullet_color,
        config.chars.ram_bullet@,
        config.colors.detail_key_color,
        "RAM: "@,
        config.colors.detail_value_color,
        d.ram_status,
    )
}

/// The row of the time since boot.
pub open spec fn uptime_row(config: Config, d: DetailsText) -> Seq<char> {
    row(
        config.colors.uptime_bullet_color,
        config.chars.uptime_bullet@,
        config.colors.detail_key_color,
        "Uptime: "@,
        config.colors.detail_value_color,
        d.system_uptime,
    )
}

/// The row of the date.
pub open spec fn date_row(config: Config, d: DetailsText) -> Seq<char> {
    row(
        config.colors.date_bullet_color,
        config.chars.date_bullet@,
        config.colors.detail_key_color,
        "Date: "@,
        config.colors.detail_value_color,
        d.current_date_time,
    )
}

/// Whether the uptime has a row: unless it is switched off, by its flag or
/// by its format.
pub open spec fn uptime_shown(config: Config) -> bool {
    !config.overrides.uptime_override && config.formats.uptime_format != UptimeFormat::Hidden
}

/// The list of facts, in its fixed order. The first four rows always
/// stand; each of the others unless its flag takes it off.
pub open spec fn keys_lines(config: Config, d: DetailsText) -> Seq<Seq<char>> {
    seq![
        identity_row(config, d),
        interface_row(config, d),
        machine_row(config, d),
        shell_row(config, d),
    ] + optional(!config.overrides.cpu_override, cpu_row(config, d)) + optional(
        !config.overrides.ram_override,
        ram_row(config, d),
    ) + optional(uptime_shown(config), uptime_row(config, d)) + optional(
        !config.overrides.date_override,
        date_row(config, d),
    )
}

/// The two palettes, the plain one first.
pub open spec fn blocks_lines(config: Config) -> Seq<Seq<char>> {
    seq![
        block_line(BlockType::Normal, config.alignments.color_block_padding as nat),
        block_line(BlockType::Light, config.alignments.color_block_padding as nat),
    ]
}

/// Each of `lines` in the colour of `token`.
pub open spec fn colorized_each(token: EscSeq, lines: Seq<Seq<char>>) -> Seq<Seq<char>> {
    Seq::new(lines.len(), |i: int| colorized(token, lines[i]))
}

/// The welcome message, wrapped, each line in the colour of descriptions.
pub open spec fn message_lines(config: Config, d: DetailsText) -> Seq<Seq<char>> {
    colorized_each(
        config.colors.text_description_color,
        wrap_spec(d.welcome_message, config.alignments.word_wrap as nat),
    )
}

/// The divider: its glyph as often as configured, in its colour.
pub open spec fn divider(config: Config) -> Seq<char> {
    colorized(
        config.colors.hr_color,
        repeated(config.chars.hr_divider_node@, config.alignments.hr_node_repeat as nat),
    )
}

/// The whole card. Blank lines first, as many as `space_before` and
/// `lines_before` together. Then the sections that are switched on, always
/// in the order palettes, facts, message, with one divider between two
/// neighbours. Then blank lines, as many as `space_after` and `lines_after`
/// together.
pub open spec fn card(config: Config, d: DetailsText) -> Seq<Seq<char>> {
    let shows = config.displays;
    blank_lines((config.alignments.space_before + config.alignments.lines_before) as nat) + (
    if shows.should_display_blocks {
        blocks_lines(config)
    } else {
        Seq::empty()
    }) + (if shows.should_display_keys {
        optional(shows.should_display_blocks, divider(config)) + keys_lines(config, d)
    } else {
        Seq::empty()
    }) + (if shows.should_display_text {
        optional(shows.should_display_blocks || shows.should_display_keys, divider(config))
            + message_lines(config, d)
    } else {
        Seq::empty()
    }) + blank_lines((config.alignments.space_after + config.alignments.lines_after) as nat)
}

/// Whether the card can be laid out: the message is not to be wrapped at
/// width zero.
pub open spec fn can_assemble(config: Config) -> bool {
    config.displays.should_display_text ==> config.alignments.word_wrap > 0
}

/// The lines as they are printed: each followed by a line feed.
pub open spec fn printed(lines: Seq<Seq<char>>) -> Seq<char>
    decreases lines.len(),
{
    if lines.len() == 0 {
        Seq::empty()
    } else {
        printed(lines.drop_last()) + lines.last() + seq!['\n']
    }
}

/// One row of the list of facts.
pub fn make_row(
    bullet_color: &EscSeq,
    bullet: &str,
    key_color: &EscSeq,
    label: &str,
    value_color: &EscSeq,
    value: &str,
) -> (line: String)
    ensures
        line@ == row(*bullet_color, bullet@, *key_color, label@, *value_color, value@),
{
    let mut line = String::new();
    push_colorized(&mut line, bullet_color, bullet);
    push_colorized(&mut line, key_color, label);
    push_colorized(&mut line, value_color, value);
    proof {
        assert(line@ =~= row(*bullet_color, bullet@, *key_color, label@, *value_color, value@));
    }
    line
}

/// `first` unless it is empty, else `second`.
fn pick<'a>(first: &'a str, second: &'a str) -> (out: &'a str)
    ensures
        out@ == picked(first@, second@),
{
    if first.unicode_len() > 0 {
        first
    } else {
        second
    }
}

/// Adds `line` to `lines` if it is shown.
fn push_optional(lines: &mut Vec<String>, shown: bool, line: String)
    ensures
        texts(final(lines)@) == texts(old(lines)@) + optional(shown, line@),
{
    if shown {
        lines.push(line);
    }
    proof {
        assert(texts(final(lines)@) =~= texts(old(lines)@) + optional(shown, line@));
    }
}

/// Adds a copy of each of `more` to `lines`.
fn append_lines(lines: &mut Vec<String>, more: &Vec<String>)
    ensures
        texts(final(lines)@) == texts(old(lines)@) + texts(more@),
{
    let mut i: usize = 0;
    proof {
        assert(texts(lines@) =~= texts(old(lines)@) + texts(more@).take(0));
    }
    while i < more.len()
        invariant
            i <= more@.len(),
            texts(lines@) == texts(old(lines)@) + texts(more@).take(i as int),
        decreases more@.len() - i,
    {
        let ghost before = lines@;
        lines.push(more[i].clone());
        i += 1;
        proof {
            assert(texts(lines@) =~= texts(before).push(more@[i - 1]@));
            assert(texts(lines@) =~= texts(old(lines)@) + texts(more@).take(i as int));
        }
    }
    proof {
        assert(texts(more@).take(i as int) =~= texts(more@));
    }
}

/// Adds `n` empty lines to `lines`.
fn push_blank_lines(lines: &mut Vec<String>, n: usize)
    ensures
        texts(final(lines)@) == texts(old(lines)@) + blank_lines(n as nat),
{
    let mut i: usize = 0;
    proof {
        assert(texts(lines@) =~= texts(old(lines)@) + blank_lines(0));
    }
    while i < n
        invariant
            i <= n,
            texts(lines@) == texts(old(lines)@) + blank_lines(i as nat),
        decreases n - i,
    {
        let ghost before = lines@;
        lines.push(String::new());
        i += 1;
        proof {
            assert(texts(lines@) =~= texts(before).push(Seq::<char>::empty()));
            assert(texts(lines@) =~= texts(old(lines)@) + blank_lines(i as nat));
        }
    }
}

/// The list of facts, in its fixed order.
pub fn assemble_details(config: &Config, d: &Details) -> (lines: Vec<String>)
    ensures
        texts(lines@) == keys_lines(*config, d@),
{
    let colors = &config.colors;
    let chars = &config.chars;
    let over = &config.overrides;
    let mut user = d.username.clone();
    user.append("@");
    let mut shell = d.machine_shell.clone();
    shell.append(" ");
    shell.append(d.machine_shell_version.as_str());
    let mut lines: Vec<String> = Vec::new();
    lines.push(
        make_row(
            &colors.default_bullet_color,
            chars.default_bullet.as_str(),
            &colors.user_string_color,
            user.as_str(),
            &colors.machine_string_color,
            d.device_name.as_str(),
        ),
    );
    lines.push(
        make_row(
            &colors.interface_bullet_color,
            chars.interface_bullet.as_str(),
            &colors.detail_key_color,
            "OS: ",
            &colors.detail_value_color,
            pick(over.interface_override.as_str(), d.operating_sys_distro.as_str()),
        ),
    );
    lines.push(
        make_row(
            &colors.machine_bullet_color,
            chars.machine_bullet.as_str(),
            &colors.detail_key_color,
            "Arch: ",
            &colors.detail_value_color,
            pick(over.machine_override.as_str(), d.machine_architecture.as_str()),
        ),
    );
    lines.push(
        make_row(
            &colors.shell_bullet_color,
            chars.shell_bullet.as_str(),
            &colors.detail_key_color,
            "Shell: ",
            &colors.detail_value_color,
            pick(over.shell_override.as_str(), shell.as_str()),
        ),
    );
    proof {
        assert(texts(lines@) =~= seq![
            identity_row(*config, d@),
            interface_row(*config, d@),
            machine_row(*config, d@),
            shell_row(*config, d@),
        ]);
    }
    let uptime_on = !over.uptime_override && !matches!(
        config.formats.uptime_format,
        UptimeFormat::Hidden
    );
    push_optional(
        &mut lines,
        !over.cpu_override,
        make_row(
            &colors.cpu_bullet_color,
            chars.cpu_bullet.as_str(),
            &colors.detail_key_color,
            "CPU: ",
            &colors.detail_value_color,
            d.cpu_status.as_str(),
        ),
    );
    push_optional(
        &mut lines,
        !over.ram_override,
        make_row(
            &colors.ram_bullet_color,
            chars.ram_bullet.as_str(),
            &colors.detail_key_color,
            "RAM: ",
            &colors.detail_value_color,
            d.ram_status.as_str(),
        ),
    );
    push_optional(
        &mut lines,
        uptime_on,
        make_row(
            &colors.uptime_bullet_color,
            chars.uptime_bullet.as_str(),
            &colors.detail_key_color,
            "Uptime: ",
            &colors.detail_value_color,
            d.system_uptime.as_str(),
        ),
    );
    push_optional(
        &mut lines,
        !over.date_override,
        make_row(
            &colors.date_bullet_color,
            chars.date_bullet.as_str(),
            &colors.detail_key_color,
            "Date: ",
            &colors.detail_value_color,
            d.current_date_time.as_str(),
        ),
    );
    lines
}

/// The welcome message, wrapped at the configured width, each line in the
/// colour of descriptions. A width of zero is refused.
pub fn assemble_message(config: &Config, d: &Details) -> (r: Result<Vec<String>, Failure>)
    ensures
        match r {
            Ok(lines) => config.alignments.word_wrap > 0 && texts(lines@) == message_lines(
                *config,
                d@,
            ),
            Err(e) => config.alignments.word_wrap == 0 && e == Failure::InvalidConfig,
        },
{
    let wrapped = match wrap(d.welcome_message.as_str(), config.alignments.word_wrap as usize) {
        Ok(lines) => lines,
        Err(e) => {
            return Err(e);
        },
    };
    let mut lines: Vec<String> = Vec::new();
    let mut i: usize = 0;
    while i < wrapped.len()
        invariant
            i <= wrapped@.len(),
            lines@.len() == i,
            forall|j: int|
                0 <= j < i ==> (#[trigger] lines@[j])@ == colorized(
                    config.colors.text_description_color,
                    wrapped@[j]@,
                ),
        decreases wrapped@.len() - i,
    {
        lines.push(colorize(&config.colors.text_description_color, wrapped[i].as_str()));
        i += 1;
    }
    proof {
        assert(texts(lines@) =~= message_lines(*config, d@));
    }
    Ok(lines)
}

/// The divider if it is shown, no line if it is not.
fn divider_lines(config: &Config, shown: bool) -> (lines: Vec<String>)
    ensures
        texts(lines@) == optional(shown, divider(*config)),
{
    let mut lines: Vec<String> = Vec::new();
    if shown {
        let bar = repeat_text(
            config.chars.hr_divider_node.as_str(),
            config.alignments.hr_node_repeat as usize,
        );
        lines.push(colorize(&config.colors.hr_color, bar.as_str()));
    }
    proof {
        assert(texts(lines@) =~= optional(shown, divider(*config)));
    }
    lines
}

/// Lays out the card from the configuration and the filled-in texts.
///
/// Fails only where the message is to be shown and the wrap width is zero;
/// then nothing is returned, not even the sections before the message.
pub fn assemble(config: &Config, d: &Details) -> (r: Result<Vec<String>, Failure>)
    ensures
        match r {
            Ok(lines) => can_assemble(*config) && texts(lines@) == card(*config, d@),
            Err(e) => !can_assemble(*config) && e == Failure::InvalidConfig,
        },
{
    let shows = &config.displays;
    let space = &config.alignments;
    let message: Vec<String> = if shows.should_display_text {
        let mut part = divider_lines(
            config,
            shows.should_display_blocks || shows.should_display_keys,
        );
        match assemble_message(config, d) {
            Ok(lines) => {
                append_lines(&mut part, &lines);
            },
            Err(e) => {
                return Err(e);
            },
        }
        part
    } else {
        Vec::new()
    };
    let blocks: Vec<String> = if shows.should_display_blocks {
        let mut part: Vec<String> = Vec::new();
        part.push(assemble_blocks(BlockType::Normal, space.color_block_padding));
        part.push(assemble_blocks(BlockType::Light, space.color_block_padding));
        part
    } else {
        Vec::new()
    };
    let keys: Vec<String> = if shows.should_display_keys {
        let mut part = divider_lines(config, shows.should_display_blocks);
        let rows = assemble_details(config, d);
        append_lines(&mut part, &rows);
        part
    } else {
        Vec::new()
    };
    proof {
        assert(texts(blocks@) =~= (if shows.should_display_blocks {
            blocks_lines(*config)
        } else {
            Seq::empty()
        }));
        assert(texts(keys@) =~= (if shows.should_display_keys {
            optional(shows.should_display_blocks, divider(*config)) + keys_lines(*config, d@)
        } else {
            Seq::empty()
        }));
        assert(texts(message@) =~= (if shows.should_display_text {
            optional(
                shows.should_display_blocks || shows.should_display_keys,
                divider(*config),
            ) + message_lines(*config, d@)
        } else {
            Seq::empty()
        }));
    }
    let mut lines: Vec<String> = Vec::new();
    push_blank_lines(&mut lines, space.space_before as usize + space.lines_before as usize);
    proof {
        assert(texts(lines@) =~= blank_lines((space.space_before + space.lines_before) as nat));
    }
    append_lines(&mut lines, &blocks);
    append_lines(&mut lines, &keys);
    append_lines(&mut lines, &message);
    push_blank_lines(&mut lines, space.space_after as usize + space.lines_after as usize);
    Ok(lines)
}

/// Renders the card: fills the texts from what was collected, then lays the
/// card out.
pub fn render(config: &Config, details: &DetailSet) -> (r: Result<Vec<String>, Failure>)
    ensures
        match r {
            Ok(lines) => can_assemble(*config) && texts(lines@) == card(
                *config,
                filled(*config, *details),
            ),
            Err(e) => !can_assemble(*config) && e == Failure::InvalidConfig,
        },
{
    let d = details.fill(config);
    assemble(config, &d)
}

/// The lines as they are printed: each followed by a line feed.
pub fn print_lines(lines: &Vec<String>) -> (out: String)
    ensures
        out@ == printed(texts(lines@)),
{
    let mut out = String::new();
    let mut i: usize = 0;
    let ghost all = texts(lines@);
    proof {
        reveal_strlit("\n");
        assert("\n"@ =~= seq!['\n']);
        assert(all.take(0) =~= Seq::<Seq<char>>::empty());
        assert(out@ =~= printed(all.take(0)));
    }
    while i < lines.len()
        invariant
            i <= lines@.len(),
            all == texts(lines@),
            "\n"@ == seq!['\n'],
            out@ == printed(all.take(i as int)),
        decreases lines@.len() - i,
    {
        out.append(lines[i].as_str());
        out.append("\n");
        proof {
            assert(all.take(i + 1).drop_last() =~= all.take(i as int));
            assert(all.take(i + 1).last() == lines@[i as int]@);
        }
        i += 1;
    }
    proof {
        assert(all.take(i as int) =~= all);
    }
    out
}

/// What a run without a subcommand prints: the card for `config` and
/// `details`, every line ended by a line feed. A configuration with a
/// numeric field out of range is refused, whatever it shows, and nothing is
/// printed.
pub fn base_command(config: &Config, details: &DetailSet) -> (r: Result<String, Failure>)
    ensures
        match r {
            Ok(out) => config.valid() && out@ == printed(
                card(*config, filled(*config, *details)),
            ),
            Err(e) => !config.valid() && e == Failure::InvalidConfig,
        },
{
    match config.validate() {
        Ok(_) => {},
        Err(e) => {
            return Err(e);
        },
    }
    match render(config, details) {
        Ok(lines) => Ok(print_lines(&lines)),
        Err(e) => Err(e),
    }
}

} // verus!
