//! What holds of every card.

use vstd::prelude::*;
use crate::config::Config;
use crate::details::{
    date_fact, filled, memory_fact, opt_text, unknown, uptime_fact, DetailSet, DetailsText,
};
use crate::esc_seq::{reset_seq, EscSeq};
use crate::layout::{
    blocks_lines, card, cpu_row, date_row, divider, identity_row, interface_row, keys_lines,
    machine_row, message_lines, optional, printed, ram_row, row, shell_row, uptime_row,
    uptime_shown,
};
use crate::text::{blank_lines, texts};

verus! {

/// A fact that the configuration leaves open and that was not collected
/// reads "unknown" among the card's texts.
pub proof fn lemma_absent_facts_read_unknown(config: Config, set: DetailSet)
    ensures
        config.details.username@.len() == 0 && set.username is None ==> filled(
            config,
            set,
        ).username == unknown(),
        config.details.device_name@.len() == 0 && set.device_name is None ==> filled(
            config,
            set,
        ).device_name == unknown(),
        config.details.operating_sys_distro@.len() == 0 && set.distro is None ==> filled(
            config,
            set,
        ).operating_sys_distro == unknown(),
        config.details.machine_architecture@.len() == 0 && set.architecture is None ==> filled(
            config,
            set,
        ).machine_architecture == unknown(),
        config.details.machine_shell@.len() == 0 && set.shell_name is None ==> filled(
            config,
            set,
        ).machine_shell == unknown(),
        config.details.machine_shell_version@.len() == 0 && set.shell_version is None ==> filled(
            config,
            set,
        ).machine_shell_version == unknown(),
        config.details.cpu_status@.len() == 0 && set.cpu_memory is None ==> filled(
            config,
            set,
        ).cpu_status == unknown(),
        config.details.ram_status@.len() == 0 && set.ram_memory is None ==> filled(
            config,
            set,
        ).ram_status == unknown(),
        config.details.system_uptime@.len() == 0 && set.uptime is None ==> filled(
            config,
            set,
        ).system_uptime == unknown(),
        config.details.current_date_time@.len() == 0 && set.current_time is None ==> filled(
            config,
            set,
        ).current_date_time == unknown(),
        unknown().len() > 0,
{
    reveal_strlit("unknown");
}

/// A row ends with its value, followed only by the reset.
pub proof fn lemma_row_ends_with_value(
    bullet_color: EscSeq,
    bullet: Seq<char>,
    key_color: EscSeq,
    label: Seq<char>,
    value_color: EscSeq,
    value: Seq<char>,
)
    ensures
        ({
            let line = row(bullet_color, bullet, key_color, label, value_color, value);
            &&& line.len() >= value.len() + 4
            &&& line.subrange(line.len() - 4 - value.len(), line.len() - 4) == value
            &&& line.subrange(line.len() - 4, line.len() as int) == reset_seq()
        }),
{
    let line = row(bullet_color, bullet, key_color, label, value_color, value);
    assert(line.subrange(line.len() - 4 - value.len(), line.len() - 4) =~= value);
    assert(line.subrange(line.len() - 4, line.len() as int) =~= reset_seq());
}

/// The list of facts holds every row that is not taken off, the first four
/// at the head and in their order.
pub proof fn lemma_keys_hold_rows(config: Config, d: DetailsText)
    ensures
        keys_lines(config, d).len() >= 4,
        keys_lines(config, d)[0] == identity_row(config, d),
        keys_lines(config, d)[1] == interface_row(config, d),
        keys_lines(config, d)[2] == machine_row(config, d),
        keys_lines(config, d)[3] == shell_row(config, d),
        !config.overrides.cpu_override ==> keys_lines(config, d).contains(cpu_row(config, d)),
        !config.overrides.ram_override ==> keys_lines(config, d).contains(ram_row(config, d)),
        uptime_shown(config) ==> keys_lines(config, d).contains(uptime_row(config, d)),
        !config.overrides.date_override ==> keys_lines(config, d).contains(date_row(config, d)),
{
    let keys = keys_lines(config, d);
    let cpu: int = if config.overrides.cpu_override {
        0
    } else {
        1
    };
    let ram: int = if config.overrides.ram_override {
        0
    } else {
        1
    };
    let uptime: int = if uptime_shown(config) {
        1
    } else {
        0
    };
    if !config.overrides.cpu_override {
        assert(keys[4] == cpu_row(config, d));
    }
    if !config.overrides.ram_override {
        assert(keys[4 + cpu] == ram_row(config, d));
    }
    if uptime_shown(config) {
        assert(keys[4 + cpu + ram] == uptime_row(config, d));
    }
    if !config.overrides.date_override {
        assert(keys[4 + cpu + ram + uptime] == date_row(config, d));
    }
}

/// A piece in the middle of a row of pieces stands where the pieces before
/// it end.
pub proof fn lemma_piece_in_place<T>(
    before: Seq<T>,
    gap: Seq<T>,
    piece: Seq<T>,
    mid: Seq<T>,
    after: Seq<T>,
)
    ensures
        ({
            let whole = before + (gap + piece) + mid + after;
            let start = (before.len() + gap.len()) as int;
            &&& start + piece.len() <= whole.len()
            &&& whole.subrange(start, start + piece.len()) == piece
        }),
{
    let whole = before + (gap + piece) + mid + after;
    let start = (before.len() + gap.len()) as int;
    assert(whole.subrange(start, start + piece.len()) =~= piece);
}

/// What stands in the card before the list of facts: the leading blank
/// lines and, if they are shown, the palettes.
pub open spec fn before_keys(config: Config) -> Seq<Seq<char>> {
    blank_lines((config.alignments.space_before + config.alignments.lines_before) as nat) + (
    if config.displays.should_display_blocks {
        blocks_lines(config)
    } else {
        Seq::empty()
    })
}

/// What stands in the card after the list of facts: the message, if it is
/// shown, behind its divider.
pub open spec fn after_keys(config: Config, d: DetailsText) -> Seq<Seq<char>> {
    if config.displays.should_display_text {
        optional(
            config.displays.should_display_blocks || config.displays.should_display_keys,
            divider(config),
        ) + message_lines(config, d)
    } else {
        Seq::empty()
    }
}

/// The card with the list of facts, piece by piece.
pub proof fn lemma_card_pieces(config: Config, d: DetailsText)
    requires
        config.displays.should_display_keys,
    ensures
        card(config, d) == before_keys(config) + (optional(
            config.displays.should_display_blocks,
            divider(config),
        ) + keys_lines(config, d)) + after_keys(config, d) + blank_lines(
            (config.alignments.space_after + config.alignments.lines_after) as nat,
        ),
        before_keys(config).len() == config.alignments.space_before
            + config.alignments.lines_before + (if config.displays.should_display_blocks {
            2int
        } else {
            0int
        }),
{
}

/// Where the list of facts is switched on, the card holds it whole, in one
/// piece: after the leading blank lines and, if the palettes are shown,
/// after their two lines and the divider.
pub proof fn lemma_card_holds_keys(config: Config, d: DetailsText)
    requires
        config.displays.should_display_keys,
    ensures
        ({
            let start = config.alignments.space_before + config.alignments.lines_before + (
            if config.displays.should_display_blocks {
                3int
            } else {
                0int
            });
            &&& start + keys_lines(config, d).len() <= card(config, d).len()
            &&& card(config, d).subrange(start, start + keys_lines(config, d).len())
                == keys_lines(config, d)
        }),
{
    let gap = optional(config.displays.should_display_blocks, divider(config));
    let after = blank_lines((config.alignments.space_after + config.alignments.lines_after) as nat);
    lemma_card_pieces(config, d);
    lemma_piece_in_place(
        before_keys(config),
        gap,
        keys_lines(config, d),
        after_keys(config, d),
        after,
    );
}

/// Where the list of facts is switched on, every line of it is a line of
/// the card.
pub proof fn lemma_card_holds_each_key(config: Config, d: DetailsText, line: Seq<char>)
    requires
        config.displays.should_display_keys,
        keys_lines(config, d).contains(line),
    ensures
        card(config, d).contains(line),
{
    let keys = keys_lines(config, d);
    let start = config.alignments.space_before + config.alignments.lines_before + (
    if config.displays.should_display_blocks {
        3int
    } else {
        0int
    });
    lemma_card_holds_keys(config, d);
    let k = choose|k: int| 0 <= k < keys.len() && keys[k] == line;
    assert(card(config, d).subrange(start, start + keys.len())[k] == card(config, d)[start + k]);
}

/// The fallback is rendered. Where the list of facts is switched on, a
/// fact that nothing overrides, that the configuration does not fill in and
/// that was not collected stands on the card as "unknown", in its row.
pub proof fn lemma_unknown_is_rendered(config: Config, set: DetailSet)
    requires
        config.displays.should_display_keys,
    ensures
        ({
            let d = filled(config, set);
            let out = card(config, d);
            let colors = config.colors;
            let chars = config.chars;
            let over = config.overrides;
            let given = config.details;
            &&& given.username@.len() == 0 && set.username is None ==> out.contains(
                row(
                    colors.default_bullet_color,
                    chars.default_bullet@,
                    colors.user_string_color,
                    unknown() + "@"@,
                    colors.machine_string_color,
                    d.device_name,
                ),
            )
            &&& given.device_name@.len() == 0 && set.device_name is None ==> out.contains(
                row(
                    colors.default_bullet_color,
                    chars.default_bullet@,
                    colors.user_string_color,
                    d.username + "@"@,
                    colors.machine_string_color,
                    unknown(),
                ),
            )
            &&& over.interface_override@.len() == 0 && given.operating_sys_distro@.len() == 0
                && set.distro is None ==> out.contains(
                row(
                    colors.interface_bullet_color,
                    chars.interface_bullet@,
                    colors.detail_key_color,
                    "OS: "@,
                    colors.detail_value_color,
                    unknown(),
                ),
            )
            &&& over.machine_override@.len() == 0 && given.machine_architecture@.len() == 0
                && set.architecture is None ==> out.contains(
                row(
                    colors.machine_bullet_color,
                    chars.machine_bullet@,
                    colors.detail_key_color,
                    "Arch: "@,
                    colors.detail_value_color,
                    unknown(),
                ),
            )
            &&& over.shell_override@.len() == 0 && given.machine_shell@.len() == 0
                && set.shell_name is None ==> out.contains(
                row(
                    colors.shell_bullet_color,
                    chars.shell_bullet@,
                    colors.detail_key_color,
                    "Shell: "@,
                    colors.detail_value_color,
                    unknown() + " "@ + d.machine_shell_version,
                ),
            )
            &&& over.shell_override@.len() == 0 && given.machine_shell_version@.len() == 0
                && set.shell_version is None ==> out.contains(
                row(
                    colors.shell_bullet_color,
                    chars.shell_bullet@,
                    colors.detail_key_color,
                    "Shell: "@,
                    colors.detail_value_color,
                    d.machine_shell + " "@ + unknown(),
                ),
            )
            &&& !over.cpu_override && given.cpu_status@.len() == 0 && set.cpu_memory is None
                ==> out.contains(
                row(
                    colors.cpu_bullet_color,
                    chars.cpu_bullet@,
                    colors.detail_key_color,
                    "CPU: "@,
                    colors.detail_value_color,
                    unknown(),
                ),
            )
            &&& !over.ram_override && given.ram_status@.len() == 0 && set.ram_memory is None
                ==> out.contains(
                row(
                    colors.ram_bullet_color,
                    chars.ram_bullet@,
                    colors.detail_key_color,
                    "RAM: "@,
                    colors.detail_value_color,
                    unknown(),
                ),
            )
            &&& uptime_shown(config) && given.system_uptime@.len() == 0 && set.uptime is None
                ==> out.contains(
                row(
                    colors.uptime_bullet_color,
                    chars.uptime_bullet@,
                    colors.detail_key_color,
                    "Uptime: "@,
                    colors.detail_value_color,
                    unknown(),
                ),
            )
            &&& !over.date_override && given.current_date_time@.len() == 0
                && set.current_time is None ==> out.contains(
                row(
                    colors.date_bullet_color,
                    chars.date_bullet@,
                    colors.detail_key_color,
                    "Date: "@,
                    colors.detail_value_color,
                    unknown(),
                ),
            )
        }),
{
    let d = filled(config, set);
    let keys = keys_lines(config, d);
    lemma_absent_facts_read_unknown(config, set);
    lemma_keys_hold_rows(config, d);
    assert(keys.contains(identity_row(config, d))) by {
        assert(keys[0] == identity_row(config, d));
    }
    assert(keys.contains(interface_row(config, d))) by {
        assert(keys[1] == interface_row(config, d));
    }
    assert(keys.contains(machine_row(config, d))) by {
        assert(keys[2] == machine_row(config, d));
    }
    assert(keys.contains(shell_row(config, d))) by {
        assert(keys[3] == shell_row(config, d));
    }
    lemma_card_holds_each_key(config, d, identity_row(config, d));
    lemma_card_holds_each_key(config, d, interface_row(config, d));
    lemma_card_holds_each_key(config, d, machine_row(config, d));
    lemma_card_holds_each_key(config, d, shell_row(config, d));
    if !config.overrides.cpu_override {
        lemma_card_holds_each_key(config, d, cpu_row(config, d));
    }
    if !config.overrides.ram_override {
        lemma_card_holds_each_key(config, d, ram_row(config, d));
    }
    if uptime_shown(config) {
        lemma_card_holds_each_key(config, d, uptime_row(config, d));
    }
    if !config.overrides.date_override {
        lemma_card_holds_each_key(config, d, date_row(config, d));
    }
}

/// Two renderings of one configuration and one set of facts are the same,
/// line for line and byte for byte.
pub proof fn lemma_render_is_determined(
    config: Config,
    set: DetailSet,
    first: Seq<String>,
    second: Seq<String>,
)
    requires
        texts(first) == card(config, filled(config, set)),
        texts(second) == card(config, filled(config, set)),
    ensures
        first.len() == second.len(),
        forall|i: int| 0 <= i < first.len() ==> first[i]@ == second[i]@,
        printed(texts(first)) == printed(texts(second)),
{
    assert(texts(first).len() == first.len());
    assert(texts(second).len() == second.len());
    assert forall|i: int| 0 <= i < first.len() implies first[i]@ == second[i]@ by {
        assert(texts(first)[i] == first[i]@);
        assert(texts(second)[i] == second[i]@);
    }
}

} // verus!
