//! The configuration that shapes a card.

use vstd::prelude::*;
use crate::esc_seq::EscSeq;
use crate::failure::Failure;

verus! {

/// How the time since boot is written.
#[derive(Clone, Copy, Debug, PartialEq, Eq, Structural)]
pub enum UptimeFormat {
    /// Days, hours and minutes.
    Days,
    /// Hours and minutes.
    Hours,
    /// Hours, minutes and seconds with colons between.
    Colon,
    /// Not at all.
    Hidden,
}

/// What a memory row shows.
#[derive(Clone, Copy, Debug, PartialEq, Eq, Structural)]
pub enum MemoryFormatDisplay {
    /// The share in use.
    Percent,
    /// The amount in use and the whole.
    Values,
    /// The amounts, then the share.
    Both,
}

/// The unit of the amounts of memory.
#[derive(Clone, Copy, Debug, PartialEq, Eq, Structural)]
pub enum MemoryFormatMetric {
    /// Units of 1,000,000,000 bytes.
    GB,
    /// Units of 1,048,576 bytes.
    MiB,
}

/// Which parts of the card are shown.
#[derive(Clone, Copy, Debug, PartialEq, Eq, Structural)]
pub struct Display {
    pub should_display_image: bool,
    pub should_display_blocks: bool,
    pub should_display_text: bool,
    pub should_display_keys: bool,
}

/// Blank lines, the divider's length, the wrap width and the swatch width.
#[derive(Clone, Copy, Debug, PartialEq, Eq, Structural)]
pub struct Alignment {
    pub space_before: u8,
    pub space_after: u8,
    pub lines_before: u8,
    pub lines_after: u8,
    pub hr_node_repeat: u8,
    pub word_wrap: u8,
    pub color_block_padding: u8,
}

/// The glyph in front of each row, and the one the divider is made of.
#[derive(Debug)]
pub struct BulletChar {
    pub hr_divider_node: String,
    pub default_bullet: String,
    pub interface_bullet: String,
    pub machine_bullet: String,
    pub shell_bullet: String,
    pub cpu_bullet: String,
    pub ram_bullet: String,
    pub uptime_bullet: String,
    pub date_bullet: String,
}

/// The colour of each part of the card.
#[derive(Debug)]
pub struct TextColor {
    pub user_string_color: EscSeq,
    pub machine_string_color: EscSeq,
    pub hr_color: EscSeq,
    pub detail_key_color: EscSeq,
    pub detail_value_color: EscSeq,
    pub text_description_color: EscSeq,
    pub default_bullet_color: EscSeq,
    pub interface_bullet_color: EscSeq,
    pub machine_bullet_color: EscSeq,
    pub shell_bullet_color: EscSeq,
    pub cpu_bullet_color: EscSeq,
    pub ram_bullet_color: EscSeq,
    pub uptime_bullet_color: EscSeq,
    pub date_bullet_color: EscSeq,
}

/// What the user sets in place of a collected fact. A text that is not empty
/// replaces the row's value; a flag that is set takes the row off the card.
#[derive(Debug)]
pub struct Override {
    pub interface_override: String,
    pub machine_override: String,
    pub shell_override: String,
    pub cpu_override: bool,
    pub ram_override: bool,
    pub uptime_override: bool,
    pub date_override: bool,
}

/// How dates, the uptime and the amounts of memory are written.
#[derive(Debug)]
pub struct Formats {
    pub date_format: String,
    pub uptime_format: UptimeFormat,
    pub cpu_memory_format: (MemoryFormatDisplay, MemoryFormatMetric),
    pub ram_memory_format: (MemoryFormatDisplay, MemoryFormatMetric),
}

/// The texts of the card. In the configuration a fact may be filled in
/// beforehand; what is left empty is filled from what was collected.
#[derive(Debug)]
pub struct Details {
    pub username: String,
    pub device_name: String,
    pub operating_sys_distro: String,
    pub machine_architecture: String,
    pub machine_shell: String,
    pub machine_shell_version: String,
    pub cpu_status: String,
    pub ram_status: String,
    pub system_uptime: String,
    pub current_date_time: String,
    pub welcome_message: String,
}

/// The whole configuration, read once and never changed.
#[derive(Debug)]
pub struct Config {
    pub formats: Formats,
    pub displays: Display,
    pub alignments: Alignment,
    pub chars: BulletChar,
    pub colors: TextColor,
    pub overrides: Override,
    pub details: Details,
}

impl Config {
    /// Whether every numeric field is in its range: the wrap width is not zero.
    pub open spec fn valid(self) -> bool {
        self.alignments.word_wrap > 0
    }

    /// Checks the numeric fields, before anything is rendered.
    pub fn validate(&self) -> (r: Result<(), Failure>)
        ensures
            match r {
                Ok(_) => self.valid(),
                Err(e) => !self.valid() && e == Failure::InvalidConfig,
            },
    {
        if self.alignments.word_wrap == 0 {
            Err(Failure::InvalidConfig)
        } else {
            Ok(())
        }
    }
}

} // verus!
