//! The collected facts, and the texts that stand for them on the card.

use vstd::prelude::*;
use vstd::string::*;
use crate::config::{Config, Details, MemoryFormatDisplay, MemoryFormatMetric, UptimeFormat};
use crate::date::Moment;
use crate::decimal::{decimal, decimal_two, push_decimal, push_decimal_two};

verus! {

/// Memory in use and memory in all, in bytes.
#[derive(Clone, Copy, Debug, PartialEq, Eq, Structural)]
pub struct MemoryStats {
    pub used: u64,
    pub total: u64,
}

/// What was collected about the system. Each fact may be missing.
#[derive(Debug)]
pub struct DetailSet {
    pub username: Option<String>,
    pub device_name: Option<String>,
    pub distro: Option<String>,
    pub architecture: Option<String>,
    pub shell_name: Option<String>,
    pub shell_version: Option<String>,
    /// The memory of this process.
    pub cpu_memory: Option<MemoryStats>,
    /// The memory of the machine.
    pub ram_memory: Option<MemoryStats>,
    /// Seconds since boot.
    pub uptime: Option<u64>,
    pub current_time: Option<Moment>,
}

/// The text that stands for a fact nobody could determine.
pub open spec fn unknown() -> Seq<char> {
    "unknown"@
}

/// The text of a fact: what the configuration fills in, if that is not
/// empty; else what was collected; else "unknown".
pub open spec fn resolved(configured: Seq<char>, collected: Option<Seq<char>>) -> Seq<char> {
    if configured.len() > 0 {
        configured
    } else {
        match collected {
            Some(text) => text,
            None => unknown(),
        }
    }
}

/// What an optional string holds, as a text.
pub open spec fn opt_text(s: Option<String>) -> Option<Seq<char>> {
    match s {
        Some(text) => Some(text@),
        None => None,
    }
}

/// The text of a fact: what the configuration fills in, if that is not
/// empty; else what was collected; else "unknown".
pub fn resolve(configured: &str, collected: &Option<String>) -> (out: String)
    ensures
        out@ == resolved(configured@, opt_text(*collected)),
{
    if configured.unicode_len() > 0 {
        String::from_str(configured)
    } else {
        match collected {
            Some(text) => text.clone(),
            None => String::from_str("unknown"),
        }
    }
}

/// The number of bytes in one unit.
pub open spec fn unit_size(metric: MemoryFormatMetric) -> nat {
    match metric {
        MemoryFormatMetric::GB => 1_000_000_000,
        MemoryFormatMetric::MiB => 1_048_576,
    }
}

/// The unit's name.
pub open spec fn unit_name(metric: MemoryFormatMetric) -> Seq<char> {
    match metric {
        MemoryFormatMetric::GB => "GB"@,
        MemoryFormatMetric::MiB => "MiB"@,
    }
}

/// The share of the memory that is in use, in whole percent, rounded down;
/// zero where there is no memory at all.
pub open spec fn percent_used(stats: MemoryStats) -> nat {
    if stats.total == 0 {
        0
    } else {
        (stats.used * 100 / (stats.total as int)) as nat
    }
}

/// The amounts in whole units, rounded down: in use, a slash, in all.
pub open spec fn values_text(stats: MemoryStats, metric: MemoryFormatMetric) -> Seq<char> {
    decimal(stats.used as nat / unit_size(metric)) + unit_name(metric) + " / "@ + decimal(
        stats.total as nat / unit_size(metric),
    ) + unit_name(metric)
}

/// The share in use, with a percent sign.
pub open spec fn percent_text(stats: MemoryStats) -> Seq<char> {
    decimal(percent_used(stats)) + "%"@
}

/// The text of a memory row.
pub open spec fn memory_text(
    stats: MemoryStats,
    display: MemoryFormatDisplay,
    metric: MemoryFormatMetric,
) -> Seq<char> {
    match display {
        MemoryFormatDisplay::Percent => percent_text(stats),
        MemoryFormatDisplay::Values => values_text(stats, metric),
        MemoryFormatDisplay::Both => values_text(stats, metric) + " ("@ + percent_text(stats)
            + ")"@,
    }
}

/// Appends the amounts in whole units.
fn push_values(out: &mut String, stats: MemoryStats, metric: MemoryFormatMetric)
    ensures
        final(out)@ == old(out)@ + values_text(stats, metric),
{
    let size: u64 = match metric {
        MemoryFormatMetric::GB => 1_000_000_000,
        MemoryFormatMetric::MiB => 1_048_576,
    };
    let name: &str = match metric {
        MemoryFormatMetric::GB => "GB",
        MemoryFormatMetric::MiB => "MiB",
    };
    push_decimal(out, (stats.used / size) as u128);
    out.append(name);
    out.append(" / ");
    push_decimal(out, (stats.total / size) as u128);
    out.append(name);
    proof {
        assert(final(out)@ =~= old(out)@ + values_text(stats, metric));
    }
}

/// Appends the share in use.
fn push_percent(out: &mut String, stats: MemoryStats)
    ensures
        final(out)@ == old(out)@ + percent_text(stats),
{
    let share: u128 = if stats.total == 0 {
        0
    } else {
        (stats.used as u128) * 100 / (stats.total as u128)
    };
    push_decimal(out, share);
    out.append("%");
    proof {
        assert(final(out)@ =~= old(out)@ + percent_text(stats));
    }
}

/// The text of a memory row: the share in use, the amounts, or both.
pub fn format_memory(
    stats: MemoryStats,
    display: MemoryFormatDisplay,
    metric: MemoryFormatMetric,
) -> (out: String)
    ensures
        out@ == memory_text(stats, display, metric),
{
    let mut out = String::new();
    match display {
        MemoryFormatDisplay::Percent => {
            push_percent(&mut out, stats);
        },
        MemoryFormatDisplay::Values => {
            push_values(&mut out, stats, metric);
        },
        MemoryFormatDisplay::Both => {
            push_values(&mut out, stats, metric);
            out.append(" (");
            push_percent(&mut out, stats);
            out.append(")");
        },
    }
    proof {
        assert(out@ =~= memory_text(stats, display, metric));
    }
    out
}

/// The text of `seconds` since boot.
pub open spec fn uptime_text(seconds: nat, mode: UptimeFormat) -> Seq<char> {
    match mode {
        UptimeFormat::Days => decimal(seconds / 86400) + "d "@ + decimal(seconds % 86400 / 3600)
            + "h "@ + decimal(seconds % 3600 / 60) + "m"@,
        UptimeFormat::Hours => decimal(seconds / 3600) + "h "@ + decimal(seconds % 3600 / 60)
            + "m"@,
        UptimeFormat::Colon => decimal_two(seconds / 3600) + ":"@ + decimal_two(
            seconds % 3600 / 60,
        ) + ":"@ + decimal_two(seconds % 60),
        UptimeFormat::Hidden => Seq::empty(),
    }
}

/// The text of `seconds` since boot: days, hours and minutes; hours and
/// minutes; or hours, minutes and seconds, two digits each at least.
pub fn format_uptime(seconds: u64, mode: UptimeFormat) -> (out: String)
    ensures
        out@ == uptime_text(seconds as nat, mode),
{
    let mut out = String::new();
    match mode {
        UptimeFormat::Days => {
            push_decimal(&mut out, (seconds / 86400) as u128);
            out.append("d ");
            push_decimal(&mut out, (seconds % 86400 / 3600) as u128);
            out.append("h ");
            push_decimal(&mut out, (seconds % 3600 / 60) as u128);
            out.append("m");
        },
        UptimeFormat::Hours => {
            push_decimal(&mut out, (seconds / 3600) as u128);
            out.append("h ");
            push_decimal(&mut out, (seconds % 3600 / 60) as u128);
            out.append("m");
        },
        UptimeFormat::Colon => {
            push_decimal_two(&mut out, (seconds / 3600) as u128);
            out.append(":");
            push_decimal_two(&mut out, (seconds % 3600 / 60) as u128);
            out.append(":");
            push_decimal_two(&mut out, (seconds % 60) as u128);
        },
        UptimeFormat::Hidden => {},
    }
    proof {
        assert(out@ =~= uptime_text(seconds as nat, mode));
    }
    out
}

/// The texts of a card, as plain texts.
pub struct DetailsText {
    pub username: Seq<char>,
    pub device_name: Seq<char>,
    pub operating_sys_distro: Seq<char>,
    pub machine_architecture: Seq<char>,
    pub machine_shell: Seq<char>,
    pub machine_shell_version: Seq<char>,
    pub cpu_status: Seq<char>,
    pub ram_status: Seq<char>,
    pub system_uptime: Seq<char>,
    pub current_date_time: Seq<char>,
    pub welcome_message: Seq<char>,
}

impl View for Details {
    type V = DetailsText;

    open spec fn view(&self) -> DetailsText {
        DetailsText {
            username: self.username@,
            device_name: self.device_name@,
            operating_sys_distro: self.operating_sys_distro@,
            machine_architecture: self.machine_architecture@,
            machine_shell: self.machine_shell@,
            machine_shell_version: self.machine_shell_version@,
            cpu_status: self.cpu_status@,
            ram_status: self.ram_status@,
            system_uptime: self.system_uptime@,
            current_date_time: self.current_date_time@,
            welcome_message: self.welcome_message@,
        }
    }
}

/// The text of collected memory figures, where there are any.
pub open spec fn memory_fact(
    stats: Option<MemoryStats>,
    format: (MemoryFormatDisplay, MemoryFormatMetric),
) -> Option<Seq<char>> {
    match stats {
        Some(figures) => Some(memory_text(figures, format.0, format.1)),
        None => None,
    }
}

/// The text of the collected uptime, where there is one.
pub open spec fn uptime_fact(seconds: Option<u64>, mode: UptimeFormat) -> Option<Seq<char>> {
    match seconds {
        Some(n) => Some(uptime_text(n as nat, mode)),
        None => None,
    }
}

/// The text of the collected time under `pattern`, where there is a time and
/// it can be written.
pub open spec fn date_fact(moment: Option<Moment>, pattern: Seq<char>) -> Option<Seq<char>> {
    match moment {
        Some(m) => m.text(pattern),
        None => None,
    }
}

/// The texts of the card: each fact as the configuration fills it in, else
/// as it was collected and formatted, else "unknown"; the welcome message
/// as configured.
pub open spec fn filled(config: Config, set: DetailSet) -> DetailsText {
    DetailsText {
        username: resolved(config.details.username@, opt_text(set.username)),
        device_name: resolved(config.details.device_name@, opt_text(set.device_name)),
        operating_sys_distro: resolved(
            config.details.operating_sys_distro@,
            opt_text(set.distro),
        ),
        machine_architecture: resolved(
            config.details.machine_architecture@,
            opt_text(set.architecture),
        ),
        machine_shell: resolved(config.details.machine_shell@, opt_text(set.shell_name)),
        machine_shell_version: resolved(
            config.details.machine_shell_version@,
            opt_text(set.shell_version),
        ),
        cpu_status: resolved(
            config.details.cpu_status@,
            memory_fact(set.cpu_memory, config.formats.cpu_memory_format),
        ),
        ram_status: resolved(
            config.details.ram_status@,
            memory_fact(set.ram_memory, config.formats.ram_memory_format),
        ),
        system_uptime: resolved(
            config.details.system_uptime@,
            uptime_fact(set.uptime, config.formats.uptime_format),
        ),
        current_date_time: resolved(
            config.details.current_date_time@,
            date_fact(set.current_time, config.formats.date_format@),
        ),
        welcome_message: config.details.welcome_message@,
    }
}

/// The text of collected memory figures, where there are any.
fn memory_status(
    stats: &Option<MemoryStats>,
    format: &(MemoryFormatDisplay, MemoryFormatMetric),
) -> (out: Option<String>)
    ensures
        opt_text(out) == memory_fact(*stats, *format),
{
    match stats {
        Some(figures) => Some(format_memory(*figures, format.0, format.1)),
        None => None,
    }
}

impl DetailSet {
    /// Fills the card's texts: each fact as the configuration fills it in,
    /// else as it was collected and formatted, else "unknown".
    pub fn fill(&self, config: &Config) -> (out: Details)
        ensures
            out@ == filled(*config, *self),
    {
        let given = &config.details;
        let uptime: Option<String> = match self.uptime {
            Some(n) => Some(format_uptime(n, config.formats.uptime_format)),
            None => None,
        };
        let date: Option<String> = match self.current_time {
            Some(m) => m.format(config.formats.date_format.as_str()),
            None => None,
        };
        let cpu = memory_status(&self.cpu_memory, &config.formats.cpu_memory_format);
        let ram = memory_status(&self.ram_memory, &config.formats.ram_memory_format);
        Details {
            username: resolve(given.username.as_str(), &self.username),
            device_name: resolve(given.device_name.as_str(), &self.device_name),
            operating_sys_distro: resolve(given.operating_sys_distro.as_str(), &self.distro),
            machine_architecture: resolve(given.machine_architecture.as_str(), &self.architecture),
            machine_shell: resolve(given.machine_shell.as_str(), &self.shell_name),
            machine_shell_version: resolve(
                given.machine_shell_version.as_str(),
                &self.shell_version,
            ),
            cpu_status: resolve(given.cpu_status.as_str(), &cpu),
            ram_status: resolve(given.ram_status.as_str(), &ram),
            system_uptime: resolve(given.system_uptime.as_str(), &uptime),
            current_date_time: resolve(given.current_date_time.as_str(), &date),
            welcome_message: given.welcome_message.clone(),
        }
    }
}

} // verus!
