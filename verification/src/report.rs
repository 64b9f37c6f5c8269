//! A summary of the state of the war and of the usage statistics, as plain text.

use vstd::prelude::*;
use vstd::string::StringExecFns;
use crate::text::{decimal, push_decimal};

verus! {

/// Seconds in a day.
pub const SECONDS_PER_DAY: u64 = 86_400;

/// Seconds in an hour.
pub const SECONDS_PER_HOUR: u64 = 3_600;

/// The state of the war. Times are in thousandths of a second since the epoch.
#[derive(Debug, Clone)]
pub struct WarState {
    pub war_number: u64,
    pub winner: String,
    pub conquest_start_time: Option<u64>,
    pub conquest_end_time: Option<u64>,
    pub required_victory_towns: u64,
}

/// How often guns with one weapon were placed.
#[derive(Debug, Clone)]
pub struct WeaponPlacementStat {
    pub display_name: String,
    pub faction: String,
    pub count: u64,
}

/// How often guns were placed, by faction.
#[derive(Debug, Clone, Copy, PartialEq, Eq, Structural)]
pub struct FactionPlacementStats {
    pub colonial: u64,
    pub warden: u64,
    pub total: u64,
}

/// How often targets and spotters were placed.
#[derive(Debug, Clone, Copy, PartialEq, Eq, Structural)]
pub struct MarkerPlacementStats {
    pub targets: u64,
    pub spotters: u64,
}

/// The usage statistics.
#[derive(Debug, Clone)]
pub struct Stats {
    pub gun_placements: Vec<WeaponPlacementStat>,
    pub gun_placement_totals: FactionPlacementStats,
    pub marker_placements: MarkerPlacementStats,
}

/// Whole seconds from `start` to `end`, both in thousandths of a second; zero where the
/// end lies before the start.
pub open spec fn elapsed_seconds(start: u64, end: u64) -> int {
    if end / 1000 >= start / 1000 {
        end / 1000 - start / 1000
    } else {
        0
    }
}

/// A duration as whole days and the whole hours left over.
pub open spec fn duration_text(seconds: int) -> Seq<char> {
    decimal((seconds / 86_400) as nat) + " days, "@ + decimal((seconds % 86_400 / 3_600) as nat)
        + " hours"@
}

/// The line on the duration of the war: of the whole war where it has ended, of the war
/// so far at the time `now_ms` where it has only begun, and nothing where it has no
/// start.
pub open spec fn duration_line(war: WarState, now_ms: u64) -> Seq<char> {
    match (war.conquest_start_time, war.conquest_end_time) {
        (Some(start), Some(end)) => "  War Duration: "@ + duration_text(elapsed_seconds(start, end))
            + "\n"@,
        (Some(start), None) => "  War Duration So Far: "@ + duration_text(
            elapsed_seconds(start, now_ms),
        ) + " (ongoing)\n"@,
        (None, _) => Seq::empty(),
    }
}

/// The summary of the state of the war at the time `now_ms`.
pub open spec fn war_text(war: WarState, now_ms: u64) -> Seq<char> {
    "=== War Status ===\n"@ + "  War Number: "@ + decimal(war.war_number as nat) + "\n"@
        + "  Winner: "@ + war.winner@ + "\n"@ + "  Victory Towns Required: "@ + decimal(
        war.required_victory_towns as nat,
    ) + "\n"@ + duration_line(war, now_ms) + "\n"@
}

/// The line of one weapon.
pub open spec fn weapon_line(wp: WeaponPlacementStat) -> Seq<char> {
    "  "@ + wp.display_name@ + " ("@ + wp.faction@ + "): "@ + decimal(wp.count as nat) + "\n"@
}

/// The lines of the first `upto` weapons.
pub open spec fn weapon_lines(list: Seq<WeaponPlacementStat>, upto: int) -> Seq<char>
    decreases upto,
{
    if upto <= 0 {
        Seq::empty()
    } else {
        weapon_lines(list, upto - 1) + weapon_line(list[upto - 1])
    }
}

/// The summary of the usage statistics.
pub open spec fn stats_text(stats: Stats) -> Seq<char> {
    "=== Gun Placement Totals ===\n"@ + "  Warden:   "@ + decimal(
        stats.gun_placement_totals.warden as nat,
    ) + "\n"@ + "  Colonial: "@ + decimal(stats.gun_placement_totals.colonial as nat) + "\n"@
        + "  Total:    "@ + decimal(stats.gun_placement_totals.total as nat) + "\n\n"@
        + "=== Gun Placements by Weapon ===\n"@ + weapon_lines(
        stats.gun_placements@,
        stats.gun_placements@.len() as int,
    ) + "\n=== Marker Placements ===\n  Targets placed: "@ + decimal(
        stats.marker_placements.targets as nat,
    ) + "\n  Spotters placed: "@ + decimal(stats.marker_placements.spotters as nat) + "\n"@
}

/// Appends a duration as whole days and the whole hours left over.
fn push_duration(out: &mut String, start: u64, end: u64)
    ensures
        final(out)@ == old(out)@ + duration_text(elapsed_seconds(start, end)),
{
    let a: u64 = end / 1000;
    let b: u64 = start / 1000;
    let seconds: u64 = if a >= b {
        a - b
    } else {
        0
    };
    push_decimal(out, seconds / SECONDS_PER_DAY);
    out.append(" days, ");
    push_decimal(out, seconds % SECONDS_PER_DAY / SECONDS_PER_HOUR);
    out.append(" hours");
    assert(out@ =~= old(out)@ + duration_text(elapsed_seconds(start, end)));
}

/// The summary of the state of the war at the time `now_ms`, in thousandths of a second
/// since the epoch.
pub fn format_war_state(war: &WarState, now_ms: u64) -> (out: String)
    ensures
        out@ == war_text(*war, now_ms),
{
    let mut out = String::new();
    out.append("=== War Status ===\n");
    out.append("  War Number: ");
    push_decimal(&mut out, war.war_number);
    out.append("\n");
    out.append("  Winner: ");
    out.append(war.winner.as_str());
    out.append("\n");
    out.append("  Victory Towns Required: ");
    push_decimal(&mut out, war.required_victory_towns);
    out.append("\n");
    let ghost head = out@;
    match war.conquest_start_time {
        Some(start) => {
            match war.conquest_end_time {
                Some(end) => {
                    out.append("  War Duration: ");
                    push_duration(&mut out, start, end);
                    out.append("\n");
                },
                None => {
                    out.append("  War Duration So Far: ");
                    push_duration(&mut out, start, now_ms);
                    out.append(" (ongoing)\n");
                },
            }
        },
        None => {},
    }
    assert(out@ =~= head + duration_line(*war, now_ms));
    out.append("\n");
    assert(out@ =~= war_text(*war, now_ms));
    out
}

/// The summary of the usage statistics.
pub fn format_stats(stats: &Stats) -> (out: String)
    ensures
        out@ == stats_text(*stats),
{
    let mut out = String::new();
    out.append("=== Gun Placement Totals ===\n");
    out.append("  Warden:   ");
    push_decimal(&mut out, stats.gun_placement_totals.warden);
    out.append("\n");
    out.append("  Colonial: ");
    push_decimal(&mut out, stats.gun_placement_totals.colonial);
    out.append("\n");
    out.append("  Total:    ");
    push_decimal(&mut out, stats.gun_placement_totals.total);
    out.append("\n\n");
    out.append("=== Gun Placements by Weapon ===\n");
    let ghost head = out@;
    let mut i: usize = 0;
    while i < stats.gun_placements.len()
        invariant
            i <= stats.gun_placements.len(),
            out@ == head + weapon_lines(stats.gun_placements@, i as int),
        decreases stats.gun_placements.len() - i,
    {
        let wp = &stats.gun_placements[i];
        let ghost before = out@;
        out.append("  ");
        out.append(wp.display_name.as_str());
        out.append(" (");
        out.append(wp.faction.as_str());
        out.append("): ");
        push_decimal(&mut out, wp.count);
        out.append("\n");
        assert(out@ =~= before + weapon_line(*wp));
        i += 1;
        assert(out@ =~= head + weapon_lines(stats.gun_placements@, i as int));
    }
    out.append("\n=== Marker Placements ===\n  Targets placed: ");
    push_decimal(&mut out, stats.marker_placements.targets);
    out.append("\n  Spotters placed: ");
    push_decimal(&mut out, stats.marker_placements.spotters);
    out.append("\n");
    assert(out@ =~= stats_text(*stats));
    out
}

} // verus!
