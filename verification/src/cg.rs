//! The client game's data: teams, scores, match state and ids.

use vstd::prelude::*;
use crate::dvar::{DvarFlags, DvarRegistry, DvarLimitsView, DvarValueView};
use crate::dvar::register::{fresh_dvar, int_domain, register_int};

verus! {

/// Extra buttons of a command (none are defined).
#[derive(Copy, Clone, Default, Debug, PartialEq, Eq, Structural)]
pub struct ExtraButtons;

/// The buttons of a command (none are defined).
#[derive(Copy, Clone, Default, Debug, PartialEq, Eq, Structural)]
pub struct Buttons;

/// The id of a weapon.
#[derive(Copy, Clone, Default, Debug, PartialEq, Eq, Structural)]
pub struct WeaponId(pub u16);

/// The id of an offhand item.
#[derive(Copy, Clone, Default, Debug, PartialEq, Eq, Structural)]
pub struct OffhandId(pub u16);

/// The interface elements shown during a match, as flags (none defined).
#[derive(Copy, Clone, Default, Debug, PartialEq, Eq, Structural)]
pub struct UiVisibilityFlags {
    pub bits: i32,
}

/// The flags of who may talk (none defined).
#[derive(Copy, Clone, Default, Debug, PartialEq, Eq, Structural)]
pub struct TalkFlags {
    pub bits: u32,
}

/// The match state that is archived.
#[derive(Copy, Clone, Debug)]
pub struct ArchivedMatchState {
    pub match_ui_visibility_flags: UiVisibilityFlags,
    pub bomb_timer: [i32; 2],
}

/// What a scoreboard column shows.
#[derive(Copy, Clone, Debug, PartialEq, Eq, Structural)]
pub enum ScoreboardColumnType {
    Invalid,
    Empty,
    Kills,
    Deaths,
    Assists,
    Defends,
    Plants,
    Defuses,
    Returns,
    Captures,
    Destructions,
    KdRatio,
    Survived,
    Stabs,
    Tomahawks,
    Humiliated,
    X2Score,
    Headshots,
}

/// A score.
#[derive(Copy, Clone, Default, Debug, PartialEq, Eq, Structural)]
pub struct ScoreCount(pub i32);

/// The match state that is not archived (the map centre, a point in space,
/// is kept by the renderer's side).
#[derive(Copy, Clone, Debug)]
pub struct UnarchivedMatchState {
    pub allies_score: ScoreCount,
    pub axis_score: ScoreCount,
    pub score_limit: ScoreCount,
    pub match_ui_visibility_flags: UiVisibilityFlags,
    pub scoreboard_column_types: [ScoreboardColumnType; 4],
    pub talk_flags: TalkFlags,
}

/// The state of a match.
#[derive(Copy, Clone, Debug)]
pub struct MatchState {
    pub idx: usize,
    pub archived_state: ArchivedMatchState,
    pub unarchived_state: UnarchivedMatchState,
}

/// A team.
#[derive(Copy, Clone, Default, Debug, PartialEq, Eq, Structural)]
pub enum Team {
    #[default]
    FreeOrBad,
    Axis,
    Allies,
    Spectator,
    LocalPlayers,
}

/// A team in a free-for-all match.
#[derive(Copy, Clone, Default, Debug, PartialEq, Eq, Structural)]
pub enum FfaTeam {
    #[default]
    Unassigned,
    Axis,
    Allies,
}

/// A player's unique id.
#[derive(Copy, Clone, Default, Debug, PartialEq, Eq, Structural)]
pub struct Xuid(pub u64);

/// What a player does with a vehicle.
#[derive(Copy, Clone, Default, Debug, PartialEq, Eq, Structural)]
pub enum VehicleAnimState {
    #[default]
    Idle,
    Entry,
    ChangePos,
    Exit,
}

/// A ping time.
#[derive(Copy, Clone, Default, Debug, PartialEq, Eq, Structural)]
pub struct Ping(pub i32);

/// The id of a status icon.
#[derive(Copy, Clone, Default, Debug, PartialEq, Eq, Structural)]
pub struct StatusIconId(pub i32);

/// A place on the scoreboard.
#[derive(Copy, Clone, Default, Debug, PartialEq, Eq, Structural)]
pub struct ScoreboardPlacement(pub i32);

/// A player's line on the scoreboard.
#[derive(Copy, Clone, Debug)]
pub struct Score {
    pub ping: Ping,
    pub status_icon: StatusIconId,
    pub place: ScoreboardPlacement,
    pub score: ScoreCount,
    pub kills: i32,
    pub assists: i32,
    pub deaths: i32,
    pub scoreboard_columns: [ScoreboardColumnType; 4],
}

/// The id of a client.
#[derive(Copy, Clone, Default, Debug, PartialEq, Eq, Structural)]
pub struct ClientId(pub u8);

/// The id of a model.
#[derive(Copy, Clone, Default, Debug, PartialEq, Eq, Structural)]
pub struct ModelId(pub usize);

/// A player's rank.
#[derive(Copy, Clone, Default, Debug, PartialEq, Eq, Structural)]
pub struct Rank(pub u16);

/// A player's prestige.
#[derive(Copy, Clone, Default, Debug, PartialEq, Eq, Structural)]
pub struct Prestige(pub u8);

/// Registers the dvar "developer": an integer from 0 to 2, 0 at first (or
/// registers it again).
pub fn register_dvars(dvars: &mut DvarRegistry)
    requires
        old(dvars).wf(),
        old(dvars).can_register("developer"@),
    ensures
        final(dvars).wf(),
        final(dvars)@ == old(dvars).after_register(
            fresh_dvar(
                "developer"@,
                "Turn on Development systems"@,
                0,
                int_domain(Some(0i32), Some(2i32)),
                DvarValueView::Int(0),
            ),
        ),
{
    let _ = register_int(
        dvars,
        "developer",
        0,
        Some(0),
        Some(2),
        DvarFlags::empty(),
        Some("Turn on Development systems"),
    );
}

} // verus!
