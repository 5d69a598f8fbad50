//! The actions a key can trigger, and the server command each one sends.

use vstd::prelude::*;
use crate::song::PlayState;

verus! {

/// Actions that can be performed on the music player daemon or the interface.
#[derive(Debug, Clone, Copy, PartialEq, Eq, Structural)]
pub enum MPDAction {
    TogglePlayPause,
    Next,
    Previous,
    Random,
    Repeat,
    Single,
    Consume,
    VolumeUp,
    VolumeUpFine,
    VolumeDown,
    VolumeDownFine,
    ToggleMute,
    SeekForward,
    SeekBackward,
    ClearQueue,
    RemoveFromQueue,
    MoveUpInQueue,
    MoveDownInQueue,
    QueueUp,
    QueueDown,
    PlaySelected,
    Quit,
    Refresh,
    SwitchToQueueMenu,
    SwitchToArtists,
    SwitchToAlbums,
    SwitchPanelLeft,
    SwitchPanelRight,
    NavigateUp,
    NavigateDown,
    ToggleAlbumExpansion,
    AddSongToQueue,
    CycleModeLeft,
    CycleModeRight,
    ScrollUp,
    ScrollDown,
    GoToTop,
    GoToBottom,
    ToggleBitPerfect,
}

/// The name of an action, as it is displayed and logged.
pub open spec fn action_name(a: MPDAction) -> Seq<char> {
    match a {
        MPDAction::TogglePlayPause => "TogglePlayPause"@,
        MPDAction::Next => "Next"@,
        MPDAction::Previous => "Previous"@,
        MPDAction::Random => "Random"@,
        MPDAction::Repeat => "Repeat"@,
        MPDAction::Single => "Single"@,
        MPDAction::Consume => "Consume"@,
        MPDAction::VolumeUp => "VolumeUp"@,
        MPDAction::VolumeUpFine => "VolumeUpFine"@,
        MPDAction::VolumeDown => "VolumeDown"@,
        MPDAction::VolumeDownFine => "VolumeDownFine"@,
        MPDAction::ToggleMute => "ToggleMute"@,
        MPDAction::SeekForward => "SeekForward"@,
        MPDAction::SeekBackward => "SeekBackward"@,
        MPDAction::ClearQueue => "ClearQueue"@,
        MPDAction::RemoveFromQueue => "RemoveFromQueue"@,
        MPDAction::MoveUpInQueue => "MoveUpInQueue"@,
        MPDAction::MoveDownInQueue => "MoveDownInQueue"@,
        MPDAction::QueueUp => "QueueUp"@,
        MPDAction::QueueDown => "QueueDown"@,
        MPDAction::PlaySelected => "PlaySelected"@,
        MPDAction::Quit => "Quit"@,
        MPDAction::Refresh => "Refresh"@,
        MPDAction::SwitchToQueueMenu => "SwitchToQueueMenu"@,
        MPDAction::SwitchToArtists => "SwitchToArtists"@,
        MPDAction::SwitchToAlbums => "SwitchToAlbums"@,
        MPDAction::SwitchPanelLeft => "SwitchPanelLeft"@,
        MPDAction::SwitchPanelRight => "SwitchPanelRight"@,
        MPDAction::NavigateUp => "NavigateUp"@,
        MPDAction::NavigateDown => "NavigateDown"@,
        MPDAction::ToggleAlbumExpansion => "ToggleAlbumExpansion"@,
        MPDAction::AddSongToQueue => "AddSongToQueue"@,
        MPDAction::CycleModeLeft => "CycleModeLeft"@,
        MPDAction::CycleModeRight => "CycleModeRight"@,
        MPDAction::ScrollUp => "ScrollUp"@,
        MPDAction::ScrollDown => "ScrollDown"@,
        MPDAction::GoToTop => "GoToTop"@,
        MPDAction::GoToBottom => "GoToBottom"@,
        MPDAction::ToggleBitPerfect => "ToggleBitPerfect"@,
    }
}

/// The actions that send a command to the server, and are logged as such.
pub open spec fn sends_command(a: MPDAction) -> bool {
    match a {
        MPDAction::TogglePlayPause | MPDAction::Next | MPDAction::Previous | MPDAction::Random
        | MPDAction::Repeat | MPDAction::Single | MPDAction::Consume | MPDAction::VolumeUp
        | MPDAction::VolumeUpFine | MPDAction::VolumeDown | MPDAction::VolumeDownFine
        | MPDAction::ToggleMute | MPDAction::SeekForward | MPDAction::SeekBackward
        | MPDAction::ClearQueue => true,
        _ => false,
    }
}

/// The actions after which the player status is fetched again at once.
pub open spec fn changes_player(a: MPDAction) -> bool {
    match a {
        MPDAction::TogglePlayPause | MPDAction::Next | MPDAction::Previous | MPDAction::Random
        | MPDAction::Repeat | MPDAction::Single | MPDAction::Consume | MPDAction::VolumeUp
        | MPDAction::VolumeUpFine | MPDAction::VolumeDown | MPDAction::VolumeDownFine
        | MPDAction::ToggleMute | MPDAction::SeekForward | MPDAction::SeekBackward
        | MPDAction::ClearQueue | MPDAction::RemoveFromQueue | MPDAction::MoveUpInQueue
        | MPDAction::MoveDownInQueue | MPDAction::PlaySelected | MPDAction::AddSongToQueue
        | MPDAction::ToggleAlbumExpansion => true,
        _ => false,
    }
}

impl MPDAction {
    /// The name of the action, as it is displayed and logged.
    pub fn name(&self) -> (r: &'static str)
        ensures
            r@ == action_name(*self),
    {
        match self {
            MPDAction::TogglePlayPause => "TogglePlayPause",
            MPDAction::Next => "Next",
            MPDAction::Previous => "Previous",
            MPDAction::Random => "Random",
            MPDAction::Repeat => "Repeat",
            MPDAction::Single => "Single",
            MPDAction::Consume => "Consume",
            MPDAction::VolumeUp => "VolumeUp",
            MPDAction::VolumeUpFine => "VolumeUpFine",
            MPDAction::VolumeDown => "VolumeDown",
            MPDAction::VolumeDownFine => "VolumeDownFine",
            MPDAction::ToggleMute => "ToggleMute",
            MPDAction::SeekForward => "SeekForward",
            MPDAction::SeekBackward => "SeekBackward",
            MPDAction::ClearQueue => "ClearQueue",
            MPDAction::RemoveFromQueue => "RemoveFromQueue",
            MPDAction::MoveUpInQueue => "MoveUpInQueue",
            MPDAction::MoveDownInQueue => "MoveDownInQueue",
            MPDAction::QueueUp => "QueueUp",
            MPDAction::QueueDown => "QueueDown",
            MPDAction::PlaySelected => "PlaySelected",
            MPDAction::Quit => "Quit",
            MPDAction::Refresh => "Refresh",
            MPDAction::SwitchToQueueMenu => "SwitchToQueueMenu",
            MPDAction::SwitchToArtists => "SwitchToArtists",
            MPDAction::SwitchToAlbums => "SwitchToAlbums",
            MPDAction::SwitchPanelLeft => "SwitchPanelLeft",
            MPDAction::SwitchPanelRight => "SwitchPanelRight",
            MPDAction::NavigateUp => "NavigateUp",
            MPDAction::NavigateDown => "NavigateDown",
            MPDAction::ToggleAlbumExpansion => "ToggleAlbumExpansion",
            MPDAction::AddSongToQueue => "AddSongToQueue",
            MPDAction::CycleModeLeft => "CycleModeLeft",
            MPDAction::CycleModeRight => "CycleModeRight",
            MPDAction::ScrollUp => "ScrollUp",
            MPDAction::ScrollDown => "ScrollDown",
            MPDAction::GoToTop => "GoToTop",
            MPDAction::GoToBottom => "GoToBottom",
            MPDAction::ToggleBitPerfect => "ToggleBitPerfect",
        }
    }

    /// Whether this action sends commands to the server.
    pub fn is_mpd_command(&self) -> (r: bool)
        ensures
            r == sends_command(*self),
    {
        match self {
            MPDAction::TogglePlayPause | MPDAction::Next | MPDAction::Previous
            | MPDAction::Random | MPDAction::Repeat | MPDAction::Single | MPDAction::Consume
            | MPDAction::VolumeUp | MPDAction::VolumeUpFine | MPDAction::VolumeDown
            | MPDAction::VolumeDownFine | MPDAction::ToggleMute | MPDAction::SeekForward
            | MPDAction::SeekBackward | MPDAction::ClearQueue => true,
            _ => false,
        }
    }

    /// Whether the player status must be fetched again at once after this action.
    pub fn needs_update(&self) -> (r: bool)
        ensures
            r == changes_player(*self),
    {
        match self {
            MPDAction::TogglePlayPause | MPDAction::Next | MPDAction::Previous
            | MPDAction::Random | MPDAction::Repeat | MPDAction::Single | MPDAction::Consume
            | MPDAction::VolumeUp | MPDAction::VolumeUpFine | MPDAction::VolumeDown
            | MPDAction::VolumeDownFine | MPDAction::ToggleMute | MPDAction::SeekForward
            | MPDAction::SeekBackward | MPDAction::ClearQueue | MPDAction::RemoveFromQueue
            | MPDAction::MoveUpInQueue | MPDAction::MoveDownInQueue | MPDAction::PlaySelected
            | MPDAction::AddSongToQueue | MPDAction::ToggleAlbumExpansion => true,
            _ => false,
        }
    }
}

/// The server's single mode.
#[derive(Debug, Clone, Copy, PartialEq, Eq, Structural)]
pub enum SingleMode {
    Enabled,
    Disabled,
    Oneshot,
}

/// The parts of the server status that the commands depend on.
#[derive(Debug, Clone, Copy, PartialEq, Eq, Structural)]
pub struct PlayerStatus {
    pub volume: u8,
    pub state: PlayState,
    pub repeat: bool,
    pub random: bool,
    pub consume: bool,
    pub single: SingleMode,
}

/// A command for the server.
#[derive(Debug, Clone, Copy, PartialEq, Eq, Structural)]
pub enum MpdCommand {
    SetPause(bool),
    PlayCurrent,
    Next,
    Previous,
    SetVolume(u8),
    SeekForward(u64),
    SeekBackward(u64),
    ClearQueue,
    SetRandom(bool),
    SetRepeat(bool),
    SetSingle(SingleMode),
    SetConsume(bool),
}

/// What executing an action takes: the status first, one command, or nothing.
#[derive(Debug, Clone, Copy, PartialEq, Eq, Structural)]
pub enum CommandPlan {
    NeedStatus,
    Send(MpdCommand),
    Nothing,
}

/// The actions whose command depends on the current status.
pub open spec fn reads_status(a: MPDAction) -> bool {
    match a {
        MPDAction::TogglePlayPause | MPDAction::VolumeUp | MPDAction::VolumeUpFine
        | MPDAction::VolumeDown | MPDAction::VolumeDownFine | MPDAction::ToggleMute
        | MPDAction::Random | MPDAction::Repeat | MPDAction::Single | MPDAction::Consume => true,
        _ => false,
    }
}

/// The increment as the volume type holds it (the low byte of the setting).
pub open spec fn low_byte(x: u32) -> u8 {
    (x % 256) as u8
}

/// The command an action sends given the status.
pub open spec fn status_command(a: MPDAction, inc: u32, fine: u32, s: PlayerStatus) -> MpdCommand {
    match a {
        MPDAction::TogglePlayPause => if s.state == PlayState::Playing {
            MpdCommand::SetPause(true)
        } else {
            MpdCommand::PlayCurrent
        },
        MPDAction::VolumeUp => MpdCommand::SetVolume(
            if s.volume + low_byte(inc) < 100 {
                (s.volume + low_byte(inc)) as u8
            } else {
                100
            },
        ),
        MPDAction::VolumeUpFine => MpdCommand::SetVolume(
            if s.volume + low_byte(fine) < 100 {
                (s.volume + low_byte(fine)) as u8
            } else {
                100
            },
        ),
        MPDAction::VolumeDown => MpdCommand::SetVolume(
            if s.volume >= low_byte(inc) {
                (s.volume - low_byte(inc)) as u8
            } else {
                0
            },
        ),
        MPDAction::VolumeDownFine => MpdCommand::SetVolume(
            if s.volume >= low_byte(fine) {
                (s.volume - low_byte(fine)) as u8
            } else {
                0
            },
        ),
        MPDAction::ToggleMute => MpdCommand::SetVolume(
            if s.volume > 0 {
                0
            } else {
                50
            },
        ),
        MPDAction::Random => MpdCommand::SetRandom(!s.random),
        MPDAction::Repeat => MpdCommand::SetRepeat(!s.repeat),
        MPDAction::Single => MpdCommand::SetSingle(
            if s.single == SingleMode::Enabled {
                SingleMode::Disabled
            } else {
                SingleMode::Enabled
            },
        ),
        _ => MpdCommand::SetConsume(!s.consume),
    }
}

/// What executing an action takes, given the status when it is known.
pub open spec fn command_plan(
    a: MPDAction,
    inc: u32,
    fine: u32,
    status: Option<PlayerStatus>,
) -> CommandPlan {
    match a {
        MPDAction::Next => CommandPlan::Send(MpdCommand::Next),
        MPDAction::Previous => CommandPlan::Send(MpdCommand::Previous),
        MPDAction::SeekForward => CommandPlan::Send(MpdCommand::SeekForward(5)),
        MPDAction::SeekBackward => CommandPlan::Send(MpdCommand::SeekBackward(5)),
        MPDAction::ClearQueue => CommandPlan::Send(MpdCommand::ClearQueue),
        _ => if reads_status(a) {
            match status {
                Some(s) => CommandPlan::Send(status_command(a, inc, fine, s)),
                None => CommandPlan::NeedStatus,
            }
        } else {
            CommandPlan::Nothing
        },
    }
}

/// Raising the volume stays within the volume type (otherwise the addition overflows).
pub open spec fn volume_sum_fits(a: MPDAction, inc: u32, fine: u32, status: Option<PlayerStatus>) -> bool {
    match status {
        Some(s) => (a == MPDAction::VolumeUp ==> s.volume + low_byte(inc) <= 255) && (a
            == MPDAction::VolumeUpFine ==> s.volume + low_byte(fine) <= 255),
        None => true,
    }
}

fn raised_volume(volume: u8, increment: u32) -> (r: u8)
    requires
        volume + low_byte(increment) <= 255,
    ensures
        r == (if volume + low_byte(increment) < 100 {
            (volume + low_byte(increment)) as u8
        } else {
            100
        }),
{
    let inc = (increment % 256) as u8;
    let sum = volume + inc;
    if sum < 100 {
        sum
    } else {
        100
    }
}

fn lowered_volume(volume: u8, increment: u32) -> (r: u8)
    ensures
        r == (if volume >= low_byte(increment) {
            (volume - low_byte(increment)) as u8
        } else {
            0
        }),
{
    let inc = (increment % 256) as u8;
    if volume >= inc {
        volume - inc
    } else {
        0
    }
}

/// The command an action sends, or that the status is needed first: actions
/// that depend on the status send nothing until it is given. Seeking moves
/// five seconds; muting sets the volume to 0, or to 50 when it is 0.
pub fn plan_command(
    action: MPDAction,
    volume_increment: u32,
    volume_increment_fine: u32,
    status: Option<PlayerStatus>,
) -> (r: CommandPlan)
    requires
        volume_sum_fits(action, volume_increment, volume_increment_fine, status),
    ensures
        r == command_plan(action, volume_increment, volume_increment_fine, status),
{
    match action {
        MPDAction::Next => CommandPlan::Send(MpdCommand::Next),
        MPDAction::Previous => CommandPlan::Send(MpdCommand::Previous),
        MPDAction::SeekForward => CommandPlan::Send(MpdCommand::SeekForward(5)),
        MPDAction::SeekBackward => CommandPlan::Send(MpdCommand::SeekBackward(5)),
        MPDAction::ClearQueue => CommandPlan::Send(MpdCommand::ClearQueue),
        MPDAction::TogglePlayPause | MPDAction::VolumeUp | MPDAction::VolumeUpFine
        | MPDAction::VolumeDown | MPDAction::VolumeDownFine | MPDAction::ToggleMute
        | MPDAction::Random | MPDAction::Repeat | MPDAction::Single | MPDAction::Consume => {
            match status {
                None => CommandPlan::NeedStatus,
                Some(s) => {
                    let cmd = match action {
                        MPDAction::TogglePlayPause => if s.state == PlayState::Playing {
                            MpdCommand::SetPause(true)
                        } else {
                            MpdCommand::PlayCurrent
                        },
                        MPDAction::VolumeUp => MpdCommand::SetVolume(
                            raised_volume(s.volume, volume_increment),
                        ),
                        MPDAction::VolumeUpFine => MpdCommand::SetVolume(
                            raised_volume(s.volume, volume_increment_fine),
                        ),
                        MPDAction::VolumeDown => MpdCommand::SetVolume(
                            lowered_volume(s.volume, volume_increment),
                        ),
                        MPDAction::VolumeDownFine => MpdCommand::SetVolume(
                            lowered_volume(s.volume, volume_increment_fine),
                        ),
                        MPDAction::ToggleMute => MpdCommand::SetVolume(
                            if s.volume > 0 {
                                0
                            } else {
                                50
                            },
                        ),
                        MPDAction::Random => MpdCommand::SetRandom(!s.random),
                        MPDAction::Repeat => MpdCommand::SetRepeat(!s.repeat),
                        MPDAction::Single => MpdCommand::SetSingle(
                            if s.single == SingleMode::Enabled {
                                SingleMode::Disabled
                            } else {
                                SingleMode::Enabled
                            },
                        ),
                        _ => MpdCommand::SetConsume(!s.consume),
                    };
                    CommandPlan::Send(cmd)
                },
            }
        },
        _ => CommandPlan::Nothing,
    }
}

/// Every planned volume is at most 100 when the volume was at most 100, and
/// each toggle flips exactly the setting it names.
pub proof fn lemma_plan_keeps_volume_in_range(
    a: MPDAction,
    inc: u32,
    fine: u32,
    s: PlayerStatus,
)
    requires
        s.volume <= 100,
    ensures
        command_plan(a, inc, fine, Some(s)) matches CommandPlan::Send(MpdCommand::SetVolume(v))
            ==> v <= 100,
        a == MPDAction::Random ==> command_plan(a, inc, fine, Some(s)) == CommandPlan::Send(
            MpdCommand::SetRandom(!s.random),
        ),
        a == MPDAction::Repeat ==> command_plan(a, inc, fine, Some(s)) == CommandPlan::Send(
            MpdCommand::SetRepeat(!s.repeat),
        ),
        a == MPDAction::Consume ==> command_plan(a, inc, fine, Some(s)) == CommandPlan::Send(
            MpdCommand::SetConsume(!s.consume),
        ),
{
}

/// Whether the player plays after a command, for the commands that decide
/// it: resuming plays, pausing does not; other commands leave it open.
pub open spec fn plays_after(c: MpdCommand) -> Option<bool> {
    match c {
        MpdCommand::PlayCurrent => Some(true),
        MpdCommand::SetPause(p) => Some(!p),
        _ => None,
    }
}

/// Play/pause toggles: with the status known, the command sent pauses a
/// playing player and resumes one that is paused or stopped, whatever the
/// volume settings are.
pub proof fn lemma_play_pause_toggles(inc: u32, fine: u32, s: PlayerStatus)
    ensures
        command_plan(MPDAction::TogglePlayPause, inc, fine, Some(s)) matches CommandPlan::Send(c)
            && plays_after(c) == Some(s.state != PlayState::Playing),
        s.state == PlayState::Playing ==> command_plan(MPDAction::TogglePlayPause, inc, fine, Some(s))
            == CommandPlan::Send(MpdCommand::SetPause(true)),
        s.state != PlayState::Playing ==> command_plan(MPDAction::TogglePlayPause, inc, fine, Some(s))
            == CommandPlan::Send(MpdCommand::PlayCurrent),
        command_plan(MPDAction::TogglePlayPause, inc, fine, None) == CommandPlan::NeedStatus,
{
}

} // verus!
