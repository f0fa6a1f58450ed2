//! The game's main module and the addresses of its data.

use vstd::prelude::*;

verus! {

/// The edition of the game that runs: `mhfo.dll` is the Low Grade Edition,
/// `mhfo-hd.dll` the High Grade Edition.
#[derive(Clone, Copy, Debug, PartialEq, Eq, Structural)]
pub enum GameMode {
    LowGrade,
    HighGrade,
}

impl GameMode {
    /// The edition's name, as it is displayed.
    pub fn edition_name(&self) -> (r: &'static str)
        ensures
            *self is LowGrade ==> r@ == "Low Grade Edition"@,
            *self is HighGrade ==> r@ == "High Grade Edition"@,
    {
        match self {
            GameMode::LowGrade => "Low Grade Edition",
            GameMode::HighGrade => "High Grade Edition",
        }
    }
}

/// Where the game keeps the data that the manager reads or hooks.
#[derive(Clone, Copy, Debug, PartialEq, Eq, Structural)]
pub struct Addresses {
    pub game_mode: GameMode,
    /// The base address of the game's main module.
    pub dll: usize,
    /// The game window's handle.
    pub hwnd: usize,
    /// Non-zero once the game has started.
    pub game_state: usize,
    /// The code run when the game ends.
    pub game_ending: usize,
}

/// The largest offset used in the Low Grade Edition, for the G1 build or not.
pub open spec fn lge_max_offset(g1: bool) -> nat {
    if g1 { 0x56f367c } else { 0x5bd9e08 }
}

/// The largest offset used in the High Grade Edition.
pub open spec fn hge_max_offset() -> nat {
    0xe811a38
}

/// The addresses in the Low Grade Edition loaded at `dll`.
pub open spec fn lge_addresses(dll: usize, g1: bool) -> Addresses {
    if g1 {
        Addresses {
            game_mode: GameMode::LowGrade,
            dll,
            hwnd: (dll + 0x56f367c) as usize,
            game_state: (dll + 0x5628e94) as usize,
            game_ending: (dll + 0xa1435f) as usize,
        }
    } else {
        Addresses {
            game_mode: GameMode::LowGrade,
            dll,
            hwnd: (dll + 0x5bd9e08) as usize,
            game_state: (dll + 0x5b460d0) as usize,
            game_ending: (dll + 0x1568a6f) as usize,
        }
    }
}

/// The addresses in the High Grade Edition loaded at `dll`.
pub open spec fn hge_addresses(dll: usize) -> Addresses {
    Addresses {
        game_mode: GameMode::HighGrade,
        dll,
        hwnd: (dll + 0xe811a38) as usize,
        game_state: (dll + 0xe77dcf8) as usize,
        game_ending: (dll + 0x158f8bf) as usize,
    }
}

impl Addresses {
    /// The addresses in the Low Grade Edition loaded at `dll`; `g1` selects
    /// the build for the G1 release of the game.
    pub fn new_lge(dll: usize, g1: bool) -> (a: Self)
        requires
            dll + lge_max_offset(g1) <= usize::MAX,
        ensures
            a == lge_addresses(dll, g1),
    {
        if g1 {
            Addresses {
                game_mode: GameMode::LowGrade,
                dll,
                hwnd: dll + 0x56f367c,
                game_state: dll + 0x5628e94,
                game_ending: dll + 0xa1435f,
            }
        } else {
            Addresses {
                game_mode: GameMode::LowGrade,
                dll,
                hwnd: dll + 0x5bd9e08,
                game_state: dll + 0x5b460d0,
                game_ending: dll + 0x1568a6f,
            }
        }
    }

    /// The addresses in the High Grade Edition loaded at `dll`. The G1 build
    /// does not support this edition.
    pub fn new_hge(dll: usize, g1: bool) -> (a: Self)
        requires
            !g1,
            dll + hge_max_offset() <= usize::MAX,
        ensures
            a == hge_addresses(dll),
    {
        Addresses {
            game_mode: GameMode::HighGrade,
            dll,
            hwnd: dll + 0xe811a38,
            game_state: dll + 0xe77dcf8,
            game_ending: dll + 0x158f8bf,
        }
    }
}

/// Whether the modules found can be turned into addresses: the edition
/// found first has its addresses in range, and the G1 build meets no High
/// Grade Edition.
pub open spec fn modules_supported(lge: Option<usize>, hge: Option<usize>, g1: bool) -> bool {
    match lge {
        Some(dll) => dll + lge_max_offset(g1) <= usize::MAX,
        None => match hge {
            Some(dll) => !g1 && dll + hge_max_offset() <= usize::MAX,
            None => true,
        },
    }
}

/// Whether the modules found can be turned into addresses.
pub fn can_compute_addresses(lge: Option<usize>, hge: Option<usize>, g1: bool) -> (r: bool)
    ensures
        r == modules_supported(lge, hge, g1),
{
    match lge {
        Some(dll) => {
            let max: usize = if g1 { 0x56f367c } else { 0x5bd9e08 };
            dll <= usize::MAX - max
        },
        None => match hge {
            Some(dll) => !g1 && dll <= usize::MAX - 0xe811a38,
            None => true,
        },
    }
}

/// One look for the game's main module: `lge` and `hge` are the base
/// addresses of `mhfo.dll` and `mhfo-hd.dll` if loaded. The Low Grade Edition
/// wins when both are; when neither is, nothing is found yet.
pub fn main_dll_addresses(lge: Option<usize>, hge: Option<usize>, g1: bool) -> (r: Option<Addresses>)
    requires
        modules_supported(lge, hge, g1),
    ensures
        lge is Some ==> r == Some(lge_addresses(lge->0, g1)),
        lge is None && hge is Some ==> r == Some(hge_addresses(hge->0)),
        lge is None && hge is None ==> r is None,
{
    match lge {
        Some(dll) => Some(Addresses::new_lge(dll, g1)),
        None => match hge {
            Some(dll) => Some(Addresses::new_hge(dll, g1)),
            None => None,
        },
    }
}

} // verus!
