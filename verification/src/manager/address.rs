//! The game's main module and the addresses of its data.

use vstd::prelude::*;
pub use crate::classic::address::GameMode;

verus! {

/// The running edition and the base address of its main module.
#[derive(Clone, Copy, Debug, PartialEq, Eq, Structural)]
pub struct MhfoInfo {
    pub game_mode: GameMode,
    pub address: usize,
}

impl MhfoInfo {
    pub fn new(game_mode: GameMode, address: usize) -> (r: Self)
        ensures
            r == (MhfoInfo { game_mode, address }),
    {
        MhfoInfo { game_mode, address }
    }
}

/// Where the game keeps the data that the manager reads or hooks.
#[derive(Clone, Copy, Debug, PartialEq, Eq, Structural)]
pub struct Addresses {
    pub mhfo_info: MhfoInfo,
    /// Holds the game window's handle.
    pub hwnd: usize,
    /// Non-zero once the game has started.
    pub game_state: usize,
    pub lobby_update: usize,
    pub quest_update: usize,
    pub quest_ending_update: usize,
    pub quest_complete_update: usize,
    /// Holds the camera's view matrix.
    pub view_matrix: usize,
    /// Holds the camera's projection matrix.
    pub projection_matrix: usize,
    pub rendering_stuff: usize,
    /// Where the Direct3D 9 device is found.
    pub d3d_device: usize,
}

/// The largest offset from the module's base used in an edition.
pub open spec fn max_offset(mode: GameMode) -> nat {
    match mode {
        GameMode::LowGrade => 0x5c47360,
        GameMode::HighGrade => 0xe87ef90,
    }
}

/// The addresses in the edition and module of `info`.
pub open spec fn addresses_for(info: MhfoInfo) -> Addresses {
    let dll = info.address;
    match info.game_mode {
        GameMode::LowGrade => Addresses {
            mhfo_info: info,
            hwnd: (dll + 0x5bd9e08) as usize,
            game_state: (dll + 0x5b460d0) as usize,
            lobby_update: (dll + 0x882160) as usize,
            quest_update: (dll + 0x880360) as usize,
            quest_ending_update: (dll + 0x880cd0) as usize,
            quest_complete_update: (dll + 0x8810b0) as usize,
            view_matrix: (dll + 0x5c47360) as usize,
            projection_matrix: (dll + 0x5c47320) as usize,
            rendering_stuff: (dll + 0xb5c630) as usize,
            d3d_device: (dll + 0x5bd9e0c) as usize,
        },
        GameMode::HighGrade => Addresses {
            mhfo_info: info,
            hwnd: (dll + 0xe811a38) as usize,
            game_state: (dll + 0xe77dcf8) as usize,
            lobby_update: (dll + 0x89dc20) as usize,
            quest_update: (dll + 0x89be10) as usize,
            quest_ending_update: (dll + 0x89c780) as usize,
            quest_complete_update: (dll + 0x89cb50) as usize,
            view_matrix: (dll + 0xe87ef90) as usize,
            projection_matrix: (dll + 0xe87ef50) as usize,
            rendering_stuff: (dll + 0xb7af3a) as usize,
            d3d_device: (dll + 0xe811a3c) as usize,
        },
    }
}

/// The Direct3D 9 device: in the Low Grade Edition the game holds a proxy,
/// whose address `proxy` is read from `d3d_device`, and the device sits
/// twelve bytes into it (wrapping around the address space); in the High
/// Grade Edition it sits at `d3d_device` itself.
pub open spec fn device_address(a: Addresses, proxy: usize) -> usize {
    match a.mhfo_info.game_mode {
        GameMode::LowGrade => if proxy + 0xc > usize::MAX {
            (proxy + 0xc - (usize::MAX + 1)) as usize
        } else {
            (proxy + 0xc) as usize
        },
        GameMode::HighGrade => a.d3d_device,
    }
}

/// Every address is the module's base address plus its edition's fixed
/// offset, whatever the base, and so lies in the module, between its base
/// and its base plus the edition's largest offset.
pub proof fn lemma_addresses_are_module_offsets(info: MhfoInfo)
    requires
        info.address + max_offset(info.game_mode) <= usize::MAX,
    ensures
        addresses_for(info).mhfo_info == info,
        info.game_mode is LowGrade ==> {
            let a = addresses_for(info);
            &&& a.hwnd == info.address + 0x5bd9e08
            &&& a.game_state == info.address + 0x5b460d0
            &&& a.lobby_update == info.address + 0x882160
            &&& a.quest_update == info.address + 0x880360
            &&& a.quest_ending_update == info.address + 0x880cd0
            &&& a.quest_complete_update == info.address + 0x8810b0
            &&& a.view_matrix == info.address + 0x5c47360
            &&& a.projection_matrix == info.address + 0x5c47320
            &&& a.rendering_stuff == info.address + 0xb5c630
            &&& a.d3d_device == info.address + 0x5bd9e0c
        },
        info.game_mode is HighGrade ==> {
            let a = addresses_for(info);
            &&& a.hwnd == info.address + 0xe811a38
            &&& a.game_state == info.address + 0xe77dcf8
            &&& a.lobby_update == info.address + 0x89dc20
            &&& a.quest_update == info.address + 0x89be10
            &&& a.quest_ending_update == info.address + 0x89c780
            &&& a.quest_complete_update == info.address + 0x89cb50
            &&& a.view_matrix == info.address + 0xe87ef90
            &&& a.projection_matrix == info.address + 0xe87ef50
            &&& a.rendering_stuff == info.address + 0xb7af3a
            &&& a.d3d_device == info.address + 0xe811a3c
        },
        ({
            let a = addresses_for(info);
            let lo = info.address;
            let hi = info.address + max_offset(info.game_mode);
            &&& lo <= a.hwnd <= hi
            &&& lo <= a.game_state <= hi
            &&& lo <= a.lobby_update <= hi
            &&& lo <= a.quest_update <= hi
            &&& lo <= a.quest_ending_update <= hi
            &&& lo <= a.quest_complete_update <= hi
            &&& lo <= a.view_matrix <= hi
            &&& lo <= a.projection_matrix <= hi
            &&& lo <= a.rendering_stuff <= hi
            &&& lo <= a.d3d_device <= hi
        }),
{
}

/// Moving the module moves every address by the same amount: two modules of
/// one edition have their addresses at the same distances from their bases.
pub proof fn lemma_addresses_move_with_module(x: MhfoInfo, y: MhfoInfo)
    requires
        x.game_mode == y.game_mode,
        x.address + max_offset(x.game_mode) <= usize::MAX,
        y.address + max_offset(y.game_mode) <= usize::MAX,
    ensures
        ({
            let a = addresses_for(x);
            let b = addresses_for(y);
            let d = y.address - x.address;
            &&& b.hwnd - a.hwnd == d
            &&& b.game_state - a.game_state == d
            &&& b.lobby_update - a.lobby_update == d
            &&& b.quest_update - a.quest_update == d
            &&& b.quest_ending_update - a.quest_ending_update == d
            &&& b.quest_complete_update - a.quest_complete_update == d
            &&& b.view_matrix - a.view_matrix == d
            &&& b.projection_matrix - a.projection_matrix == d
            &&& b.rendering_stuff - a.rendering_stuff == d
            &&& b.d3d_device - a.d3d_device == d
        }),
{
    lemma_addresses_are_module_offsets(x);
    lemma_addresses_are_module_offsets(y);
}

impl Addresses {
    /// The addresses in the edition and module of `mhfo_info`.
    pub fn new(mhfo_info: MhfoInfo) -> (a: Self)
        requires
            mhfo_info.address + max_offset(mhfo_info.game_mode) <= usize::MAX,
        ensures
            a == addresses_for(mhfo_info),
    {
        let dll: usize = mhfo_info.address;
        match mhfo_info.game_mode {
            GameMode::LowGrade => Addresses {
                mhfo_info,
                hwnd: dll + 0x5bd9e08,
                game_state: dll + 0x5b460d0,
                lobby_update: dll + 0x882160,
                quest_update: dll + 0x880360,
                quest_ending_update: dll + 0x880cd0,
                quest_complete_update: dll + 0x8810b0,
                view_matrix: dll + 0x5c47360,
                projection_matrix: dll + 0x5c47320,
                rendering_stuff: dll + 0xb5c630,
                d3d_device: dll + 0x5bd9e0c,
            },
            GameMode::HighGrade => Addresses {
                mhfo_info,
                hwnd: dll + 0xe811a38,
                game_state: dll + 0xe77dcf8,
                lobby_update: dll + 0x89dc20,
                quest_update: dll + 0x89be10,
                quest_ending_update: dll + 0x89c780,
                quest_complete_update: dll + 0x89cb50,
                view_matrix: dll + 0xe87ef90,
                projection_matrix: dll + 0xe87ef50,
                rendering_stuff: dll + 0xb7af3a,
                d3d_device: dll + 0xe811a3c,
            },
        }
    }

    /// Whether finding the device needs the proxy address read first.
    pub fn device_needs_proxy(&self) -> (r: bool)
        ensures
            r == (self.mhfo_info.game_mode is LowGrade),
    {
        match self.mhfo_info.game_mode {
            GameMode::LowGrade => true,
            GameMode::HighGrade => false,
        }
    }

    /// The address of the Direct3D 9 device, given the proxy address read
    /// from `d3d_device` (ignored in the High Grade Edition).
    pub fn d3d9_device(&self, proxy: usize) -> (r: usize)
        ensures
            r == device_address(*self, proxy),
    {
        match self.mhfo_info.game_mode {
            GameMode::LowGrade => proxy.wrapping_add(0xc),
            GameMode::HighGrade => self.d3d_device,
        }
    }
}

/// Whether every address of the edition and module of `info` fits in a
/// `usize`, so that `Addresses::new` can compute them.
pub fn addresses_in_range(info: MhfoInfo) -> (r: bool)
    ensures
        r == (info.address + max_offset(info.game_mode) <= usize::MAX),
{
    let max: usize = match info.game_mode {
        GameMode::LowGrade => 0x5c47360,
        GameMode::HighGrade => 0xe87ef90,
    };
    info.address <= usize::MAX - max
}

/// Whether the module found first has its addresses in range.
pub open spec fn modules_in_range(lge: Option<usize>, hge: Option<usize>) -> bool {
    match lge {
        Some(dll) => dll + max_offset(GameMode::LowGrade) <= usize::MAX,
        None => match hge {
            Some(dll) => dll + max_offset(GameMode::HighGrade) <= usize::MAX,
            None => true,
        },
    }
}

/// One look for the game's main module: `lge` and `hge` are the base
/// addresses of `mhfo.dll` and `mhfo-hd.dll` if loaded. The Low Grade Edition
/// wins when both are; when neither is, nothing is found yet.
pub fn find_addresses_in(lge: Option<usize>, hge: Option<usize>) -> (r: Option<Addresses>)
    requires
        modules_in_range(lge, hge),
    ensures
        lge is Some ==> r == Some(addresses_for(MhfoInfo { game_mode: GameMode::LowGrade, address: lge->0 })),
        lge is None && hge is Some ==> r == Some(addresses_for(MhfoInfo { game_mode: GameMode::HighGrade, address: hge->0 })),
        lge is None && hge is None ==> r is None,
{
    match lge {
        Some(dll) => Some(Addresses::new(MhfoInfo::new(GameMode::LowGrade, dll))),
        None => match hge {
            Some(dll) => Some(Addresses::new(MhfoInfo::new(GameMode::HighGrade, dll))),
            None => None,
        },
    }
}

} // verus!
