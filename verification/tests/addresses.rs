use bunny_manager::classic::address::{main_dll_addresses, Addresses as ClassicAddresses, GameMode};
use bunny_manager::manager::address::{find_addresses_in, Addresses, MhfoInfo};

#[test]
fn classic_low_grade_offsets() {
    let a = ClassicAddresses::new_lge(0x1000_0000, false);
    assert_eq!(a.game_mode, GameMode::LowGrade);
    assert_eq!(a.dll, 0x1000_0000);
    assert_eq!(a.hwnd, 0x1000_0000 + 0x5bd9e08);
    assert_eq!(a.game_state, 0x1000_0000 + 0x5b460d0);
    assert_eq!(a.game_ending, 0x1000_0000 + 0x1568a6f);
    let g1 = ClassicAddresses::new_lge(0x1000_0000, true);
    assert_eq!(g1.hwnd, 0x1000_0000 + 0x56f367c);
    assert_eq!(g1.game_state, 0x1000_0000 + 0x5628e94);
    assert_eq!(g1.game_ending, 0x1000_0000 + 0xa1435f);
}

#[test]
fn classic_high_grade_offsets() {
    let a = ClassicAddresses::new_hge(0x2000_0000, false);
    assert_eq!(a.game_mode, GameMode::HighGrade);
    assert_eq!(a.hwnd, 0x2000_0000 + 0xe811a38);
    assert_eq!(a.game_state, 0x2000_0000 + 0xe77dcf8);
    assert_eq!(a.game_ending, 0x2000_0000 + 0x158f8bf);
}

#[test]
fn classic_low_grade_module_wins() {
    let both = main_dll_addresses(Some(0x100), Some(0x200), false).unwrap();
    assert_eq!(both.game_mode, GameMode::LowGrade);
    assert_eq!(both.dll, 0x100);
    let high = main_dll_addresses(None, Some(0x200), false).unwrap();
    assert_eq!(high.game_mode, GameMode::HighGrade);
    assert!(main_dll_addresses(None, None, true).is_none());
}

#[test]
fn edition_names() {
    assert_eq!(GameMode::LowGrade.edition_name(), "Low Grade Edition");
    assert_eq!(GameMode::HighGrade.edition_name(), "High Grade Edition");
}

#[test]
fn manager_offsets_per_edition() {
    let low = Addresses::new(MhfoInfo::new(GameMode::LowGrade, 0x1000));
    assert_eq!(low.hwnd, 0x1000 + 0x5bd9e08);
    assert_eq!(low.game_state, 0x1000 + 0x5b460d0);
    assert_eq!(low.lobby_update, 0x1000 + 0x882160);
    assert_eq!(low.quest_update, 0x1000 + 0x880360);
    assert_eq!(low.quest_ending_update, 0x1000 + 0x880cd0);
    assert_eq!(low.quest_complete_update, 0x1000 + 0x8810b0);
    assert_eq!(low.view_matrix, 0x1000 + 0x5c47360);
    assert_eq!(low.projection_matrix, 0x1000 + 0x5c47320);
    assert_eq!(low.rendering_stuff, 0x1000 + 0xb5c630);
    assert_eq!(low.d3d_device, 0x1000 + 0x5bd9e0c);
    let high = Addresses::new(MhfoInfo::new(GameMode::HighGrade, 0x1000));
    assert_eq!(high.hwnd, 0x1000 + 0xe811a38);
    assert_eq!(high.game_state, 0x1000 + 0xe77dcf8);
    assert_eq!(high.lobby_update, 0x1000 + 0x89dc20);
    assert_eq!(high.quest_update, 0x1000 + 0x89be10);
    assert_eq!(high.quest_ending_update, 0x1000 + 0x89c780);
    assert_eq!(high.quest_complete_update, 0x1000 + 0x89cb50);
    assert_eq!(high.view_matrix, 0x1000 + 0xe87ef90);
    assert_eq!(high.projection_matrix, 0x1000 + 0xe87ef50);
    assert_eq!(high.rendering_stuff, 0x1000 + 0xb7af3a);
    assert_eq!(high.d3d_device, 0x1000 + 0xe811a3c);
}

#[test]
fn device_address_per_edition() {
    let low = Addresses::new(MhfoInfo::new(GameMode::LowGrade, 0x1000));
    assert!(low.device_needs_proxy());
    assert_eq!(low.d3d9_device(0x5000), 0x500c);
    assert_eq!(low.d3d9_device(usize::MAX - 3), 8);
    let high = Addresses::new(MhfoInfo::new(GameMode::HighGrade, 0x1000));
    assert!(!high.device_needs_proxy());
    assert_eq!(high.d3d9_device(0x5000), high.d3d_device);
}

#[test]
fn manager_module_search() {
    let found = find_addresses_in(Some(0x10), Some(0x20)).unwrap();
    assert_eq!(found.mhfo_info, MhfoInfo::new(GameMode::LowGrade, 0x10));
    let found = find_addresses_in(None, Some(0x20)).unwrap();
    assert_eq!(found.mhfo_info, MhfoInfo::new(GameMode::HighGrade, 0x20));
    assert!(find_addresses_in(None, None).is_none());
}
