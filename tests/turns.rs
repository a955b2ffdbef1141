use rusty_rogue::color::{white, yellow, Palette};
use rusty_rogue::grid::{make_map, MapError, Placement, TileMap};
use rusty_rogue::object::Object;
use rusty_rogue::tile::Tile;
use rusty_rogue::turn::{action_for_key, Action, Effect, KeyName, Session};
use rusty_rogue::visibility::Visibility;

fn standard_session() -> Session {
    let map = make_map();
    let player = Object::new(45, 30, 10, "Player", '@', white(), true);
    let npc = Object::new(40, 30, 10, "Orc", '@', yellow(), true);
    Session::new(map, player, vec![npc], Palette::standard()).unwrap()
}

/// A field of view in which exactly the listed cells are lit.
fn lit_cells(width: i32, height: i32, cells: &[(i32, i32)]) -> Vec<bool> {
    let mut v = vec![false; (width * height) as usize];
    for &(x, y) in cells {
        v[(x + width * y) as usize] = true;
    }
    v
}

fn fov_snapshot(s: &Session) -> Vec<bool> {
    let mut out = Vec::new();
    for y in 0..s.map.height {
        for x in 0..s.map.width {
            out.push(s.is_in_fov(x, y));
        }
    }
    out
}

#[test]
fn keys_to_actions() {
    assert_eq!(action_for_key(KeyName::Enter, true, '\r'), Action::ToggleFullscreen);
    assert_eq!(action_for_key(KeyName::Enter, false, '\r'), Action::Ignore);
    assert_eq!(action_for_key(KeyName::Escape, false, '\u{1b}'), Action::Quit);
    assert_eq!(action_for_key(KeyName::Up, false, '\0'), Action::MoveNorth);
    assert_eq!(action_for_key(KeyName::Down, false, '\0'), Action::MoveSouth);
    assert_eq!(action_for_key(KeyName::Left, false, '\0'), Action::MoveWest);
    assert_eq!(action_for_key(KeyName::Right, false, '\0'), Action::MoveEast);
    assert_eq!(action_for_key(KeyName::Other, false, 's'), Action::TogglePosture);
    assert_eq!(action_for_key(KeyName::Other, false, 'q'), Action::Ignore);
}

#[test]
fn session_refuses_player_outside() {
    let player = Object::new(80, 0, 0, "Player", '@', white(), true);
    let r = Session::new(make_map(), player, Vec::new(), Palette::standard());
    assert_eq!(r.err().map(|_| ()), Some(()));
    let player = Object::new(0, 0, -1, "Player", '@', white(), true);
    match Session::new(make_map(), player, Vec::new(), Palette::standard()) {
        Err(e) => assert_eq!(e, MapError::OutOfBounds),
        Ok(_) => panic!("accepted a player outside the map"),
    }
}

#[test]
fn nothing_visible_before_first_result() {
    let s = standard_session();
    assert!(s.needs_fov());
    assert!(!s.is_in_fov(45, 30));
    assert!(!s.is_in_fov(0, 0));
    assert!(!s.is_in_fov(-1, 100));
    let v = Visibility::new(3, 2);
    assert!(!v.is_in_fov(1, 1));
    assert!(v.needs_recompute(0, 0));
}

#[test]
fn recompute_only_after_viewpoint_moves() {
    let mut s = standard_session();
    assert!(s.needs_fov());
    s.install_fov(lit_cells(80, 50, &[(45, 30), (46, 30), (40, 30)]));
    assert!(!s.needs_fov());
    assert!(s.is_in_fov(46, 30));
    assert!(!s.is_in_fov(47, 30));
    let first = fov_snapshot(&s);

    // a turn that does not move the viewpoint
    assert_eq!(s.apply(Action::TogglePosture), Effect::Continue);
    assert!(!s.needs_fov());
    assert_eq!(fov_snapshot(&s), first);

    // a turn that moves it
    assert_eq!(s.apply(Action::MoveEast), Effect::Continue);
    assert_eq!(s.player.pos(), (46, 30, 10));
    assert!(s.needs_fov());
    assert_eq!(fov_snapshot(&s), first);
}

#[test]
fn layer_change_does_not_call_for_recompute() {
    let walls: Vec<Placement> = Vec::new();
    let map = TileMap::new(5, 5, 3, &walls).unwrap();
    let player = Object::new(2, 2, 0, "Player", '@', white(), true);
    let mut s = Session::new(map, player, Vec::new(), Palette::standard()).unwrap();
    s.install_fov(lit_cells(5, 5, &[(2, 2)]));
    s.player.set_pos(2, 2, 1);
    assert!(!s.needs_fov());
}

#[test]
fn move_into_wall_keeps_position_and_fov() {
    let walls = vec![Placement { x: 46, y: 30, z: 10, tile: Tile::wall() }];
    let map = TileMap::new(80, 50, 20, &walls).unwrap();
    let player = Object::new(45, 30, 10, "Player", '@', white(), true);
    let mut s = Session::new(map, player, Vec::new(), Palette::standard()).unwrap();
    s.install_fov(lit_cells(80, 50, &[(45, 30), (46, 30), (45, 29)]));
    let before = fov_snapshot(&s);

    assert_eq!(s.apply(Action::MoveEast), Effect::Continue);
    assert_eq!(s.player.pos(), (45, 30, 10));
    assert!(!s.needs_fov());
    assert_eq!(fov_snapshot(&s), before);

    assert_eq!(s.apply(Action::MoveNorth), Effect::Continue);
    assert_eq!(s.player.pos(), (45, 29, 10));
    assert!(s.needs_fov());
}

#[test]
fn move_off_the_edge_is_noop() {
    let walls: Vec<Placement> = Vec::new();
    let map = TileMap::new(4, 4, 1, &walls).unwrap();
    let player = Object::new(0, 0, 0, "Player", '@', white(), true);
    let mut s = Session::new(map, player, Vec::new(), Palette::standard()).unwrap();
    s.apply(Action::MoveWest);
    s.apply(Action::MoveNorth);
    assert_eq!(s.player.pos(), (0, 0, 0));
    s.apply(Action::MoveSouth);
    assert_eq!(s.player.pos(), (0, 1, 0));
}

#[test]
fn display_commands_leave_state() {
    let mut s = standard_session();
    assert_eq!(s.apply(Action::ToggleFullscreen), Effect::ToggleFullscreen);
    assert_eq!(s.apply(Action::Ignore), Effect::Continue);
    assert_eq!(s.apply(Action::Quit), Effect::Quit);
    assert_eq!(s.player.pos(), (45, 30, 10));
    assert!(s.player.standing);
}

#[test]
fn posture_through_session() {
    let mut s = standard_session();
    assert!(s.blocked_at(45, 30, 10));
    s.apply(Action::TogglePosture);
    assert!(!s.player.blocks);
    assert!(!s.blocked_at(45, 30, 10));
    s.apply(Action::TogglePosture);
    assert!(s.player.blocks && s.player.standing);
}

#[test]
fn blocked_at_sees_everyone() {
    let s = standard_session();
    assert!(s.blocked_at(40, 30, 10));
    assert!(s.blocked_at(30, 22, 10));
    assert!(!s.blocked_at(41, 30, 10));
}

#[test]
fn backgrounds_follow_visibility_and_opacity() {
    let walls = vec![
        Placement { x: 46, y: 30, z: 10, tile: Tile::wall() },
        Placement { x: 47, y: 30, z: 10, tile: Tile::wall() },
    ];
    let map = TileMap::new(80, 50, 20, &walls).unwrap();
    let player = Object::new(45, 30, 10, "Player", '@', white(), true);
    let mut s = Session::new(map, player, Vec::new(), Palette::standard()).unwrap();
    let p = Palette::standard();
    assert_eq!(s.background_at(46, 30), p.dark_wall);
    assert_eq!(s.background_at(44, 30), p.dark_ground);
    s.install_fov(lit_cells(80, 50, &[(45, 30), (46, 30), (44, 30)]));
    assert_eq!(s.background_at(46, 30), p.light_wall);
    assert_eq!(s.background_at(44, 30), p.light_ground);
    assert_eq!(s.background_at(47, 30), p.dark_wall);
    assert_eq!(s.background_at(43, 30), p.dark_ground);
}

#[test]
fn visibility_record_and_query() {
    let mut v = Visibility::new(3, 2);
    v.record(1, 1, vec![false, true, false, false, false, true]);
    assert!(!v.needs_recompute(1, 1));
    assert!(v.needs_recompute(1, 0));
    assert!(v.is_in_fov(1, 0));
    assert!(v.is_in_fov(2, 1));
    assert!(!v.is_in_fov(0, 1));
    assert!(!v.is_in_fov(3, 0));
}
