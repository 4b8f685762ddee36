use chase_me::buttons::{
    update_color_buttons, update_release_buttons, update_release_buttons_with_force_key,
    ColorButton, Interaction, ReleaseButton, ReleaseButtonForceKey,
};
use chase_me::enemy::Colour;
use chase_me::events::{
    Events, MenuRequested, OptionsRequested, RestartRequested, ShipHit, TogglePauseRequested,
    UpdateOptions,
};
use chase_me::level::{player_shape, spawn_player, PlayerSpawn, SpawnLevel, SpawnPlayer};
use chase_me::movement::{Body, Momentum, Vec2};
use chase_me::resources::{GameTime, Score};
use chase_me::state::{clean_up, InGameState, NextState};
use chase_me::views::{
    check_menu_interactions, check_options_interactions, check_pause_interactions,
    check_summary_interactions, fired, AppState, PreparationView, PREPARATION_LINES,
};
use chase_me::walls::{
    despawn_walls, setup_walls, update_walls_on_resize, Wall, WallEntities, WallLayout,
};
use chase_me::widgets::Key;
use chase_me::window::{guard_resolution, Resolution, WindowResized};

fn released(yes: bool) -> ReleaseButton {
    ReleaseButton { just_released: yes, previous_interaction: Interaction::Away }
}

#[test]
fn the_walls_at_the_start_overlap_at_the_corners() {
    assert_eq!(
        setup_walls(1_280_000, 720_000),
        WallLayout {
            south: Wall { width: 1_289_000, height: 10_000, x: 0, y: -360_000 },
            north: Wall { width: 1_289_000, height: 10_000, x: 0, y: 360_000 },
            west: Wall { width: 10_000, height: 729_000, x: -640_000, y: 0 },
            east: Wall { width: 10_000, height: 729_000, x: 640_000, y: 0 },
        }
    );
}

#[test]
fn the_walls_after_a_resize_are_thin() {
    assert_eq!(update_walls_on_resize(false, 800_000, 600_000), None);
    assert_eq!(
        update_walls_on_resize(true, 800_000, 600_000),
        Some(WallLayout {
            south: Wall { width: 800_000, height: 1_000, x: 0, y: -300_000 },
            north: Wall { width: 800_000, height: 1_000, x: 0, y: 300_000 },
            west: Wall { width: 1_000, height: 600_000, x: -400_000, y: 0 },
            east: Wall { width: 1_000, height: 600_000, x: 400_000, y: 0 },
        })
    );
}

#[test]
fn walls_of_a_window_without_size() {
    let walls = setup_walls(0, 0);
    assert_eq!(walls.south, Wall { width: 9_000, height: 10_000, x: 0, y: 0 });
    assert_eq!(walls.east, Wall { width: 10_000, height: 9_000, x: 0, y: 0 });
}

#[test]
fn taking_down_the_walls_empties_the_record() {
    let mut walls = WallEntities { north: Some(1), south: None, west: Some(3), east: Some(4) };
    assert_eq!(despawn_walls(&mut walls), vec![1, 3, 4]);
    assert_eq!(walls, WallEntities::default());
    assert_eq!(despawn_walls(&mut walls), vec![]);
    let mut all = WallEntities { north: Some(1), south: Some(2), west: Some(3), east: Some(4) };
    assert_eq!(despawn_walls(&mut all), vec![1, 2, 3, 4]);
}

#[test]
fn the_level_holds_one_player() {
    let request = SpawnLevel.apply();
    assert_eq!(request, SpawnPlayer { max_speed: 8_000, mass: 1_300, thrust: 15_000 });
    assert_eq!(
        spawn_player(request),
        PlayerSpawn {
            momentum: Momentum { max_speed: 8_000, mass: 1_300, thrust: 15_000 },
            body: Body { position: Vec2 { x: 0, y: 0 }, velocity: Vec2 { x: 0, y: 800 } },
            radius: 7_500,
        }
    );
}

#[test]
fn a_player_drifts_at_a_tenth_of_its_top_speed() {
    let forward = spawn_player(SpawnPlayer { max_speed: 99, mass: 1, thrust: 1 });
    assert_eq!(forward.body.velocity, Vec2 { x: 0, y: 9 });
    let backward = spawn_player(SpawnPlayer { max_speed: -99, mass: 1, thrust: 1 });
    assert_eq!(backward.body.velocity, Vec2 { x: 0, y: -9 });
    assert_eq!(backward.momentum, Momentum { max_speed: -99, mass: 1, thrust: 1 });
}

#[test]
fn the_player_looks_like_a_bird() {
    let shape = player_shape();
    assert!(shape.closed);
    assert_eq!(
        shape.points,
        vec![
            Vec2 { x: 0, y: 15_000 },
            Vec2 { x: -5_000, y: 5_000 },
            Vec2 { x: -15_000, y: -5_000 },
            Vec2 { x: -5_000, y: -2_500 },
            Vec2 { x: 0, y: -10_000 },
            Vec2 { x: 5_000, y: -2_500 },
            Vec2 { x: 15_000, y: -5_000 },
            Vec2 { x: 5_000, y: 5_000 },
        ]
    );
}

#[test]
fn preparing_a_new_game_clears_the_last() {
    let mut state = NextState::Pending(InGameState::Summary);
    let mut score = Score(123_456);
    let mut time = GameTime { time: 98_765 };
    clean_up(&mut state, &mut score, &mut time);
    assert_eq!(state, NextState::Pending(InGameState::NoGame));
    assert_eq!(score, Score(0));
    assert_eq!(time, GameTime { time: 0 });
}

#[test]
fn a_button_fires_when_the_pointer_lets_go_of_it() {
    let mut b = ReleaseButton::default();
    assert_eq!(b, released(false));
    update_release_buttons(Interaction::Hovered, &mut b);
    assert!(!b.just_released);
    update_release_buttons(Interaction::Pressed, &mut b);
    assert!(!b.just_released);
    update_release_buttons(Interaction::Hovered, &mut b);
    assert!(b.just_released);
    update_release_buttons(Interaction::Hovered, &mut b);
    assert!(!b.just_released);
    assert_eq!(b.previous_interaction, Interaction::Hovered);
}

#[test]
fn a_button_does_not_fire_when_the_pointer_leaves_it_pressed() {
    let mut b = ReleaseButton::default();
    update_release_buttons(Interaction::Pressed, &mut b);
    update_release_buttons(Interaction::Away, &mut b);
    assert!(!b.just_released);
    update_release_buttons(Interaction::Hovered, &mut b);
    assert!(!b.just_released);
}

#[test]
fn a_button_that_has_just_fired_is_quiet_for_a_frame() {
    let mut b = ReleaseButton { just_released: true, previous_interaction: Interaction::Pressed };
    update_release_buttons(Interaction::Hovered, &mut b);
    assert!(!b.just_released);
}

#[test]
fn a_key_fires_a_button_too() {
    let mut b = ReleaseButton::default();
    update_release_buttons_with_force_key(&mut b, false);
    assert!(!b.just_released);
    update_release_buttons_with_force_key(&mut b, true);
    assert!(b.just_released);
    update_release_buttons_with_force_key(&mut b, false);
    assert!(b.just_released);
    assert_eq!(ReleaseButtonForceKey::new(Key::KeyR).key_code, Key::KeyR);
}

#[test]
fn a_button_changes_colour_under_the_pointer() {
    let b = ColorButton::default();
    assert_eq!(
        update_color_buttons(&b, Interaction::Away),
        Colour { r: 1_000, g: 1_000, b: 1_000 }
    );
    assert_eq!(update_color_buttons(&b, Interaction::Hovered), Colour { r: 800, g: 800, b: 800 });
    assert_eq!(update_color_buttons(&b, Interaction::Pressed), Colour { r: 600, g: 600, b: 600 });
}

#[test]
fn the_play_button_starts_a_game() {
    assert_eq!(AppState::default(), AppState::Menu);
    let mut next = NextState::Unchanged;
    check_menu_interactions(&vec![released(false), released(false)], &mut next);
    assert_eq!(next, NextState::Unchanged);
    check_menu_interactions(&vec![], &mut next);
    assert_eq!(next, NextState::Unchanged);
    check_menu_interactions(&vec![released(false), released(true)], &mut next);
    assert_eq!(next, NextState::Pending(AppState::InGame));
    assert!(fired(&vec![released(true)]));
    assert!(!fired(&vec![]));
}

#[test]
fn the_pause_menu_sends_one_request_at_most() {
    let yes = vec![released(true)];
    let no = vec![released(false)];
    let cases = [
        ((&yes, &yes, &yes, &yes), (1, 0, 0, 0)),
        ((&no, &yes, &yes, &yes), (0, 1, 0, 0)),
        ((&no, &no, &yes, &yes), (0, 0, 1, 0)),
        ((&no, &no, &no, &yes), (0, 0, 0, 1)),
        ((&no, &no, &no, &no), (0, 0, 0, 0)),
    ];
    for ((menu, restart, go_on, options), expected) in cases {
        let mut menu_events: Events<MenuRequested> = Events::new();
        let mut options_events: Events<OptionsRequested> = Events::new();
        let mut restart_events: Events<RestartRequested> = Events::new();
        let mut toggle_events: Events<TogglePauseRequested> = Events::new();
        check_pause_interactions(
            menu,
            restart,
            go_on,
            options,
            &mut menu_events,
            &mut options_events,
            &mut restart_events,
            &mut toggle_events,
        );
        assert_eq!(
            (menu_events.len(), restart_events.len(), toggle_events.len(), options_events.len()),
            expected
        );
    }
}

#[test]
fn the_summary_sends_menu_before_restart() {
    let yes = vec![released(false), released(true)];
    let no = vec![released(false)];
    let mut menu_events: Events<MenuRequested> = Events::new();
    let mut restart_events: Events<RestartRequested> = Events::new();
    check_summary_interactions(&yes, &yes, &mut menu_events, &mut restart_events);
    assert_eq!((menu_events.len(), restart_events.len()), (1, 0));
    check_summary_interactions(&no, &yes, &mut menu_events, &mut restart_events);
    assert_eq!((menu_events.len(), restart_events.len()), (1, 1));
    check_summary_interactions(&no, &no, &mut menu_events, &mut restart_events);
    assert_eq!((menu_events.len(), restart_events.len()), (1, 1));
}

#[test]
fn accepting_the_options_updates_them_and_ends_the_pause() {
    let yes = vec![released(true)];
    let no = vec![released(false)];
    let mut update: Events<UpdateOptions> = Events::new();
    let mut toggle: Events<TogglePauseRequested> = Events::new();
    check_options_interactions(&yes, &yes, &mut update, &mut toggle);
    assert_eq!((update.len(), toggle.len()), (1, 1));
    check_options_interactions(&no, &yes, &mut update, &mut toggle);
    assert_eq!((update.len(), toggle.len()), (1, 2));
    check_options_interactions(&no, &no, &mut update, &mut toggle);
    assert_eq!((update.len(), toggle.len()), (1, 2));
}

#[test]
fn how_to_play() {
    assert_eq!(PREPARATION_LINES, 4);
    assert_eq!(PreparationView::line(0), "Use arrows to move the player.");
    assert_eq!(PreparationView::line(1), "Escape the enemies.");
    assert_eq!(PreparationView::line(2), "Press any key to start.");
    assert_eq!(PreparationView::line(3), "(Optionally, press esc to pause.)");
}

#[test]
fn a_queue_keeps_its_signals_in_order() {
    let mut q: Events<ShipHit> = Events::new();
    assert!(q.is_empty());
    q.send(ShipHit { id: 3 });
    q.send(ShipHit { id: 1 });
    assert_eq!(q.len(), 2);
    assert_eq!(q.queue, vec![ShipHit { id: 3 }, ShipHit { id: 1 }]);
    q.clear();
    assert!(q.is_empty());
}

#[test]
fn a_window_too_narrow_is_widened() {
    assert_eq!(guard_resolution(&vec![]), None);
    let narrow = WindowResized { width: 600_000, height: 720_000 };
    assert_eq!(
        guard_resolution(&vec![narrow]),
        Some(Resolution { widen_to: Some(1_280_000), ui_scale: 1_000 })
    );
    let wide = WindowResized { width: 1_920_000, height: 1_080_000 };
    assert_eq!(
        guard_resolution(&vec![narrow, wide]),
        Some(Resolution { widen_to: None, ui_scale: 1_500 })
    );
    let exact = WindowResized { width: 640_000, height: 360_000 };
    assert_eq!(
        guard_resolution(&vec![wide, exact]),
        Some(Resolution { widen_to: None, ui_scale: 500 })
    );
    let just_short = WindowResized { width: 639_999, height: 360_000 };
    assert_eq!(
        guard_resolution(&vec![just_short]),
        Some(Resolution { widen_to: Some(640_000), ui_scale: 500 })
    );
    let flat = WindowResized { width: 640_000, height: 0 };
    assert_eq!(
        guard_resolution(&vec![flat]),
        Some(Resolution { widen_to: None, ui_scale: 0 })
    );
    let nothing = WindowResized { width: 0, height: 0 };
    assert_eq!(
        guard_resolution(&vec![nothing]),
        Some(Resolution { widen_to: None, ui_scale: 0 })
    );
}
