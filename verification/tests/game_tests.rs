use rust_global_offensive::color::Color;
use rust_global_offensive::helpers::{
    in_game_next_state, menu_outcome, radar_color, same_text, DefuseProgress, GameState,
    MenuOutcome,
};
use rust_global_offensive::player::{
    dry_fire, process_action_input, reload_cue, ActionKeys, ActionState, ReloadCue,
};
use rust_global_offensive::world_textures::{CpuTexture, WorldTextures};

#[test]
fn main_menu_buttons() {
    assert_eq!(menu_outcome(GameState::MainMenu, "play"), MenuOutcome::Switch(GameState::InGame));
    assert_eq!(
        menu_outcome(GameState::MainMenu, "map select"),
        MenuOutcome::Switch(GameState::MapSelect)
    );
    assert_eq!(menu_outcome(GameState::MainMenu, "exit"), MenuOutcome::Quit);
    assert_eq!(menu_outcome(GameState::MainMenu, "back"), MenuOutcome::Stay);
}

#[test]
fn map_select_buttons() {
    assert_eq!(menu_outcome(GameState::MapSelect, "random"), MenuOutcome::PickRandomMap);
    assert_eq!(menu_outcome(GameState::MapSelect, "mirage"), MenuOutcome::PickMap("Mirage"));
    assert_eq!(menu_outcome(GameState::MapSelect, "inferno"), MenuOutcome::PickMap("Inferno"));
    assert_eq!(menu_outcome(GameState::MapSelect, "dust 2"), MenuOutcome::PickMap("Dust 2"));
    assert_eq!(menu_outcome(GameState::MapSelect, "cache"), MenuOutcome::PickMap("Cache"));
    assert_eq!(menu_outcome(GameState::MapSelect, "back"), MenuOutcome::Switch(GameState::MainMenu));
    assert_eq!(menu_outcome(GameState::MapSelect, "play"), MenuOutcome::Stay);
}

#[test]
fn victory_and_game_buttons() {
    assert_eq!(menu_outcome(GameState::Victory, "return"), MenuOutcome::Switch(GameState::MainMenu));
    assert_eq!(menu_outcome(GameState::Victory, "exit"), MenuOutcome::Stay);
    assert_eq!(menu_outcome(GameState::InGame, "play"), MenuOutcome::Stay);
}

#[test]
fn same_text_compares_characters() {
    assert!(same_text("dust 2", "dust 2"));
    assert!(!same_text("dust 2", "dust2"));
    assert!(!same_text("", "a"));
    assert!(same_text("┌┐", "┌┐"));
    assert!(!same_text("┌", "┐"));
}

#[test]
fn in_game_transitions() {
    assert_eq!(in_game_next_state(false, false, false), GameState::InGame);
    assert_eq!(in_game_next_state(true, true, false), GameState::MainMenu);
    assert_eq!(in_game_next_state(false, true, true), GameState::Victory);
    assert_eq!(in_game_next_state(true, true, true), GameState::Victory);
}

#[test]
fn defusing_both_sites_wins() {
    let mut progress = DefuseProgress::new();
    assert!(progress.site_pending('1') && progress.site_pending('2'));
    assert!(!progress.site_pending(' '));
    progress.complete('2');
    assert!(progress.site_defused('2') && !progress.site_defused('1'));
    assert!(!progress.all_defused());
    assert_eq!(in_game_next_state(false, progress.defused_a, progress.defused_b), GameState::InGame);
    progress.complete('1');
    assert!(progress.all_defused());
    assert_eq!(progress.defused_count, 2);
    assert_eq!(in_game_next_state(false, progress.defused_a, progress.defused_b), GameState::Victory);
    progress.start_round();
    assert!(!progress.site_defused('1') && !progress.site_defused('2'));
    assert_eq!(progress.defused_count, 2);
}

#[test]
fn radar_colors() {
    assert_eq!(radar_color('1'), Color::new(225, 255, 0, 255));
    assert_eq!(radar_color('2'), Color::new(225, 255, 0, 255));
    assert_eq!(radar_color('B'), Color::new(77, 33, 12, 255));
    assert_eq!(radar_color(' '), Color::new(128, 128, 128, 255));
    assert_eq!(radar_color('P'), Color::new(128, 128, 128, 255));
    assert_eq!(radar_color('T'), Color::new(128, 128, 128, 255));
    assert_eq!(radar_color('-'), Color::new(0, 0, 0, 255));
    assert_eq!(radar_color('┌'), Color::new(251, 255, 219, 255));
}

fn keys(defuse_down: bool, reload_pressed: bool, fire_pressed: bool) -> ActionKeys {
    ActionKeys { defuse_down, reload_pressed, fire_pressed }
}

#[test]
fn defuse_key_only_starts_on_a_site() {
    let mut state = ActionState::new();
    process_action_input(&mut state, false, keys(true, false, false));
    assert!(!state.defusing);
    process_action_input(&mut state, true, keys(true, false, false));
    assert!(state.defusing);
    // still held after walking off the site
    process_action_input(&mut state, false, keys(true, false, false));
    assert!(state.defusing);
    process_action_input(&mut state, true, keys(false, false, false));
    assert!(!state.defusing);
}

#[test]
fn reload_needs_a_missing_round() {
    let mut state = ActionState::new();
    assert_eq!(state.ammo, 7);
    process_action_input(&mut state, false, keys(false, true, false));
    assert!(!state.reloading);
    state.ammo = 3;
    process_action_input(&mut state, false, keys(false, true, true));
    assert!(state.reloading);
    assert!(state.fired);
    assert_eq!(state.ammo, 3);
}

#[test]
fn textures_clamp_and_pick_walls() {
    let red = Color::new(255, 0, 0, 255);
    let blue = Color::new(0, 0, 255, 255);
    assert!(CpuTexture::new(2, 2, vec![red; 3]).is_none());
    let t = CpuTexture::new(2, 2, vec![red, blue, blue, red]).unwrap();
    assert_eq!((t.width(), t.height()), (2, 2));
    assert_eq!(t.texel(1, 0), blue);
    assert_eq!(t.texel(5, 0), blue);
    assert_eq!(t.texel(5, 9), red);
    assert_eq!(t.texel(0, 9), blue);

    let solid = |c: Color| CpuTexture::new(1, 1, vec![c]).unwrap();
    let world = WorldTextures {
        box_texture: solid(Color::new(1, 0, 0, 255)),
        floor: solid(Color::new(2, 0, 0, 255)),
        bricks: solid(Color::new(3, 0, 0, 255)),
        concrete: solid(Color::new(4, 0, 0, 255)),
        wall1: solid(Color::new(5, 0, 0, 255)),
        wall2: solid(Color::new(6, 0, 0, 255)),
        defuse_site: solid(Color::new(7, 0, 0, 255)),
    };
    let code = |s: char| world.wall_for(s).texel(0, 0).r;
    assert_eq!(code('B'), 1);
    for s in ['┌', '┐', '┘', '└'] {
        assert_eq!(code(s), 3);
    }
    for s in ['┴', '┬', '├', '┤'] {
        assert_eq!(code(s), 4);
    }
    for s in ['╶', '╴', '╵', '╷'] {
        assert_eq!(code(s), 6);
    }
    assert_eq!(code('─'), 5);
    assert_eq!(code('+'), 5);
}

#[test]
fn spawn_has_full_magazine_and_reserve() {
    let state = ActionState::new();
    assert_eq!((state.ammo, state.mag), (7, 35));
    assert!(!state.fired && !state.reloading && !state.defusing);
}

#[test]
fn shooting_spends_rounds() {
    let mut state = ActionState::new();
    assert!(!state.can_shoot());
    process_action_input(&mut state, false, keys(false, false, true));
    assert!(state.can_shoot());
    state.spend_round();
    assert_eq!(state.ammo, 6);
    state.reloading = true;
    assert!(!state.can_shoot());
    state.reloading = false;
    state.ammo = 0;
    assert!(!state.can_shoot());
}

#[test]
fn reload_moves_rounds_from_reserve() {
    let mut state = ActionState::new();
    state.ammo = 2;
    state.reloading = true;
    assert!(state.reload_progresses());
    state.finish_reload();
    assert_eq!((state.ammo, state.mag), (7, 30));
    assert!(!state.reloading);

    state.ammo = 1;
    state.mag = 3;
    state.reloading = true;
    state.finish_reload();
    assert_eq!((state.ammo, state.mag), (4, 0));

    state.reloading = true;
    assert!(!state.reload_progresses());
}

#[test]
fn reload_and_dry_fire_sounds() {
    let mut state = ActionState::new();
    state.ammo = 3;
    state.reloading = true;
    assert_eq!(reload_cue(false, true, &state), ReloadCue::Reload);
    assert_eq!(reload_cue(true, true, &state), ReloadCue::Silent);
    state.reloading = false;
    state.mag = 0;
    assert_eq!(reload_cue(false, true, &state), ReloadCue::EmptyGun);
    assert_eq!(reload_cue(false, false, &state), ReloadCue::Silent);
    assert_eq!(reload_cue(true, true, &state), ReloadCue::Silent);

    assert!(!dry_fire(&state, true));
    state.ammo = 0;
    assert!(dry_fire(&state, true));
    assert!(!dry_fire(&state, false));
    state.reloading = true;
    assert!(!dry_fire(&state, true));
}
