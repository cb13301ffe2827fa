use openfire::game_state::{
    decide_frame, CrosshairChange, CursorChange, FrameInput, GameScreen, MenuButton, Session,
};

fn input() -> FrameInput {
    FrameInput {
        enter_just_pressed: false,
        escape_just_pressed: false,
        fire_just_pressed: false,
        focus_regained: false,
        pressed_buttons: Vec::new(),
    }
}

#[test]
fn game_starts_on_main_menu() {
    assert_eq!(GameScreen::default(), GameScreen::MainMenu);
    let s = Session::new();
    assert_eq!(s.screen, GameScreen::MainMenu);
    assert!(s.main_menu_shown);
    assert!(!s.pause_menu_shown);
    assert!(!s.cursor_locked);
    assert!(!s.world_spawned);
    assert!(!s.laser_assets_ready);
}

#[test]
fn enter_starts_the_game_from_main_menu() {
    let mut i = input();
    i.enter_just_pressed = true;
    let out = decide_frame(GameScreen::MainMenu, &i);
    assert_eq!(out.next_screen, Some(GameScreen::InGame));
    assert!(!out.exit_requested);
    assert!(!out.fire_laser);
}

#[test]
fn enter_does_nothing_in_game_or_paused() {
    let mut i = input();
    i.enter_just_pressed = true;
    assert_eq!(decide_frame(GameScreen::InGame, &i).next_screen, None);
    assert_eq!(decide_frame(GameScreen::Paused, &i).next_screen, None);
}

#[test]
fn play_button_starts_and_exit_button_quits() {
    let mut i = input();
    i.pressed_buttons = vec![MenuButton::Play];
    let out = decide_frame(GameScreen::MainMenu, &i);
    assert_eq!(out.next_screen, Some(GameScreen::InGame));
    assert!(!out.exit_requested);

    let mut i = input();
    i.pressed_buttons = vec![MenuButton::ExitGame];
    let out = decide_frame(GameScreen::MainMenu, &i);
    assert_eq!(out.next_screen, None);
    assert!(out.exit_requested);
}

#[test]
fn exit_button_only_quits_from_main_menu() {
    let mut i = input();
    i.pressed_buttons = vec![MenuButton::ExitGame];
    assert!(!decide_frame(GameScreen::Paused, &i).exit_requested);
    assert!(!decide_frame(GameScreen::InGame, &i).exit_requested);
}

#[test]
fn escape_pauses_and_resumes_and_always_requests_exit() {
    let mut i = input();
    i.escape_just_pressed = true;
    let out = decide_frame(GameScreen::InGame, &i);
    assert_eq!(out.next_screen, Some(GameScreen::Paused));
    assert!(out.exit_requested);
    let out = decide_frame(GameScreen::Paused, &i);
    assert_eq!(out.next_screen, Some(GameScreen::InGame));
    assert!(out.exit_requested);
    let out = decide_frame(GameScreen::MainMenu, &i);
    assert_eq!(out.next_screen, None);
    assert!(out.exit_requested);
}

#[test]
fn pause_menu_buttons_resume_or_go_back() {
    let mut i = input();
    i.pressed_buttons = vec![MenuButton::Resume];
    assert_eq!(decide_frame(GameScreen::Paused, &i).next_screen, Some(GameScreen::InGame));
    i.pressed_buttons = vec![MenuButton::BackToMenu];
    assert_eq!(decide_frame(GameScreen::Paused, &i).next_screen, Some(GameScreen::MainMenu));
    // The main menu's buttons mean nothing on the pause screen.
    i.pressed_buttons = vec![MenuButton::Play];
    assert_eq!(decide_frame(GameScreen::Paused, &i).next_screen, None);
}

#[test]
fn last_button_wins_and_overrides_escape() {
    let mut i = input();
    i.escape_just_pressed = true;
    i.pressed_buttons = vec![MenuButton::Resume, MenuButton::BackToMenu, MenuButton::Play];
    assert_eq!(decide_frame(GameScreen::Paused, &i).next_screen, Some(GameScreen::MainMenu));
    i.pressed_buttons = vec![MenuButton::BackToMenu, MenuButton::Resume];
    assert_eq!(decide_frame(GameScreen::Paused, &i).next_screen, Some(GameScreen::InGame));
}

#[test]
fn fire_and_recapture_only_in_game() {
    let mut i = input();
    i.fire_just_pressed = true;
    i.focus_regained = true;
    let out = decide_frame(GameScreen::InGame, &i);
    assert!(out.fire_laser);
    assert!(out.recapture_cursor);
    let out = decide_frame(GameScreen::Paused, &i);
    assert!(!out.fire_laser);
    assert!(!out.recapture_cursor);
    let out = decide_frame(GameScreen::MainMenu, &i);
    assert!(!out.fire_laser);
    assert!(!out.recapture_cursor);
}

#[test]
fn first_entry_spawns_world_and_assets() {
    let mut s = Session::new();
    let mut i = input();
    i.enter_just_pressed = true;
    let out = s.step(&i);
    let plan = out.transition.expect("a screen change");
    assert!(plan.hide_main_menu);
    assert!(!plan.show_pause_menu);
    assert_eq!(plan.cursor, CursorChange::Lock);
    assert_eq!(plan.crosshair, CrosshairChange::Show);
    assert!(plan.spawn_world);
    assert!(plan.create_laser_assets);
    assert_eq!(s.screen, GameScreen::InGame);
    assert!(s.cursor_locked && s.crosshair_visible && s.world_spawned);
    assert!(!s.main_menu_shown);
}

#[test]
fn pause_then_resume_restores_the_session() {
    let mut s = Session::new();
    let mut i = input();
    i.enter_just_pressed = true;
    s.step(&i);
    let running = s;

    let mut esc = input();
    esc.escape_just_pressed = true;
    let pause = s.step(&esc).transition.expect("pause");
    assert_eq!(pause.cursor, CursorChange::Release);
    assert_eq!(pause.crosshair, CrosshairChange::Hide);
    assert!(pause.show_pause_menu);
    assert_eq!(s.screen, GameScreen::Paused);
    assert!(!s.cursor_locked);

    let resume = s.step(&esc).transition.expect("resume");
    assert!(!resume.spawn_world);
    assert!(!resume.create_laser_assets);
    assert!(resume.hide_pause_menu);
    assert_eq!(s, running);
}

#[test]
fn world_is_spawned_only_once() {
    let mut s = Session::new();
    let mut enter = input();
    enter.enter_just_pressed = true;
    assert!(s.step(&enter).transition.unwrap().spawn_world);

    let mut esc = input();
    esc.escape_just_pressed = true;
    s.step(&esc);
    let mut back = input();
    back.pressed_buttons = vec![MenuButton::BackToMenu];
    let to_menu = s.step(&back).transition.unwrap();
    assert!(to_menu.show_main_menu && to_menu.hide_pause_menu);
    assert_eq!(to_menu.cursor, CursorChange::Keep);
    assert_eq!(s.screen, GameScreen::MainMenu);
    assert!(!s.cursor_locked);

    let again = s.step(&enter).transition.unwrap();
    assert!(!again.spawn_world);
    assert!(!again.create_laser_assets);
    assert!(s.world_spawned);
}

#[test]
fn a_quiet_frame_changes_nothing() {
    let mut s = Session::new();
    let before = s;
    let out = s.step(&input());
    assert!(out.transition.is_none());
    assert_eq!(out.frame.next_screen, None);
    assert_eq!(s, before);
}
