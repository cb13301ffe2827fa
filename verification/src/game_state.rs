use vstd::prelude::*;

verus! {

/// The screens the game moves between.
#[derive(Clone, Copy, Debug, PartialEq, Eq, Structural)]
pub enum GameScreen {
    MainMenu,
    InGame,
    Paused,
}

impl Default for GameScreen {
    /// The game starts on the main menu.
    fn default() -> (s: Self)
        ensures
            s == GameScreen::MainMenu,
    {
        GameScreen::MainMenu
    }
}

/// The buttons of the main menu and of the pause menu.
#[derive(Clone, Copy, Debug, PartialEq, Eq, Structural)]
pub enum MenuButton {
    Play,
    ExitGame,
    Resume,
    BackToMenu,
}

/// What the player did during one frame.
pub struct FrameInput {
    /// Enter went down this frame.
    pub enter_just_pressed: bool,
    /// Escape went down this frame.
    pub escape_just_pressed: bool,
    /// The left mouse button went down this frame.
    pub fire_just_pressed: bool,
    /// The window got the focus back this frame.
    pub focus_regained: bool,
    /// The buttons that became pressed this frame, in the order they were seen.
    pub pressed_buttons: Vec<MenuButton>,
}

/// What one frame of input asks the game to do.
#[derive(Clone, Copy, Debug)]
pub struct FrameOutcome {
    /// The screen to switch to, if any.
    pub next_screen: Option<GameScreen>,
    /// The application should quit.
    pub exit_requested: bool,
    /// A laser shot should be fired from the ship.
    pub fire_laser: bool,
    /// The cursor should be hidden and locked again.
    pub recapture_cursor: bool,
}

/// The screen a single pressed button leads to, while `screen` is shown.
pub open spec fn button_target(screen: GameScreen, button: MenuButton) -> Option<GameScreen> {
    match (screen, button) {
        (GameScreen::MainMenu, MenuButton::Play) => Some(GameScreen::InGame),
        (GameScreen::Paused, MenuButton::Resume) => Some(GameScreen::InGame),
        (GameScreen::Paused, MenuButton::BackToMenu) => Some(GameScreen::MainMenu),
        _ => None,
    }
}

/// The screen the pressed buttons lead to: the last button that leads anywhere wins.
pub open spec fn buttons_target(screen: GameScreen, buttons: Seq<MenuButton>) -> Option<GameScreen>
    decreases buttons.len(),
{
    if buttons.len() == 0 {
        None
    } else {
        match button_target(screen, buttons.last()) {
            Some(t) => Some(t),
            None => buttons_target(screen, buttons.drop_last()),
        }
    }
}

/// The screen the keyboard leads to: Enter starts the game from the main menu,
/// Escape pauses a running game and resumes a paused one.
pub open spec fn key_target(screen: GameScreen, enter: bool, escape: bool) -> Option<GameScreen> {
    match screen {
        GameScreen::MainMenu => if enter { Some(GameScreen::InGame) } else { None },
        GameScreen::InGame => if escape { Some(GameScreen::Paused) } else { None },
        GameScreen::Paused => if escape { Some(GameScreen::InGame) } else { None },
    }
}

/// The screen requested during a frame: a button press overrides the keyboard.
pub open spec fn requested_screen(
    screen: GameScreen,
    enter: bool,
    escape: bool,
    buttons: Seq<MenuButton>,
) -> Option<GameScreen> {
    match buttons_target(screen, buttons) {
        Some(t) => Some(t),
        None => key_target(screen, enter, escape),
    }
}

/// The moves between screens that the game can make.
pub open spec fn allowed_move(from: GameScreen, to: GameScreen) -> bool {
    ||| from == GameScreen::MainMenu && to == GameScreen::InGame
    ||| from == GameScreen::InGame && to == GameScreen::Paused
    ||| from == GameScreen::Paused && to == GameScreen::InGame
    ||| from == GameScreen::Paused && to == GameScreen::MainMenu
}

fn button_target_exec(screen: GameScreen, button: MenuButton) -> (r: Option<GameScreen>)
    ensures
        r == button_target(screen, button),
{
    match (screen, button) {
        (GameScreen::MainMenu, MenuButton::Play) => Some(GameScreen::InGame),
        (GameScreen::Paused, MenuButton::Resume) => Some(GameScreen::InGame),
        (GameScreen::Paused, MenuButton::BackToMenu) => Some(GameScreen::MainMenu),
        _ => None,
    }
}

fn key_target_exec(screen: GameScreen, enter: bool, escape: bool) -> (r: Option<GameScreen>)
    ensures
        r == key_target(screen, enter, escape),
{
    match screen {
        GameScreen::MainMenu => if enter { Some(GameScreen::InGame) } else { None },
        GameScreen::InGame => if escape { Some(GameScreen::Paused) } else { None },
        GameScreen::Paused => if escape { Some(GameScreen::InGame) } else { None },
    }
}

/// A requested screen is always one the current screen may move to.
pub proof fn lemma_requested_screen_allowed(
    screen: GameScreen,
    enter: bool,
    escape: bool,
    buttons: Seq<MenuButton>,
)
    ensures
        requested_screen(screen, enter, escape, buttons) matches Some(to) ==> allowed_move(screen, to),
    decreases buttons.len(),
{
    if buttons.len() > 0 {
        lemma_requested_screen_allowed(screen, enter, escape, buttons.drop_last());
    }
}

/// Decides what one frame of input does while `screen` is shown.
///
/// Escape always asks the application to quit, whatever the screen, besides
/// pausing or resuming; the Exit Game button of the main menu quits as well.
pub fn decide_frame(screen: GameScreen, input: &FrameInput) -> (out: FrameOutcome)
    ensures
        out.next_screen == requested_screen(
            screen,
            input.enter_just_pressed,
            input.escape_just_pressed,
            input.pressed_buttons@,
        ),
        out.exit_requested == (input.escape_just_pressed || (screen == GameScreen::MainMenu
            && input.pressed_buttons@.contains(MenuButton::ExitGame))),
        out.fire_laser == (screen == GameScreen::InGame && input.fire_just_pressed),
        out.recapture_cursor == (screen == GameScreen::InGame && input.focus_regained),
{
    let key = key_target_exec(screen, input.enter_just_pressed, input.escape_just_pressed);
    let mut target: Option<GameScreen> = key;
    let mut exit_button = false;
    let n = input.pressed_buttons.len();
    let mut i: usize = 0;
    while i < n
        invariant
            0 <= i <= n,
            n == input.pressed_buttons@.len(),
            key == key_target(screen, input.enter_just_pressed, input.escape_just_pressed),
            target == (match buttons_target(screen, input.pressed_buttons@.take(i as int)) {
                Some(t) => Some(t),
                None => key,
            }),
            exit_button == input.pressed_buttons@.take(i as int).contains(MenuButton::ExitGame),
        decreases n - i,
    {
        let b = input.pressed_buttons[i];
        let ghost prefix = input.pressed_buttons@.take(i as int);
        let ghost next = input.pressed_buttons@.take(i + 1);
        assert(next.drop_last() =~= prefix);
        assert(next.last() == b);
        match button_target_exec(screen, b) {
            Some(t) => {
                target = Some(t);
            },
            None => {},
        }
        match b {
            MenuButton::ExitGame => {
                exit_button = true;
                assert(next[i as int] == b);
            },
            _ => {
                assert forall|j: int| 0 <= j < next.len() && next[j] == MenuButton::ExitGame implies
                    prefix.contains(MenuButton::ExitGame) by {
                    assert(j < i);
                    assert(prefix[j] == next[j]);
                }
            },
        }
        i = i + 1;
    }
    assert(input.pressed_buttons@.take(n as int) =~= input.pressed_buttons@);
    let in_main_menu = match screen {
        GameScreen::MainMenu => true,
        _ => false,
    };
    let in_game = match screen {
        GameScreen::InGame => true,
        _ => false,
    };
    FrameOutcome {
        next_screen: target,
        exit_requested: input.escape_just_pressed || (in_main_menu && exit_button),
        fire_laser: in_game && input.fire_just_pressed,
        recapture_cursor: in_game && input.focus_regained,
    }
}


/// How a screen change alters the cursor.
#[derive(Clone, Copy, Debug, PartialEq, Eq, Structural)]
pub enum CursorChange {
    Keep,
    /// Hide the cursor and lock it to the window.
    Lock,
    /// Show the cursor and let it move freely.
    Release,
}

/// How a screen change alters the projected crosshair.
#[derive(Clone, Copy, Debug, PartialEq, Eq, Structural)]
pub enum CrosshairChange {
    Keep,
    Show,
    Hide,
}

/// The work a screen change asks of the application.
#[derive(Clone, Copy, Debug)]
pub struct TransitionPlan {
    pub hide_main_menu: bool,
    pub hide_pause_menu: bool,
    pub show_main_menu: bool,
    pub show_pause_menu: bool,
    pub cursor: CursorChange,
    pub crosshair: CrosshairChange,
    /// Build the mesh and material shared by all laser shots.
    pub create_laser_assets: bool,
    /// Spawn the light, the starfield, the ship, the test cubes, the
    /// follow camera and the crosshair.
    pub spawn_world: bool,
}

/// Everything a frame asks of the application, screen change included.
#[derive(Clone, Copy, Debug)]
pub struct StepOutcome {
    pub frame: FrameOutcome,
    pub transition: Option<TransitionPlan>,
}

/// What the game keeps across frames about its screens.
#[derive(Clone, Copy, Debug, PartialEq, Eq, Structural)]
pub struct Session {
    pub screen: GameScreen,
    pub world_spawned: bool,
    pub laser_assets_ready: bool,
    /// The cursor is hidden and locked to the window.
    pub cursor_locked: bool,
    pub crosshair_visible: bool,
    pub main_menu_shown: bool,
    pub pause_menu_shown: bool,
}

impl Session {
    /// The consistency of a session: each menu is shown exactly on its own
    /// screen, the cursor is locked and the crosshair shown exactly while the
    /// game runs, and a game that runs or is paused has its world.
    pub open spec fn wf(self) -> bool {
        &&& self.main_menu_shown <==> self.screen == GameScreen::MainMenu
        &&& self.pause_menu_shown <==> self.screen == GameScreen::Paused
        &&& self.cursor_locked <==> self.screen == GameScreen::InGame
        &&& self.crosshair_visible <==> self.screen == GameScreen::InGame
        &&& self.world_spawned == self.laser_assets_ready
        &&& self.screen != GameScreen::MainMenu ==> self.world_spawned
    }

    /// The plan of a move from this session's screen to `to`.
    pub open spec fn transition_plan(self, to: GameScreen) -> TransitionPlan {
        TransitionPlan {
            hide_main_menu: self.screen == GameScreen::MainMenu,
            hide_pause_menu: self.screen == GameScreen::Paused,
            show_main_menu: to == GameScreen::MainMenu,
            show_pause_menu: to == GameScreen::Paused,
            cursor: match to {
                GameScreen::InGame => CursorChange::Lock,
                GameScreen::Paused => CursorChange::Release,
                GameScreen::MainMenu => CursorChange::Keep,
            },
            crosshair: match to {
                GameScreen::InGame => CrosshairChange::Show,
                GameScreen::Paused => CrosshairChange::Hide,
                GameScreen::MainMenu => CrosshairChange::Keep,
            },
            create_laser_assets: to == GameScreen::InGame && !self.laser_assets_ready,
            spawn_world: to == GameScreen::InGame && !self.world_spawned,
        }
    }

    /// The session after carrying out the plan of a move to `to`.
    pub open spec fn after_transition(self, to: GameScreen) -> Session {
        let plan = self.transition_plan(to);
        Session {
            screen: to,
            world_spawned: self.world_spawned || plan.spawn_world,
            laser_assets_ready: self.laser_assets_ready || plan.create_laser_assets,
            cursor_locked: match plan.cursor {
                CursorChange::Lock => true,
                CursorChange::Release => false,
                CursorChange::Keep => self.cursor_locked,
            },
            crosshair_visible: match plan.crosshair {
                CrosshairChange::Show => true,
                CrosshairChange::Hide => false,
                CrosshairChange::Keep => self.crosshair_visible,
            },
            main_menu_shown: if plan.show_main_menu {
                true
            } else if plan.hide_main_menu {
                false
            } else {
                self.main_menu_shown
            },
            pause_menu_shown: if plan.show_pause_menu {
                true
            } else if plan.hide_pause_menu {
                false
            } else {
                self.pause_menu_shown
            },
        }
    }

    /// The session at startup: the main menu is shown and the cursor is free.
    pub fn new() -> (s: Session)
        ensures
            s.wf(),
            s.screen == GameScreen::MainMenu,
            s.main_menu_shown,
            !s.pause_menu_shown,
            !s.cursor_locked,
            !s.crosshair_visible,
            !s.world_spawned,
            !s.laser_assets_ready,
    {
        Session {
            screen: GameScreen::MainMenu,
            world_spawned: false,
            laser_assets_ready: false,
            cursor_locked: false,
            crosshair_visible: false,
            main_menu_shown: true,
            pause_menu_shown: false,
        }
    }

    /// Moves to screen `to` and returns what the application must do for it.
    pub fn transition_to(&mut self, to: GameScreen) -> (plan: TransitionPlan)
        requires
            old(self).wf(),
            allowed_move(old(self).screen, to),
        ensures
            plan == old(self).transition_plan(to),
            *final(self) == old(self).after_transition(to),
            final(self).wf(),
    {
        let from = self.screen;
        let leaving_main = match from {
            GameScreen::MainMenu => true,
            _ => false,
        };
        let leaving_pause = match from {
            GameScreen::Paused => true,
            _ => false,
        };
        let (show_main, show_pause, cursor, crosshair, entering_game) = match to {
            GameScreen::MainMenu => (true, false, CursorChange::Keep, CrosshairChange::Keep, false),
            GameScreen::InGame => (false, false, CursorChange::Lock, CrosshairChange::Show, true),
            GameScreen::Paused => (false, true, CursorChange::Release, CrosshairChange::Hide, false),
        };
        let plan = TransitionPlan {
            hide_main_menu: leaving_main,
            hide_pause_menu: leaving_pause,
            show_main_menu: show_main,
            show_pause_menu: show_pause,
            cursor,
            crosshair,
            create_laser_assets: entering_game && !self.laser_assets_ready,
            spawn_world: entering_game && !self.world_spawned,
        };
        self.screen = to;
        if plan.spawn_world {
            self.world_spawned = true;
        }
        if plan.create_laser_assets {
            self.laser_assets_ready = true;
        }
        match cursor {
            CursorChange::Lock => { self.cursor_locked = true; },
            CursorChange::Release => { self.cursor_locked = false; },
            CursorChange::Keep => {},
        }
        match crosshair {
            CrosshairChange::Show => { self.crosshair_visible = true; },
            CrosshairChange::Hide => { self.crosshair_visible = false; },
            CrosshairChange::Keep => {},
        }
        if show_main {
            self.main_menu_shown = true;
        } else if leaving_main {
            self.main_menu_shown = false;
        }
        if show_pause {
            self.pause_menu_shown = true;
        } else if leaving_pause {
            self.pause_menu_shown = false;
        }
        plan
    }

    /// Runs one frame: decides what the input asks for on the current
    /// screen, then carries out the requested screen change, if any.
    pub fn step(&mut self, input: &FrameInput) -> (out: StepOutcome)
        requires
            old(self).wf(),
        ensures
            final(self).wf(),
            out.frame.next_screen == requested_screen(
                old(self).screen,
                input.enter_just_pressed,
                input.escape_just_pressed,
                input.pressed_buttons@,
            ),
            out.frame.exit_requested == (input.escape_just_pressed || (old(self).screen
                == GameScreen::MainMenu && input.pressed_buttons@.contains(MenuButton::ExitGame))),
            out.frame.fire_laser == (old(self).screen == GameScreen::InGame
                && input.fire_just_pressed),
            out.frame.recapture_cursor == (old(self).screen == GameScreen::InGame
                && input.focus_regained),
            match out.frame.next_screen {
                Some(to) => {
                    &&& allowed_move(old(self).screen, to)
                    &&& out.transition == Some(old(self).transition_plan(to))
                    &&& *final(self) == old(self).after_transition(to)
                },
                None => out.transition.is_none() && *final(self) == *old(self),
            },
    {
        let frame = decide_frame(self.screen, input);
        proof {
            lemma_requested_screen_allowed(
                old(self).screen,
                input.enter_just_pressed,
                input.escape_just_pressed,
                input.pressed_buttons@,
            );
        }
        let transition = match frame.next_screen {
            Some(to) => Some(self.transition_to(to)),
            None => None,
        };
        StepOutcome { frame, transition }
    }
}

/// Pausing a running game and resuming it gives back the same session, and
/// resuming neither spawns the world again nor rebuilds the laser assets.
pub proof fn law_pause_then_resume(s: Session)
    requires
        s.wf(),
        s.screen == GameScreen::InGame,
    ensures
        s.after_transition(GameScreen::Paused).after_transition(GameScreen::InGame) == s,
        !s.after_transition(GameScreen::Paused).transition_plan(GameScreen::InGame).spawn_world,
        !s.after_transition(GameScreen::Paused).transition_plan(
            GameScreen::InGame,
        ).create_laser_assets,
{
}

/// The world is spawned at most once: a move never takes it away, a move
/// from a session that has it never spawns it again, and entering the game
/// always leaves it spawned.
pub proof fn law_world_spawned_once(s: Session, to: GameScreen)
    requires
        s.wf(),
        allowed_move(s.screen, to),
    ensures
        s.world_spawned ==> s.after_transition(to).world_spawned,
        s.world_spawned ==> !s.transition_plan(to).spawn_world,
        s.laser_assets_ready ==> !s.transition_plan(to).create_laser_assets,
        to == GameScreen::InGame ==> s.after_transition(to).world_spawned,
{
}

/// A frame with neither Enter nor Escape and no button requests no screen
/// change, on any screen.
pub proof fn law_quiet_frame_requests_nothing(screen: GameScreen)
    ensures
        requested_screen(screen, false, false, Seq::empty()) == None::<GameScreen>,
{
}

/// What the keys ask for when no button is pressed: Enter starts the game
/// from the main menu and does nothing elsewhere; Escape pauses a running
/// game, resumes a paused one and changes nothing on the main menu.
pub proof fn law_keys_without_buttons(enter: bool, escape: bool)
    ensures
        requested_screen(GameScreen::MainMenu, enter, escape, Seq::empty()) == (if enter {
            Some(GameScreen::InGame)
        } else {
            None
        }),
        requested_screen(GameScreen::InGame, enter, escape, Seq::empty()) == (if escape {
            Some(GameScreen::Paused)
        } else {
            None
        }),
        requested_screen(GameScreen::Paused, enter, escape, Seq::empty()) == (if escape {
            Some(GameScreen::InGame)
        } else {
            None
        }),
{
}

/// Only Escape pauses: whatever the buttons, a frame without Escape never
/// asks for the pause screen, and a pause is only ever asked while the game
/// runs.
pub proof fn law_only_escape_pauses(
    screen: GameScreen,
    enter: bool,
    escape: bool,
    buttons: Seq<MenuButton>,
)
    ensures
        requested_screen(screen, enter, escape, buttons) == Some(GameScreen::Paused) ==> escape
            && screen == GameScreen::InGame,
    decreases buttons.len(),
{
    if buttons.len() > 0 {
        law_only_escape_pauses(screen, enter, escape, buttons.drop_last());
    }
}

/// The last button that means something on the current screen decides the
/// move, whatever the keys: Play starts the game from the main menu, Resume
/// goes back to the game and Back To Menu to the main menu from the pause
/// screen.
pub proof fn law_last_button_decides(
    screen: GameScreen,
    enter: bool,
    escape: bool,
    buttons: Seq<MenuButton>,
    last: MenuButton,
)
    ensures
        screen == GameScreen::MainMenu && last == MenuButton::Play ==> requested_screen(
            screen,
            enter,
            escape,
            buttons.push(last),
        ) == Some(GameScreen::InGame),
        screen == GameScreen::Paused && last == MenuButton::Resume ==> requested_screen(
            screen,
            enter,
            escape,
            buttons.push(last),
        ) == Some(GameScreen::InGame),
        screen == GameScreen::Paused && last == MenuButton::BackToMenu ==> requested_screen(
            screen,
            enter,
            escape,
            buttons.push(last),
        ) == Some(GameScreen::MainMenu),
{
    assert(buttons.push(last).last() == last);
}

/// Buttons that mean nothing on a screen change nothing: on the main menu
/// only Play moves, on the pause screen only Resume and Back To Menu, and
/// while the game runs no button moves at all.
pub proof fn law_foreign_buttons_are_ignored(
    screen: GameScreen,
    enter: bool,
    escape: bool,
    buttons: Seq<MenuButton>,
    last: MenuButton,
)
    ensures
        screen == GameScreen::MainMenu && last != MenuButton::Play ==> requested_screen(
            screen,
            enter,
            escape,
            buttons.push(last),
        ) == requested_screen(screen, enter, escape, buttons),
        screen == GameScreen::Paused && (last == MenuButton::Play || last == MenuButton::ExitGame)
            ==> requested_screen(screen, enter, escape, buttons.push(last)) == requested_screen(
            screen,
            enter,
            escape,
            buttons,
        ),
        screen == GameScreen::InGame ==> requested_screen(screen, enter, escape, buttons) == (if escape {
            Some(GameScreen::Paused)
        } else {
            None
        }),
    decreases buttons.len(),
{
    assert(buttons.push(last).last() == last);
    assert(buttons.push(last).drop_last() =~= buttons);
    if buttons.len() > 0 {
        law_foreign_buttons_are_ignored(
            screen,
            enter,
            escape,
            buttons.drop_last(),
            buttons.last(),
        );
    }
}

/// What each move must do: leaving a menu screen hides its menu and entering
/// one shows it; entering the game always locks the cursor and shows the
/// crosshair, and pausing always frees the cursor and hides the crosshair;
/// going back to the main menu leaves cursor and crosshair as they were.
pub proof fn law_moves_plan(s: Session, to: GameScreen)
    requires
        allowed_move(s.screen, to),
    ensures
        s.transition_plan(to).hide_main_menu == (s.screen == GameScreen::MainMenu),
        s.transition_plan(to).hide_pause_menu == (s.screen == GameScreen::Paused),
        s.transition_plan(to).show_main_menu == (to == GameScreen::MainMenu),
        s.transition_plan(to).show_pause_menu == (to == GameScreen::Paused),
        to == GameScreen::InGame ==> s.transition_plan(to).cursor == CursorChange::Lock
            && s.transition_plan(to).crosshair == CrosshairChange::Show,
        to == GameScreen::Paused ==> s.transition_plan(to).cursor == CursorChange::Release
            && s.transition_plan(to).crosshair == CrosshairChange::Hide,
        to == GameScreen::MainMenu ==> s.transition_plan(to).cursor == CursorChange::Keep
            && s.transition_plan(to).crosshair == CrosshairChange::Keep,
        s.transition_plan(to).spawn_world == (to == GameScreen::InGame && !s.world_spawned),
        s.transition_plan(to).create_laser_assets == (to == GameScreen::InGame
            && !s.laser_assets_ready),
{
}

/// The session after a move is what carrying out the move's plan makes of
/// the session before it: a lock locks, a release frees, a keep keeps; a
/// show shows, a hide hides; shown menus are those shown and not hidden.
pub proof fn law_after_follows_plan(s: Session, to: GameScreen)
    ensures
        ({
            let plan = s.transition_plan(to);
            let after = s.after_transition(to);
            &&& after.screen == to
            &&& after.cursor_locked == match plan.cursor {
                CursorChange::Lock => true,
                CursorChange::Release => false,
                CursorChange::Keep => s.cursor_locked,
            }
            &&& after.crosshair_visible == match plan.crosshair {
                CrosshairChange::Show => true,
                CrosshairChange::Hide => false,
                CrosshairChange::Keep => s.crosshair_visible,
            }
            &&& after.main_menu_shown == (plan.show_main_menu || (s.main_menu_shown
                && !plan.hide_main_menu))
            &&& after.pause_menu_shown == (plan.show_pause_menu || (s.pause_menu_shown
                && !plan.hide_pause_menu))
            &&& after.world_spawned == (s.world_spawned || plan.spawn_world)
            &&& after.laser_assets_ready == (s.laser_assets_ready || plan.create_laser_assets)
        }),
{
}

/// Resuming from the pause screen locks the cursor again, shows the
/// crosshair again and hides the pause menu; starting the game again from
/// the main menu after playing hides the main menu.
pub proof fn law_reentering_the_game(s: Session)
    requires
        s.wf(),
        s.screen != GameScreen::InGame,
    ensures
        s.transition_plan(GameScreen::InGame).cursor == CursorChange::Lock,
        s.transition_plan(GameScreen::InGame).crosshair == CrosshairChange::Show,
        s.after_transition(GameScreen::InGame).cursor_locked,
        s.after_transition(GameScreen::InGame).crosshair_visible,
        !s.after_transition(GameScreen::InGame).main_menu_shown,
        !s.after_transition(GameScreen::InGame).pause_menu_shown,
        s.screen == GameScreen::MainMenu ==> s.transition_plan(GameScreen::InGame).hide_main_menu,
        s.screen == GameScreen::Paused ==> s.transition_plan(GameScreen::InGame).hide_pause_menu,
{
}

/// Each move of `moves` is allowed from the screen the previous ones led to.
pub open spec fn allowed_path(s: Session, moves: Seq<GameScreen>) -> bool
    decreases moves.len(),
{
    if moves.len() == 0 {
        true
    } else {
        allowed_move(s.screen, moves[0]) && allowed_path(
            s.after_transition(moves[0]),
            moves.drop_first(),
        )
    }
}

/// The session after making the moves of `moves` in order.
pub open spec fn run(s: Session, moves: Seq<GameScreen>) -> Session
    decreases moves.len(),
{
    if moves.len() == 0 {
        s
    } else {
        run(s.after_transition(moves[0]), moves.drop_first())
    }
}

/// How many of the moves of `moves` spawn the world.
pub open spec fn world_spawns(s: Session, moves: Seq<GameScreen>) -> nat
    decreases moves.len(),
{
    if moves.len() == 0 {
        0
    } else {
        (if s.transition_plan(moves[0]).spawn_world {
            1nat
        } else {
            0nat
        }) + world_spawns(s.after_transition(moves[0]), moves.drop_first())
    }
}

/// How many of the moves of `moves` build the laser assets.
pub open spec fn laser_asset_builds(s: Session, moves: Seq<GameScreen>) -> nat
    decreases moves.len(),
{
    if moves.len() == 0 {
        0
    } else {
        (if s.transition_plan(moves[0]).create_laser_assets {
            1nat
        } else {
            0nat
        }) + laser_asset_builds(s.after_transition(moves[0]), moves.drop_first())
    }
}

/// Over any sequence of allowed moves the world is spawned, and the laser
/// assets are built, at most once, and not at all if they already exist;
/// the session stays consistent all along.
pub proof fn law_spawned_at_most_once_over_any_run(s: Session, moves: Seq<GameScreen>)
    requires
        s.wf(),
        allowed_path(s, moves),
    ensures
        world_spawns(s, moves) <= 1,
        s.world_spawned ==> world_spawns(s, moves) == 0,
        laser_asset_builds(s, moves) <= 1,
        s.laser_assets_ready ==> laser_asset_builds(s, moves) == 0,
        run(s, moves).wf(),
    decreases moves.len(),
{
    if moves.len() > 0 {
        let next = s.after_transition(moves[0]);
        law_spawned_at_most_once_over_any_run(next, moves.drop_first());
    }
}

/// Every allowed move keeps a session consistent: in particular the cursor
/// stays locked exactly while the game runs.
pub proof fn law_moves_keep_session_consistent(s: Session, to: GameScreen)
    requires
        s.wf(),
        allowed_move(s.screen, to),
    ensures
        s.after_transition(to).wf(),
        s.after_transition(to).cursor_locked <==> to == GameScreen::InGame,
{
}

} // verus!
