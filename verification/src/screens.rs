//! The screens of the program and the machine that moves between them.

use crate::countdown::{fires, ticked, Countdown, CountdownView};
use crate::menu::{MenuOutcome, MenuState};
use crate::stage::{despawn_screen, handles_of, others, AppState, ScreenEntity, Stage};
use bevy::ecs::entity::Entity;
use vstd::prelude::*;

verus! {

/// How long the splash screen shows: three seconds, in nanoseconds.
pub const SPLASH_NANOS: u64 = 3_000_000_000;

/// How long a game lasts: five seconds, in nanoseconds.
pub const GAME_NANOS: u64 = 5_000_000_000;

/// A screen that shows for a set time and then makes way for the next.
#[derive(Debug)]
pub struct SplashPlugin<T> {
    /// The state in which the screen shows.
    pub splash_state: T,
    /// The state that follows when the time is up.
    pub next_state: T,
}

impl<T: Copy> SplashPlugin<T> {
    /// A screen that shows in `splash_state` and leads to `next_state`.
    pub fn new(splash_state: T, next_state: T) -> (plugin: Self)
        ensures
            plugin.splash_state == splash_state,
            plugin.next_state == next_state,
    {
        SplashPlugin { splash_state, next_state }
    }

    /// Counts the screen's time down by one tick of `delta_nanos`
    /// nanoseconds. The tick that completes the countdown asks for the next
    /// state; no other tick does, before or after.
    pub fn countdown(&self, timer: &mut Countdown, delta_nanos: u64) -> (next: Option<T>)
        ensures
            final(timer)@ == ticked(old(timer)@, delta_nanos as nat),
            next == if fires(old(timer)@, delta_nanos as nat) {
                Some(self.next_state)
            } else {
                None
            },
    {
        let was_finished = timer.finished();
        let is_finished = timer.tick(delta_nanos);
        if is_finished && !was_finished {
            Some(self.next_state)
        } else {
            None
        }
    }
}

/// The things that the screens put up.
#[derive(Clone, Copy, Debug, PartialEq, Eq, Structural)]
pub enum Prop {
    /// The picture of the splash screen.
    SplashLogo,
    /// The camera of the menu.
    MenuCamera,
    /// The ship that the menu shows.
    MenuShip,
    /// The sky around it.
    MenuSkybox,
    /// The title and the buttons of the menu.
    MenuPanel,
    /// The camera of the game.
    GameCamera,
    /// The ground of the game.
    GameGround,
    /// The cube that stands on the ground.
    GameCube,
}

/// The screen that owns a prop: the one that puts it up, and that takes it
/// down again when it is left.
pub open spec fn owner_of(prop: Prop) -> AppState {
    match prop {
        Prop::SplashLogo => AppState::Splash,
        Prop::MenuCamera => AppState::Menu,
        Prop::MenuShip => AppState::Menu,
        Prop::MenuSkybox => AppState::Menu,
        Prop::MenuPanel => AppState::Menu,
        Prop::GameCamera => AppState::Game,
        Prop::GameGround => AppState::Game,
        Prop::GameCube => AppState::Game,
    }
}

/// What a screen puts up when it is entered, in the order of spawning.
pub open spec fn props_of(state: AppState) -> Seq<Prop> {
    match state {
        AppState::Splash => seq![Prop::SplashLogo],
        AppState::Menu => seq![Prop::MenuCamera, Prop::MenuShip, Prop::MenuSkybox, Prop::MenuPanel],
        AppState::Game => seq![Prop::GameCamera, Prop::GameGround, Prop::GameCube],
    }
}

/// The countdown that a screen starts when it is entered: the splash
/// screen's and the game's; the menu waits for a button.
pub open spec fn timer_of(state: AppState) -> Option<CountdownView> {
    match state {
        AppState::Splash => Some(
            CountdownView { elapsed: 0, duration: SPLASH_NANOS as nat, finished: false },
        ),
        AppState::Game => Some(
            CountdownView { elapsed: 0, duration: GAME_NANOS as nat, finished: false },
        ),
        AppState::Menu => None,
    }
}

/// Whether the main menu is up in a state.
pub open spec fn menu_of(state: AppState) -> MenuState {
    if state == AppState::Menu {
        MenuState::Main
    } else {
        MenuState::Disabled
    }
}

/// What the machine is.
pub struct MachineView {
    /// The screen that is showing.
    pub state: AppState,
    pub menu: MenuState,
    /// The countdown of the screen, if it has one.
    pub countdown: Option<CountdownView>,
    /// The entities that the screen owns.
    pub stage: Seq<ScreenEntity>,
}

/// What holds of the machine at all times: the screen that is showing owns
/// everything on stage, the menu is up exactly in the menu's state, and the
/// screen's countdown is the one it started on entering and has not
/// completed.
pub open spec fn well_formed(m: MachineView) -> bool {
    &&& forall|i: int| 0 <= i < m.stage.len() ==> (#[trigger] m.stage[i]).owner == m.state
    &&& m.menu == menu_of(m.state)
    &&& m.countdown is Some == timer_of(m.state) is Some
    &&& m.countdown matches Some(c) ==> c.duration == timer_of(m.state)->0.duration && !c.finished
}

/// The machine as it is on entering `state` with `stage` left on stage.
pub open spec fn entered(state: AppState, stage: Seq<ScreenEntity>) -> MachineView {
    MachineView { state, menu: menu_of(state), countdown: timer_of(state), stage }
}

/// The state that a tick leads to, if it leads away at all. The menu leads
/// to the game when play is asked for. The splash screen and the game lead
/// to the menu at the tick that completes their countdown.
pub open spec fn next_state(m: MachineView, delta: nat, menu: MenuOutcome) -> Option<AppState> {
    match m.state {
        AppState::Menu => if menu.play {
            Some(AppState::Game)
        } else {
            None
        },
        _ => match m.countdown {
            Some(c) if fires(c, delta) => Some(AppState::Menu),
            _ => None,
        },
    }
}

/// The machine after a tick. A tick that leads away leaves the state: all
/// that the state owns goes off stage, and then the next state is entered.
/// Any other tick only counts time.
pub open spec fn stepped(m: MachineView, delta: nat, menu: MenuOutcome) -> MachineView {
    match next_state(m, delta, menu) {
        Some(to) => entered(to, others(m.stage, m.state)),
        None => MachineView {
            countdown: match m.countdown {
                Some(c) => Some(ticked(c, delta)),
                None => None,
            },
            ..m
        },
    }
}

/// A change of state.
pub struct Transition {
    /// The state that was left.
    pub from: AppState,
    /// The state that was entered.
    pub to: AppState,
    /// The entities that the state left behind, oldest first. They are off
    /// stage already; the engine is to destroy them before it spawns
    /// anything for the state entered.
    pub despawned: Vec<Entity>,
    /// What the state entered puts up, in the order of spawning. The state
    /// owns all of it: each entity is to be registered once it is spawned.
    pub spawn: Vec<Prop>,
}

/// What a tick came to.
pub struct Step {
    /// Whether the program is to end.
    pub quit: bool,
    /// The change of state that the tick brought, if any.
    pub transition: Option<Transition>,
}

/// The machine: the state that is showing, its countdown, and what it owns.
pub struct AppStateMachine {
    state: AppState,
    menu: MenuState,
    countdown: Option<Countdown>,
    stage: Stage,
}

impl View for AppStateMachine {
    type V = MachineView;

    closed spec fn view(&self) -> MachineView {
        MachineView {
            state: self.state,
            menu: self.menu,
            countdown: match self.countdown {
                Some(c) => Some(c@),
                None => None,
            },
            stage: self.stage@,
        }
    }
}

/// The countdown that a screen starts when it is entered.
fn start_timer(state: AppState) -> (countdown: Option<Countdown>)
    ensures
        match countdown {
            Some(c) => Some(c@),
            None => None,
        } == timer_of(state),
{
    match state {
        AppState::Splash => Some(Countdown::new(SPLASH_NANOS)),
        AppState::Game => Some(Countdown::new(GAME_NANOS)),
        AppState::Menu => None,
    }
}

/// What a screen puts up when it is entered, in the order of spawning.
pub fn screen_props(state: AppState) -> (props: Vec<Prop>)
    ensures
        props@ == props_of(state),
{
    match state {
        AppState::Splash => vec![Prop::SplashLogo],
        AppState::Menu => vec![
            Prop::MenuCamera,
            Prop::MenuShip,
            Prop::MenuSkybox,
            Prop::MenuPanel,
        ],
        AppState::Game => vec![Prop::GameCamera, Prop::GameGround, Prop::GameCube],
    }
}

/// The screen that owns a prop.
pub fn prop_owner(prop: Prop) -> (owner: AppState)
    ensures
        owner == owner_of(prop),
{
    match prop {
        Prop::SplashLogo => AppState::Splash,
        Prop::MenuCamera | Prop::MenuShip | Prop::MenuSkybox | Prop::MenuPanel => AppState::Menu,
        Prop::GameCamera | Prop::GameGround | Prop::GameCube => AppState::Game,
    }
}

/// All that a screen puts up is its own, and every prop is put up by the
/// screen that owns it: nothing that a screen shows outlives the screen.
pub proof fn lemma_props_are_owned(state: AppState)
    ensures
        forall|i: int|
            0 <= i < props_of(state).len() ==> owner_of(#[trigger] props_of(state)[i]) == state,
        forall|prop: Prop| props_of(#[trigger] owner_of(prop)).contains(prop),
{
    assert forall|prop: Prop| props_of(#[trigger] owner_of(prop)).contains(prop) by {
        let props = props_of(owner_of(prop));
        match prop {
            Prop::SplashLogo => assert(props[0] == prop),
            Prop::MenuCamera => assert(props[0] == prop),
            Prop::MenuShip => assert(props[1] == prop),
            Prop::MenuSkybox => assert(props[2] == prop),
            Prop::MenuPanel => assert(props[3] == prop),
            Prop::GameCamera => assert(props[0] == prop),
            Prop::GameGround => assert(props[1] == prop),
            Prop::GameCube => assert(props[2] == prop),
        }
    }
}

impl AppStateMachine {
    #[verifier::type_invariant]
    spec fn sound(self) -> bool {
        well_formed(self@)
    }

    /// A machine that has just entered `initial`, with an empty stage.
    pub fn new(initial: AppState) -> (machine: AppStateMachine)
        ensures
            machine@ == entered(initial, Seq::empty()),
            well_formed(machine@),
    {
        let menu = if initial == AppState::Menu {
            MenuState::Main
        } else {
            MenuState::Disabled
        };
        AppStateMachine { state: initial, menu, countdown: start_timer(initial), stage: Stage::new() }
    }

    /// The state that is showing.
    pub fn state(&self) -> (state: AppState)
        ensures
            state == self@.state,
    {
        self.state
    }

    /// Whether the main menu is up.
    pub fn menu_state(&self) -> (menu: MenuState)
        ensures
            menu == self@.menu,
    {
        self.menu
    }

    /// How many entities the showing state owns.
    pub fn staged(&self) -> (n: usize)
        ensures
            n == self@.stage.len(),
    {
        self.stage.len()
    }

    /// Records that `entity` was spawned for the state that is showing,
    /// which owns it from now on.
    pub fn register(&mut self, entity: Entity)
        ensures
            final(self)@ == (MachineView {
                stage: old(self)@.stage.push(
                    ScreenEntity { entity, owner: old(self)@.state },
                ),
                ..old(self)@
            }),
            well_formed(old(self)@),
            well_formed(final(self)@),
    {
        proof {
            use_type_invariant(&*self);
        }
        // The stage is worked on outside the machine, which holds an empty
        // one meanwhile.
        let mut stage = Stage::new();
        std::mem::swap(&mut stage, &mut self.stage);
        stage.spawn(entity, self.state);
        self.stage = stage;
    }

    /// Advances the machine by one tick of `delta_nanos` nanoseconds, in
    /// which the menu asked for `menu`. The tick brings at most one change
    /// of state. The menu is heard only while it is up.
    pub fn update(&mut self, delta_nanos: u64, menu: MenuOutcome) -> (step: Step)
        ensures
            final(self)@ == stepped(old(self)@, delta_nanos as nat, menu),
            step.quit == (old(self)@.state == AppState::Menu && menu.quit),
            match next_state(old(self)@, delta_nanos as nat, menu) {
                Some(to) => step.transition matches Some(t) && t.from == old(self)@.state && t.to
                    == to && t.despawned@ == handles_of(old(self)@.stage, old(self)@.state)
                    && t.spawn@ == props_of(to),
                None => step.transition is None,
            },
            well_formed(old(self)@),
            well_formed(final(self)@),
    {
        proof {
            use_type_invariant(&*self);
        }
        let from = self.state;
        let (quit, next) = match from {
            AppState::Menu => (
                menu.quit,
                if menu.play {
                    Some(AppState::Game)
                } else {
                    None
                },
            ),
            _ => {
                // The countdown ticks outside the machine, which holds a
                // fresh one meanwhile.
                let mut countdown = start_timer(from);
                std::mem::swap(&mut countdown, &mut self.countdown);
                let next = match &mut countdown {
                    Some(timer) => SplashPlugin::new(from, AppState::Menu).countdown(
                        timer,
                        delta_nanos,
                    ),
                    None => None,
                };
                if next.is_none() {
                    self.countdown = countdown;
                }
                (false, next)
            },
        };
        match next {
            Some(to) => {
                let mut stage = Stage::new();
                std::mem::swap(&mut stage, &mut self.stage);
                let despawned = despawn_screen(&mut stage, from);
                proof {
                    lemma_others_empty(old(self)@.stage, from);
                }
                let menu_state = if to == AppState::Menu {
                    MenuState::Main
                } else {
                    MenuState::Disabled
                };
                *self = AppStateMachine {
                    state: to,
                    menu: menu_state,
                    countdown: start_timer(to),
                    stage,
                };
                let spawn = screen_props(to);
                Step { quit, transition: Some(Transition { from, to, despawned, spawn }) }
            },
            None => Step { quit, transition: None },
        }
    }
}

/// Where one screen owns all that is on stage, taking away what it owns
/// leaves nothing, and what is taken away is everything.
pub proof fn lemma_others_empty(stage: Seq<ScreenEntity>, owner: AppState)
    requires
        forall|i: int| 0 <= i < stage.len() ==> (#[trigger] stage[i]).owner == owner,
    ensures
        others(stage, owner) == Seq::<ScreenEntity>::empty(),
        handles_of(stage, owner) == stage.map_values(|e: ScreenEntity| e.entity),
    decreases stage.len(),
{
    reveal(Seq::filter);
    if stage.len() > 0 {
        lemma_others_empty(stage.drop_last(), owner);
        assert(stage.filter(|e: ScreenEntity| e.owner == owner) == stage.drop_last().filter(
            |e: ScreenEntity| e.owner == owner,
        ).push(stage.last()));
        assert(stage.map_values(|e: ScreenEntity| e.entity) == stage.drop_last().map_values(
            |e: ScreenEntity| e.entity,
        ).push(stage.last().entity));
    }
}

/// Leaving comes before entering. A tick that changes the state takes
/// every entity that the state left owns off stage and hands every one of
/// them out for destruction; the state entered finds the stage empty, so
/// nothing of its own is there before that, and all that it then puts up is
/// its own.
pub proof fn lemma_exit_before_enter(m: MachineView, delta: nat, menu: MenuOutcome)
    requires
        well_formed(m),
        next_state(m, delta, menu) is Some,
    ensures
        stepped(m, delta, menu).state == next_state(m, delta, menu)->0,
        stepped(m, delta, menu).stage.len() == 0,
        handles_of(m.stage, m.state).len() == m.stage.len(),
        forall|i: int|
            0 <= i < m.stage.len() ==> handles_of(m.stage, m.state)[i] == (#[trigger] m.stage[i]).entity,
        well_formed(stepped(m, delta, menu)),
        forall|i: int|
            0 <= i < props_of(next_state(m, delta, menu)->0).len() ==> owner_of(
                #[trigger] props_of(next_state(m, delta, menu)->0)[i],
            ) == stepped(m, delta, menu).state,
{
    lemma_others_empty(m.stage, m.state);
    lemma_props_are_owned(next_state(m, delta, menu)->0);
}

/// Every tick keeps the machine as it should be, and changes the state only
/// along the three ways there are: from the splash screen and from the game
/// to the menu, and from the menu to the game.
pub proof fn lemma_step_keeps_form(m: MachineView, delta: nat, menu: MenuOutcome)
    requires
        well_formed(m),
    ensures
        well_formed(stepped(m, delta, menu)),
        next_state(m, delta, menu) matches Some(to) ==> to != m.state && (to == AppState::Menu
            || m.state == AppState::Menu),
        next_state(m, delta, menu) is None ==> stepped(m, delta, menu).state == m.state
            && stepped(m, delta, menu).stage == m.stage,
{
    if next_state(m, delta, menu) is Some {
        lemma_exit_before_enter(m, delta, menu);
    }
}

/// A countdown that completes changes the state once. The tick that
/// completes it leads to the menu, and there no tick leads on by the clock:
/// only play does. Short of that tick the state stays.
pub proof fn lemma_countdown_leads_on_once(
    m: MachineView,
    first: nat,
    second: nat,
    menu: MenuOutcome,
)
    requires
        well_formed(m),
        m.state != AppState::Menu,
    ensures
        next_state(m, first, menu) is Some <==> fires(m.countdown->0, first),
        fires(m.countdown->0, first) ==> stepped(m, first, menu).state == AppState::Menu
            && next_state(
            stepped(m, first, menu),
            second,
            MenuOutcome { play: false, quit: menu.quit },
        ) is None,
{
}

} // verus!
