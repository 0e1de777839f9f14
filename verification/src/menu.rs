//! The main menu: what its buttons ask for and how they look.

use vstd::prelude::*;

verus! {

/// Whether the main menu is up.
#[derive(Clone, Copy, Debug, PartialEq, Eq, Hash, Structural)]
pub enum MenuState {
    Main,
    Disabled,
}

impl Default for MenuState {
    fn default() -> (state: MenuState)
        ensures
            state == MenuState::Disabled,
    {
        MenuState::Disabled
    }
}

/// What the pointer is doing to a button.
#[derive(Clone, Copy, Debug, PartialEq, Eq, Structural)]
pub enum Interaction {
    Clicked,
    Hovered,
    Idle,
}

/// What a button of the main menu is for.
#[derive(Clone, Copy, Debug, PartialEq, Eq, Structural)]
pub enum MenuButtonAction {
    Play,
    Quit,
}

/// A button whose interaction has changed in this tick.
#[derive(Clone, Copy, Debug, PartialEq, Eq, Structural)]
pub struct Press {
    pub interaction: Interaction,
    pub action: MenuButtonAction,
}

/// What the menu asks for in one tick.
#[derive(Clone, Copy, Debug, PartialEq, Eq, Structural)]
pub struct MenuOutcome {
    /// Leave the menu for the game.
    pub play: bool,
    /// End the program.
    pub quit: bool,
}

/// The four looks of a button.
#[derive(Clone, Copy, Debug, PartialEq, Eq, Structural)]
pub enum ButtonShade {
    Normal,
    Hovered,
    HoveredPressed,
    Pressed,
}

/// Whether a button for `action` is among `presses` and was clicked.
pub open spec fn clicked(presses: Seq<Press>, action: MenuButtonAction) -> bool {
    exists|i: int|
        0 <= i < presses.len() && (#[trigger] presses[i]).interaction == Interaction::Clicked
            && presses[i].action == action
}

/// The look of a button: pressed while it is clicked, and also while it is
/// the selected option and left alone; hovered looks differ for the selected
/// option; otherwise normal.
pub open spec fn shade_of(interaction: Interaction, selected: bool) -> ButtonShade {
    match (interaction, selected) {
        (Interaction::Clicked, _) => ButtonShade::Pressed,
        (Interaction::Idle, true) => ButtonShade::Pressed,
        (Interaction::Hovered, true) => ButtonShade::HoveredPressed,
        (Interaction::Hovered, false) => ButtonShade::Hovered,
        (Interaction::Idle, false) => ButtonShade::Normal,
    }
}

/// Reads the buttons whose interaction has changed: a clicked play button
/// asks for the game, a clicked quit button for the end of the program.
pub fn menu_action(presses: &Vec<Press>) -> (outcome: MenuOutcome)
    ensures
        outcome.play == clicked(presses@, MenuButtonAction::Play),
        outcome.quit == clicked(presses@, MenuButtonAction::Quit),
{
    let mut play = false;
    let mut quit = false;
    let mut i: usize = 0;
    while i < presses.len()
        invariant
            i <= presses.len(),
            play == clicked(presses@.take(i as int), MenuButtonAction::Play),
            quit == clicked(presses@.take(i as int), MenuButtonAction::Quit),
        decreases presses.len() - i,
    {
        let press = presses[i];
        proof {
            let before = presses@.take(i as int);
            let after = presses@.take(i + 1);
            assert(after[i as int] == press);
            assert forall|action: MenuButtonAction|
                clicked(after, action) == (clicked(before, action) || (press.interaction
                    == Interaction::Clicked && press.action == action)) by {
                if clicked(before, action) {
                    let j = choose|j: int|
                        0 <= j < before.len() && (#[trigger] before[j]).interaction
                            == Interaction::Clicked && before[j].action == action;
                    assert(after[j] == before[j]);
                }
                if clicked(after, action) {
                    let j = choose|j: int|
                        0 <= j < after.len() && (#[trigger] after[j]).interaction
                            == Interaction::Clicked && after[j].action == action;
                    if j < i {
                        assert(before[j] == after[j]);
                    }
                }
            }
        }
        if press.interaction == Interaction::Clicked {
            match press.action {
                MenuButtonAction::Quit => {
                    quit = true;
                },
                MenuButtonAction::Play => {
                    play = true;
                },
            }
        }
        i += 1;
    }
    assert(presses@.take(i as int) == presses@);
    MenuOutcome { play, quit }
}

/// Picks the look of a button from what the pointer is doing to it and from
/// whether it is the selected option.
pub fn button_system(interaction: Interaction, selected: bool) -> (shade: ButtonShade)
    ensures
        shade == shade_of(interaction, selected),
{
    match (interaction, selected) {
        (Interaction::Clicked, _) | (Interaction::Idle, true) => ButtonShade::Pressed,
        (Interaction::Hovered, true) => ButtonShade::HoveredPressed,
        (Interaction::Hovered, false) => ButtonShade::Hovered,
        (Interaction::Idle, false) => ButtonShade::Normal,
    }
}

} // verus!
