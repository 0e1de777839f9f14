//! One turn of the player's control loop.

use crate::crosshair::{resolved, Crosshair};
use crate::input::{aim_commands, move_commands, read_input, seen, KeyInput};
use crate::player::{
    applied_all, supported, unsupported, Player, PlayerControlCommand, PlayerState,
};
use crate::point::WorldPoint;
use vstd::prelude::*;

verus! {

/// The crosshair, if there is one, after a ray has or has not hit the
/// ground.
pub open spec fn resolved_at(crosshair: Option<Crosshair>, hit: Option<WorldPoint>) -> Option<
    Crosshair,
> {
    match crosshair {
        Some(c) => Some(resolved(c, hit)),
        None => None,
    }
}

/// The commands of a turn: the move that the keys ask for, then the aim at
/// the crosshair's place as this turn's ray has just set it.
pub open spec fn turn_commands(
    keys: KeyInput,
    hit: Option<WorldPoint>,
    crosshair: Option<Crosshair>,
) -> Seq<PlayerControlCommand> {
    move_commands(keys) + aim_commands(resolved_at(crosshair, hit))
}

/// What keys and crosshair give rise to, the ship can carry out: a turn
/// reads no command that calls for a warning.
pub proof fn lemma_turn_commands_supported(
    keys: KeyInput,
    hit: Option<WorldPoint>,
    crosshair: Option<Crosshair>,
)
    ensures
        unsupported(turn_commands(keys, hit, crosshair)) == Seq::<PlayerControlCommand>::empty(),
        forall|i: int|
            0 <= i < turn_commands(keys, hit, crosshair).len() ==> supported(
                #[trigger] turn_commands(keys, hit, crosshair)[i],
            ),
{
    let cmds = turn_commands(keys, hit, crosshair);
    assert forall|i: int| 0 <= i < cmds.len() implies supported(#[trigger] cmds[i]) by {
        if i < move_commands(keys).len() {
            assert(cmds[i] == move_commands(keys)[i]);
        } else {
            assert(cmds[i] == aim_commands(resolved_at(crosshair, hit))[i - move_commands(
                keys,
            ).len()]);
        }
    }
    cmds.lemma_all_neg_filter_empty(|cmd: PlayerControlCommand| !supported(cmd));
}

/// Runs one turn of the control loop, in its fixed order: what the ray
/// under the crosshair hit is taken in, then the commands are read from
/// keys and crosshair, then they are applied to the player. So a command
/// is applied in the very turn whose input gave rise to it. The commands
/// that were read and applied are returned, in their order.
pub fn control_turn(
    keys: KeyInput,
    hit: Option<WorldPoint>,
    crosshair: &mut Option<Crosshair>,
    players: &mut PlayerState,
) -> (commands: Vec<PlayerControlCommand>)
    ensures
        *final(crosshair) == seen(resolved_at(*old(crosshair), hit)),
        commands@ == turn_commands(keys, hit, *old(crosshair)),
        final(players)@ == match old(players)@ {
            Some(player) => Some(
                Player {
                    entity: player.entity,
                    body: applied_all(player.body, turn_commands(keys, hit, *old(crosshair))),
                },
            ),
            None => None,
        },
{
    match *crosshair {
        Some(c) => {
            let mut c = c;
            c.update_crosshair_world_pos(hit);
            *crosshair = Some(c);
        },
        None => {},
    }
    let commands = read_input(keys, crosshair);
    let warnings = players.handle_control_cmd(&commands);
    proof {
        lemma_turn_commands_supported(keys, hit, *old(crosshair));
        assert(warnings@.len() == 0);
    }
    commands
}

} // verus!
