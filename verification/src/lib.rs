//! The rule-keeping core of a small arcade space game: which screen is
//! showing, what belongs to it, and how keys and pointer steer the ship.
//!
//! The engine around it draws, simulates and listens; this crate decides.
//! It is told what happened in a tick (time passed, keys held, a button
//! clicked, a ray hit the ground) and answers with what is to be done
//! (despawn these entities, put up that screen, push and twist the ship).
//!
//! Every quantity is a whole number. Angles are counted in millionths of a
//! degree, times in nanoseconds, steering gains in thousandths, and
//! positions in the units of the world, which the caller scales as finely
//! as it needs.
//!
//! - [`screens`] holds the machine that moves between splash screen, menu
//!   and game, on [`countdown`]s and button clicks ([`menu`]), and
//!   [`stage`] the record of what each screen owns.
//! - [`player`] holds the one ship there can be, and [`steering`] the law
//!   that turns a course into push and twist.
//! - [`crosshair`], [`input`] and [`control`] lead from pointer and keys to
//!   the commands of a tick and apply them in the same tick.
//! - [`camera`] keeps the camera on the ship.
//! - [`angle`] and [`point`] are the numbers all of this is counted in.

pub mod angle;
pub mod camera;
pub mod control;
pub mod countdown;
pub mod crosshair;
pub mod input;
pub mod menu;
pub mod player;
pub mod point;
pub mod screens;
pub mod stage;
pub mod steering;
