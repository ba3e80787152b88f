//! The bookkeeping behind a small farm game.
//!
//! The player spends money on pigs, each pig grows for a fixed time, and a
//! grown pig is sold for more than it cost. The game engine owns the window,
//! the sprites and the keyboard; this crate owns the numbers.

pub mod farm;
pub mod hud;
pub mod money;
pub mod pig;

pub use farm::{pig_lifetime, spawn_pig, NewPig};
pub use hud::MoneyText;
pub use money::Money;
pub use pig::{Countdown, Pig};
