//! The progression engine of an idle cultivation game.
//!
//! A single cultivator advances along a spiritual and a physical track by
//! discrete increments. Amounts of qi and rate multipliers are exact decimal
//! numbers, kept as whole thousandths, so that every step is computed
//! without rounding. The state can be framed into text that is safe to keep
//! in a browser's storage and recovered from it.

pub mod codec;
pub mod cultivator;
pub mod engine;
pub mod tier;

pub use cultivator::{shown_hundredths, Cultivator, CultivatorModel};
pub use engine::{App, Loaded, Msg, Outcome, STORAGE_KEY};
pub use tier::{PhysicalCultivation, Quality, SpiritualCultivation, QI_UNIT};
