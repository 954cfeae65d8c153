//! US keyboard layout emulation on a JIS keyboard: the key tables, the
//! modifier bookkeeping and the event rewriting, verified with Verus.

pub mod vkeys;
pub mod key_condition;
pub mod emulation;
pub mod decorator;
pub mod strategy;
pub mod key_hooker;
pub mod key_emulator;
pub mod i18n;
pub mod icon;
pub mod tray;
