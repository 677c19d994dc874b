//! The bot's decisions: reading button data, what each button does, and the
//! texts and keyboards it shows.

pub mod callback_data;
pub mod cart_action;
pub mod flows;
pub mod views;
