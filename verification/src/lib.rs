//! A status-bar weather line: classify a provider weather code into a
//! semantic category, pick a day or night icon, colour the temperature by
//! severity, and assemble a single colourised output line.

pub mod category;
pub mod daynight;
pub mod decimal;
pub mod icons;
pub mod render;
pub mod temperature;
