//! Two small console exercises as a verified library: the value at a
//! position of the Fibonacci recurrence, as computed by a rolling
//! three-slot window, and the choice of direction for a Celsius /
//! Fahrenheit conversion.
pub mod decimal;
pub mod fibonacci;
pub mod temperature;
