//! Control logic for a two-wheeled line-following robot.
//!
//! The crate holds the perception-to-motion core: sensor calibration,
//! the proportional steering law, feature classification with debounce,
//! the fixed obstacle-avoidance detour, the scripted turn, and the
//! object-retrieval state machine. Hardware access (motors, sensors,
//! logging) lives outside the crate; everything here is pure logic on
//! plain integer values, verified by Verus.
//!
//! Floating-point quantities of the control law are carried as scaled
//! integers throughout:
//! - reflectivity weights in ten-thousandths (`0.2125` is `2125`),
//! - the proportional gain in thousandths (`3.0` is `3000`),
//! - the green-ratio threshold in hundredths (`1.65` is `165`),
//! - distances in hundredths of a centimetre (`25 cm` is `2500`).

pub mod line_follow;
pub mod chemical_spill;
