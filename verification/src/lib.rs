//! Platform-independent driver for the L293 / L293D quadruple half-H bridge.
//!
//! The chip holds four half-H bridges: output `yN` mirrors input `aN` while
//! the bridge is enabled, and floats (high impedance) while it is disabled.
//! Two enable pins are shared a pair each: `en12` gates `y1` and `y2`,
//! `en34` gates `y3` and `y4`, so a pair always leaves or enters high
//! impedance together.
//!
//! Pins are any types implementing the capability contracts of [`hal`]; a
//! capability of the driver is available exactly when the pins it depends
//! on provide theirs.  A terminal that is not wired is the unit type `()`;
//! one tied to the supply rail or to ground is a rail pin of [`pins`].
//!
//! [`half_h::HalfH`] drives a single bridge and is itself a pin, so chips
//! can be cascaded; [`l293x::L293x`] drives the whole chip.  Every
//! operation's behaviour is stated in its contract and machine-checked: the
//! bridge truth table, exactly which error each failure surfaces as, and —
//! through the failure predicates of [`hal`] — exactly when each operation
//! succeeds, so that outcomes over concrete pins follow from the contracts
//! alone.
//!
//! The driver does not hand out borrowed per-output views of one chip (two
//! views would alias the shared enable pin mutably); the chip's pin fields
//! are public instead, and a standalone bridge serves where an output is
//! wired onward as a pin.

pub mod hal;
pub mod half_h;
pub mod l293x;
pub mod mock;
pub mod output_state_error;
pub mod pins;

pub use hal::{Error, ErrorKind, OutputPin, PinState, SetDutyCycle, StatefulOutputPin};
pub use half_h::HalfH;
pub use l293x::L293x;
pub use output_state_error::OutputStateError;
pub use pins::{Gnd, OperationNotSupported, Vcc};
