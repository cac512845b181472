//! Decision logic of the slats/flaps control computers of a transport
//! aircraft.
//!
//! From the detent of the flaps lever, the airspeed, the angle of attack and
//! the compression of the main landing gear, a control computer works out in
//! each cycle the angle that it demands of the flaps and of the slats, and
//! whether each surface is to be driven. Two computers, each with a channel
//! for the flaps and one for the slats, make up the electronic complex; they
//! share the lever and nothing else.
//!
//! Every type that holds state has a view, a plain mathematical record of
//! that state, and every cycle is specified by a function from the view
//! before it and what was read to the view after it, or to the refusal of
//! the lever's detent:
//!
//! - [`flaps_channel::flaps_channel_step`] for a flaps channel,
//! - [`slats_channel::slats_channel_step`] for a slats channel,
//! - [`computer::sfcc_step`] for a computer,
//! - [`complex::complex_step`] for the complex.
//!
//! The functions that run a cycle are proved to do what these say, and the
//! proof functions beside them state what follows for every state and every
//! input.
//!
//! Angles are whole numbers of thousandths of a degree and speeds whole
//! numbers of thousandths of a knot, see [`units`].

pub mod units;
pub mod arinc429;
pub mod conf;
pub mod power;
pub mod sources;
pub mod handle;
pub mod flaps_channel;
pub mod slats_channel;
pub mod computer;
pub mod complex;
