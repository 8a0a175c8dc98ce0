//! Core-voltage supply configuration for a family of microcontrollers.
//!
//! A [`Pwr`] builder collects the supply configuration, the voltage scale and
//! whether the backup-domain regulator is wanted; [`Pwr::freeze`] then runs the
//! commit protocol against the power-control register file and yields a
//! [`PowerConfiguration`].

mod variant;
mod registers;
mod supply;
mod pwr;

pub use supply::SupplyConfiguration;
pub use pwr::{BackupREC, CommitError, PowerConfiguration, Pwr, PwrExt};

pub use variant::{Family, Variant, VoltageScale};
pub use registers::{Access, Cr3, Csr1, D3cr, PWR, SYSCFG};


