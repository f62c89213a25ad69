//! Verified peripheral logic for the NXP i.MX RT6xx family: peripheral clock
//! selection, the FlexSPI NOR storage bus, the Hashcrypt engine and the true
//! random number generator.

pub mod clocks;
pub mod flexspi;
pub mod hashcrypt;
pub mod rng;
