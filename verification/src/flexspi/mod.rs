//! FlexSPI

pub mod nor_storage_bus;
