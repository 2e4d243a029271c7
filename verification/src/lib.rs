//! Collector core for Bluetooth Low Energy sensor beacons: the device
//! registry, the sensor resolver and the RuuviTag decoders, with their
//! contracts.

pub mod adapter;
pub mod args;
pub mod bt_device;
pub mod bt_sensor;
pub mod bt_sensor_factory;
pub mod bus_item;
pub mod config;
pub mod consumer;
pub mod dbus_bluez;
pub mod device;
pub mod discovery_mode;
pub mod error;
pub mod payload;
pub mod ruuvitag_df2;
pub mod ruuvitag_df3;
pub mod text;
