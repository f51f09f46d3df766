//! The metrics of the status line: each turns what its collaborator reported
//! into its state, and its state into text.
pub mod cpu;
pub mod net;
pub mod battery;
pub mod bluetooth;
pub mod mem;
pub mod update;
pub mod xkblayout;
pub mod date;

pub use battery::BatteryMetric;
pub use bluetooth::BluetoothChargeMetric;
pub use cpu::CpuMetric;
pub use date::DateMetric;
pub use mem::MemMetric;
pub use net::NetMetric;
pub use update::UpdatesMetric;
pub use xkblayout::XkbLayoutMetric;
