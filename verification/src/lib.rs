//! Platform port of the DJI Payload SDK for Linux: the handler tables that the
//! SDK is given, the C-string exchange of device names, the rotation of the
//! local log files and the order in which the platform is registered.

pub mod c_string;
pub mod hal;
pub mod local_log;
pub mod local_time;
pub mod log_index;
pub mod osal;
pub mod return_code;
pub mod setup;
