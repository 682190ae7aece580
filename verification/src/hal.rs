//! The hardware side of the port: which UART device a device number names,
//! and the UART and network handler tables given to the SDK.

use vstd::prelude::*;

verus! {

/// The two UART devices of the port, known to the C side as
/// `LINUX_UART_DEV0` and `LINUX_UART_DEV1`.
#[derive(Clone, Copy, Debug, PartialEq, Eq, Structural)]
pub enum UartDev {
    Dev0,
    Dev1,
}

/// The UART device that a device number names: 0 and 1 are the only ones.
pub open spec fn uart_dev_spec(dev_no: i32) -> Option<UartDev> {
    if dev_no == 0 {
        Some(UartDev::Dev0)
    } else if dev_no == 1 {
        Some(UartDev::Dev1)
    } else {
        None
    }
}

/// The UART device that `dev_no` names; nothing for an unsupported number.
pub fn uart_dev_from_no(dev_no: i32) -> (r: Option<UartDev>)
    ensures
        r == uart_dev_spec(dev_no),
{
    if dev_no == 0 {
        Some(UartDev::Dev0)
    } else if dev_no == 1 {
        Some(UartDev::Dev1)
    } else {
        None
    }
}

/// The routines of the C side that serve the SDK's UART handler.
#[derive(Clone, Copy, Debug, PartialEq, Eq, Structural)]
pub enum HalUartRoutine {
    /// `HalUart_Init`
    Init,
    /// `HalUart_DeInit`
    DeInit,
    /// `HalUart_WriteData`
    WriteData,
    /// `HalUart_ReadData`
    ReadData,
    /// `HalUart_GetStatus`
    GetStatus,
}

/// The SDK's UART handler table: each slot names the routine bound to it.
#[allow(non_snake_case, non_camel_case_types)]
#[derive(Clone, Copy, Debug, PartialEq, Eq, Structural)]
pub struct T_DjiHalUartHandler {
    pub UartInit: Option<HalUartRoutine>,
    pub UartDeInit: Option<HalUartRoutine>,
    pub UartWriteData: Option<HalUartRoutine>,
    pub UartReadData: Option<HalUartRoutine>,
    pub UartGetStatus: Option<HalUartRoutine>,
}

/// The UART handler of the port: every slot bound to the routine of its name.
pub open spec fn uart_handler_spec() -> T_DjiHalUartHandler {
    T_DjiHalUartHandler {
        UartInit: Some(HalUartRoutine::Init),
        UartDeInit: Some(HalUartRoutine::DeInit),
        UartWriteData: Some(HalUartRoutine::WriteData),
        UartReadData: Some(HalUartRoutine::ReadData),
        UartGetStatus: Some(HalUartRoutine::GetStatus),
    }
}

/// The UART handler that the port registers with the SDK.
pub fn get_uart_handler() -> (h: T_DjiHalUartHandler)
    ensures
        h == uart_handler_spec(),
{
    T_DjiHalUartHandler {
        UartInit: Some(HalUartRoutine::Init),
        UartDeInit: Some(HalUartRoutine::DeInit),
        UartWriteData: Some(HalUartRoutine::WriteData),
        UartReadData: Some(HalUartRoutine::ReadData),
        UartGetStatus: Some(HalUartRoutine::GetStatus),
    }
}

/// The routines of the C side that serve the SDK's network handler.
#[derive(Clone, Copy, Debug, PartialEq, Eq, Structural)]
pub enum HalNetworkRoutine {
    /// `HalNetwork_Init`
    Init,
    /// `HalNetwork_DeInit`
    DeInit,
    /// `HalNetwork_GetDeviceInfo`
    GetDeviceInfo,
}

/// The SDK's network handler table: each slot names the routine bound to it.
#[allow(non_snake_case, non_camel_case_types)]
#[derive(Clone, Copy, Debug, PartialEq, Eq, Structural)]
pub struct T_DjiHalNetworkHandler {
    pub NetworkInit: Option<HalNetworkRoutine>,
    pub NetworkDeInit: Option<HalNetworkRoutine>,
    pub NetworkGetDeviceInfo: Option<HalNetworkRoutine>,
}

/// The network handler of the port: every slot bound to the routine of its name.
pub open spec fn network_handler_spec() -> T_DjiHalNetworkHandler {
    T_DjiHalNetworkHandler {
        NetworkInit: Some(HalNetworkRoutine::Init),
        NetworkDeInit: Some(HalNetworkRoutine::DeInit),
        NetworkGetDeviceInfo: Some(HalNetworkRoutine::GetDeviceInfo),
    }
}

/// The network handler that the port registers with the SDK.
pub fn get_network_handler() -> (h: T_DjiHalNetworkHandler)
    ensures
        h == network_handler_spec(),
{
    T_DjiHalNetworkHandler {
        NetworkInit: Some(HalNetworkRoutine::Init),
        NetworkDeInit: Some(HalNetworkRoutine::DeInit),
        NetworkGetDeviceInfo: Some(HalNetworkRoutine::GetDeviceInfo),
    }
}

} // verus!
