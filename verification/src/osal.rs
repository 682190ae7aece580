//! The operating-system side of the port: the OSAL, file system and socket
//! handler tables given to the SDK, and its two log consoles.

use vstd::prelude::*;
use crate::return_code::{
    T_DjiReturnCode, DJI_ERROR_SYSTEM_MODULE_CODE_SUCCESS, DJI_ERROR_SYSTEM_MODULE_CODE_UNKNOWN,
};

verus! {

/// The routines of the C side that serve the SDK's OSAL handler.
#[derive(Clone, Copy, Debug, PartialEq, Eq, Structural)]
pub enum OsalRoutine {
    /// `Osal_TaskCreate`
    TaskCreate,
    /// `Osal_TaskDestroy`
    TaskDestroy,
    /// `Osal_TaskSleepMs`
    TaskSleepMs,
    /// `Osal_MutexCreate`
    MutexCreate,
    /// `Osal_MutexDestroy`
    MutexDestroy,
    /// `Osal_MutexLock`
    MutexLock,
    /// `Osal_MutexUnlock`
    MutexUnlock,
    /// `Osal_SemaphoreCreate`
    SemaphoreCreate,
    /// `Osal_SemaphoreDestroy`
    SemaphoreDestroy,
    /// `Osal_SemaphoreWait`
    SemaphoreWait,
    /// `Osal_SemaphoreTimedWait`
    SemaphoreTimedWait,
    /// `Osal_SemaphorePost`
    SemaphorePost,
    /// `Osal_GetTimeMs`
    GetTimeMs,
    /// `Osal_GetTimeUs`
    GetTimeUs,
    /// `Osal_GetRandomNum`
    GetRandomNum,
    /// `Osal_Malloc`
    Malloc,
    /// `Osal_Free`
    Free,
}

/// The SDK's OSAL handler table: each slot names the routine bound to it.
#[allow(non_snake_case, non_camel_case_types)]
#[derive(Clone, Copy, Debug, PartialEq, Eq, Structural)]
pub struct T_DjiOsalHandler {
    pub TaskCreate: Option<OsalRoutine>,
    pub TaskDestroy: Option<OsalRoutine>,
    pub TaskSleepMs: Option<OsalRoutine>,
    pub MutexCreate: Option<OsalRoutine>,
    pub MutexDestroy: Option<OsalRoutine>,
    pub MutexLock: Option<OsalRoutine>,
    pub MutexUnlock: Option<OsalRoutine>,
    pub SemaphoreCreate: Option<OsalRoutine>,
    pub SemaphoreDestroy: Option<OsalRoutine>,
    pub SemaphoreWait: Option<OsalRoutine>,
    pub SemaphoreTimedWait: Option<OsalRoutine>,
    pub SemaphorePost: Option<OsalRoutine>,
    pub GetTimeMs: Option<OsalRoutine>,
    pub GetTimeUs: Option<OsalRoutine>,
    pub GetRandomNum: Option<OsalRoutine>,
    pub Malloc: Option<OsalRoutine>,
    pub Free: Option<OsalRoutine>,
}

/// The OSAL handler of the port: every slot bound to the routine of its name.
pub open spec fn osal_handler_spec() -> T_DjiOsalHandler {
    T_DjiOsalHandler {
        TaskCreate: Some(OsalRoutine::TaskCreate),
        TaskDestroy: Some(OsalRoutine::TaskDestroy),
        TaskSleepMs: Some(OsalRoutine::TaskSleepMs),
        MutexCreate: Some(OsalRoutine::MutexCreate),
        MutexDestroy: Some(OsalRoutine::MutexDestroy),
        MutexLock: Some(OsalRoutine::MutexLock),
        MutexUnlock: Some(OsalRoutine::MutexUnlock),
        SemaphoreCreate: Some(OsalRoutine::SemaphoreCreate),
        SemaphoreDestroy: Some(OsalRoutine::SemaphoreDestroy),
        SemaphoreWait: Some(OsalRoutine::SemaphoreWait),
        SemaphoreTimedWait: Some(OsalRoutine::SemaphoreTimedWait),
        SemaphorePost: Some(OsalRoutine::SemaphorePost),
        GetTimeMs: Some(OsalRoutine::GetTimeMs),
        GetTimeUs: Some(OsalRoutine::GetTimeUs),
        GetRandomNum: Some(OsalRoutine::GetRandomNum),
        Malloc: Some(OsalRoutine::Malloc),
        Free: Some(OsalRoutine::Free),
    }
}

/// The OSAL handler that the port registers with the SDK.
pub fn get_osal_handler() -> (h: T_DjiOsalHandler)
    ensures
        h == osal_handler_spec(),
{
    T_DjiOsalHandler {
        TaskCreate: Some(OsalRoutine::TaskCreate),
        TaskDestroy: Some(OsalRoutine::TaskDestroy),
        TaskSleepMs: Some(OsalRoutine::TaskSleepMs),
        MutexCreate: Some(OsalRoutine::MutexCreate),
        MutexDestroy: Some(OsalRoutine::MutexDestroy),
        MutexLock: Some(OsalRoutine::MutexLock),
        MutexUnlock: Some(OsalRoutine::MutexUnlock),
        SemaphoreCreate: Some(OsalRoutine::SemaphoreCreate),
        SemaphoreDestroy: Some(OsalRoutine::SemaphoreDestroy),
        SemaphoreWait: Some(OsalRoutine::SemaphoreWait),
        SemaphoreTimedWait: Some(OsalRoutine::SemaphoreTimedWait),
        SemaphorePost: Some(OsalRoutine::SemaphorePost),
        GetTimeMs: Some(OsalRoutine::GetTimeMs),
        GetTimeUs: Some(OsalRoutine::GetTimeUs),
        GetRandomNum: Some(OsalRoutine::GetRandomNum),
        Malloc: Some(OsalRoutine::Malloc),
        Free: Some(OsalRoutine::Free),
    }
}

/// The routines of the C side that serve the SDK's file system handler.
#[derive(Clone, Copy, Debug, PartialEq, Eq, Structural)]
pub enum FileSystemRoutine {
    /// `Osal_FileOpen`
    FileOpen,
    /// `Osal_FileClose`
    FileClose,
    /// `Osal_FileWrite`
    FileWrite,
    /// `Osal_FileRead`
    FileRead,
    /// `Osal_FileSync`
    FileSync,
    /// `Osal_FileSeek`
    FileSeek,
    /// `Osal_DirOpen`
    DirOpen,
    /// `Osal_DirClose`
    DirClose,
    /// `Osal_DirRead`
    DirRead,
    /// `Osal_Mkdir`
    Mkdir,
    /// `Osal_Unlink`
    Unlink,
    /// `Osal_Rename`
    Rename,
    /// `Osal_Stat`
    Stat,
}

/// The SDK's file system handler table: each slot names the routine bound to it.
#[allow(non_snake_case, non_camel_case_types)]
#[derive(Clone, Copy, Debug, PartialEq, Eq, Structural)]
pub struct T_DjiFileSystemHandler {
    pub FileOpen: Option<FileSystemRoutine>,
    pub FileClose: Option<FileSystemRoutine>,
    pub FileWrite: Option<FileSystemRoutine>,
    pub FileRead: Option<FileSystemRoutine>,
    pub FileSync: Option<FileSystemRoutine>,
    pub FileSeek: Option<FileSystemRoutine>,
    pub DirOpen: Option<FileSystemRoutine>,
    pub DirClose: Option<FileSystemRoutine>,
    pub DirRead: Option<FileSystemRoutine>,
    pub Mkdir: Option<FileSystemRoutine>,
    pub Unlink: Option<FileSystemRoutine>,
    pub Rename: Option<FileSystemRoutine>,
    pub Stat: Option<FileSystemRoutine>,
}

/// The file system handler of the port: every slot bound to the routine of its name.
pub open spec fn file_system_handler_spec() -> T_DjiFileSystemHandler {
    T_DjiFileSystemHandler {
        FileOpen: Some(FileSystemRoutine::FileOpen),
        FileClose: Some(FileSystemRoutine::FileClose),
        FileWrite: Some(FileSystemRoutine::FileWrite),
        FileRead: Some(FileSystemRoutine::FileRead),
        FileSync: Some(FileSystemRoutine::FileSync),
        FileSeek: Some(FileSystemRoutine::FileSeek),
        DirOpen: Some(FileSystemRoutine::DirOpen),
        DirClose: Some(FileSystemRoutine::DirClose),
        DirRead: Some(FileSystemRoutine::DirRead),
        Mkdir: Some(FileSystemRoutine::Mkdir),
        Unlink: Some(FileSystemRoutine::Unlink),
        Rename: Some(FileSystemRoutine::Rename),
        Stat: Some(FileSystemRoutine::Stat),
    }
}

/// The file system handler that the port registers with the SDK.
pub fn get_file_system_handler() -> (h: T_DjiFileSystemHandler)
    ensures
        h == file_system_handler_spec(),
{
    T_DjiFileSystemHandler {
        FileOpen: Some(FileSystemRoutine::FileOpen),
        FileClose: Some(FileSystemRoutine::FileClose),
        FileWrite: Some(FileSystemRoutine::FileWrite),
        FileRead: Some(FileSystemRoutine::FileRead),
        FileSync: Some(FileSystemRoutine::FileSync),
        FileSeek: Some(FileSystemRoutine::FileSeek),
        DirOpen: Some(FileSystemRoutine::DirOpen),
        DirClose: Some(FileSystemRoutine::DirClose),
        DirRead: Some(FileSystemRoutine::DirRead),
        Mkdir: Some(FileSystemRoutine::Mkdir),
        Unlink: Some(FileSystemRoutine::Unlink),
        Rename: Some(FileSystemRoutine::Rename),
        Stat: Some(FileSystemRoutine::Stat),
    }
}

/// The routines of the C side that serve the SDK's socket handler.
#[derive(Clone, Copy, Debug, PartialEq, Eq, Structural)]
pub enum SocketRoutine {
    /// `Osal_Socket`
    Socket,
    /// `Osal_Bind`
    Bind,
    /// `Osal_Close`
    Close,
    /// `Osal_UdpSendData`
    UdpSendData,
    /// `Osal_UdpRecvData`
    UdpRecvData,
    /// `Osal_TcpListen`
    TcpListen,
    /// `Osal_TcpAccept`
    TcpAccept,
    /// `Osal_TcpConnect`
    TcpConnect,
    /// `Osal_TcpSendData`
    TcpSendData,
    /// `Osal_TcpRecvData`
    TcpRecvData,
}

/// The SDK's socket handler table: each slot names the routine bound to it.
#[allow(non_snake_case, non_camel_case_types)]
#[derive(Clone, Copy, Debug, PartialEq, Eq, Structural)]
pub struct T_DjiSocketHandler {
    pub Socket: Option<SocketRoutine>,
    pub Bind: Option<SocketRoutine>,
    pub Close: Option<SocketRoutine>,
    pub UdpSendData: Option<SocketRoutine>,
    pub UdpRecvData: Option<SocketRoutine>,
    pub TcpListen: Option<SocketRoutine>,
    pub TcpAccept: Option<SocketRoutine>,
    pub TcpConnect: Option<SocketRoutine>,
    pub TcpSendData: Option<SocketRoutine>,
    pub TcpRecvData: Option<SocketRoutine>,
}

/// The socket handler of the port: every slot bound to the routine of its name.
pub open spec fn socket_handler_spec() -> T_DjiSocketHandler {
    T_DjiSocketHandler {
        Socket: Some(SocketRoutine::Socket),
        Bind: Some(SocketRoutine::Bind),
        Close: Some(SocketRoutine::Close),
        UdpSendData: Some(SocketRoutine::UdpSendData),
        UdpRecvData: Some(SocketRoutine::UdpRecvData),
        TcpListen: Some(SocketRoutine::TcpListen),
        TcpAccept: Some(SocketRoutine::TcpAccept),
        TcpConnect: Some(SocketRoutine::TcpConnect),
        TcpSendData: Some(SocketRoutine::TcpSendData),
        TcpRecvData: Some(SocketRoutine::TcpRecvData),
    }
}

/// The socket handler that the port registers with the SDK.
pub fn get_socket_handler() -> (h: T_DjiSocketHandler)
    ensures
        h == socket_handler_spec(),
{
    T_DjiSocketHandler {
        Socket: Some(SocketRoutine::Socket),
        Bind: Some(SocketRoutine::Bind),
        Close: Some(SocketRoutine::Close),
        UdpSendData: Some(SocketRoutine::UdpSendData),
        UdpRecvData: Some(SocketRoutine::UdpRecvData),
        TcpListen: Some(SocketRoutine::TcpListen),
        TcpAccept: Some(SocketRoutine::TcpAccept),
        TcpConnect: Some(SocketRoutine::TcpConnect),
        TcpSendData: Some(SocketRoutine::TcpSendData),
        TcpRecvData: Some(SocketRoutine::TcpRecvData),
    }
}

/// Console level of the SDK's logger (`E_DjiLoggerConsoleLogLevel`): errors only.
pub const DJI_LOGGER_CONSOLE_LOG_LEVEL_ERROR: u32 = 1;
/// Console level: warnings and errors.
pub const DJI_LOGGER_CONSOLE_LOG_LEVEL_WARN: u32 = 2;
/// Console level: information, warnings and errors.
pub const DJI_LOGGER_CONSOLE_LOG_LEVEL_INFO: u32 = 3;
/// Console level: everything, debug output included.
pub const DJI_LOGGER_CONSOLE_LOG_LEVEL_DEBUG: u32 = 4;

/// The two console callbacks of the port.
#[derive(Clone, Copy, Debug, PartialEq, Eq, Structural)]
pub enum ConsoleSink {
    /// `print_console`: prints each message on standard output.
    PrintConsole,
    /// `local_write`: appends each message to the open local log file.
    LocalWrite,
}

/// A console of the SDK's logger (`T_DjiLoggerConsole`).
#[allow(non_snake_case, non_camel_case_types)]
#[derive(Clone, Copy, Debug, PartialEq, Eq, Structural)]
pub struct T_DjiLoggerConsole {
    pub func: Option<ConsoleSink>,
    pub consoleLevel: u8,
    pub isSupportColor: bool,
}

/// The console that prints: information level, with colour.
pub open spec fn print_console_spec() -> T_DjiLoggerConsole {
    T_DjiLoggerConsole {
        func: Some(ConsoleSink::PrintConsole),
        consoleLevel: DJI_LOGGER_CONSOLE_LOG_LEVEL_INFO as u8,
        isSupportColor: true,
    }
}

/// The console that records to the local log file: debug level, with colour.
pub open spec fn local_record_console_spec() -> T_DjiLoggerConsole {
    T_DjiLoggerConsole {
        func: Some(ConsoleSink::LocalWrite),
        consoleLevel: DJI_LOGGER_CONSOLE_LOG_LEVEL_DEBUG as u8,
        isSupportColor: true,
    }
}

/// The console that prints the SDK's messages.
pub fn get_print_console() -> (c: T_DjiLoggerConsole)
    ensures
        c == print_console_spec(),
{
    T_DjiLoggerConsole {
        func: Some(ConsoleSink::PrintConsole),
        consoleLevel: DJI_LOGGER_CONSOLE_LOG_LEVEL_INFO as u8,
        isSupportColor: true,
    }
}

/// The console that records the SDK's messages in the local log file.
pub fn get_local_record_console() -> (c: T_DjiLoggerConsole)
    ensures
        c == local_record_console_spec(),
{
    T_DjiLoggerConsole {
        func: Some(ConsoleSink::LocalWrite),
        consoleLevel: DJI_LOGGER_CONSOLE_LOG_LEVEL_DEBUG as u8,
        isSupportColor: true,
    }
}

/// What the local record console answers the SDK for a message: an unknown
/// error where no log file is open (nothing is written), success where one is
/// (the message is written to it and flushed).
pub fn local_write_status(log_file_open: bool) -> (code: T_DjiReturnCode)
    ensures
        code == (if log_file_open {
            DJI_ERROR_SYSTEM_MODULE_CODE_SUCCESS
        } else {
            DJI_ERROR_SYSTEM_MODULE_CODE_UNKNOWN
        }),
{
    if !log_file_open {
        return DJI_ERROR_SYSTEM_MODULE_CODE_UNKNOWN;
    }
    DJI_ERROR_SYSTEM_MODULE_CODE_SUCCESS
}

} // verus!
