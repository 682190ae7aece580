use psdk_port::c_string::{c_string_bytes, c_string_to_string};
use psdk_port::hal::{
    get_network_handler, get_uart_handler, uart_dev_from_no, HalNetworkRoutine, HalUartRoutine,
    UartDev,
};
use psdk_port::local_log::{
    local_log_init, log_file_name, log_file_path, log_pattern, plan_local_log, stored_log_index,
    DJI_LOG_FOLDER_NAME,
};
use psdk_port::local_time::{log_stamp, LocalDateTime, LOG_STAMP_FORMAT};
use psdk_port::log_index::{format_log_index, format_padded_index, parse_log_index};
use psdk_port::osal::{
    get_file_system_handler, get_local_record_console, get_osal_handler, get_print_console,
    get_socket_handler, local_write_status, ConsoleSink, FileSystemRoutine, OsalRoutine,
    SocketRoutine, DJI_LOGGER_CONSOLE_LOG_LEVEL_DEBUG, DJI_LOGGER_CONSOLE_LOG_LEVEL_INFO,
};
use psdk_port::return_code::{
    check, DJI_ERROR_SYSTEM_MODULE_CODE_SUCCESS, DJI_ERROR_SYSTEM_MODULE_CODE_UNKNOWN,
};
use psdk_port::setup::{SetupStep, SystemSetup};

#[test]
fn check_accepts_success_only() {
    assert_eq!(check(DJI_ERROR_SYSTEM_MODULE_CODE_SUCCESS), Ok(()));
    assert_eq!(check(DJI_ERROR_SYSTEM_MODULE_CODE_UNKNOWN), Err(0xFF));
    assert_eq!(check(0xE3), Err(0xE3));
}

#[test]
fn uart_device_numbers() {
    assert_eq!(uart_dev_from_no(0), Some(UartDev::Dev0));
    assert_eq!(uart_dev_from_no(1), Some(UartDev::Dev1));
    assert_eq!(uart_dev_from_no(2), None);
    assert_eq!(uart_dev_from_no(-1), None);
    assert_eq!(uart_dev_from_no(i32::MAX), None);
}

#[test]
fn uart_handler_binds_every_slot() {
    let h = get_uart_handler();
    assert_eq!(h.UartInit, Some(HalUartRoutine::Init));
    assert_eq!(h.UartDeInit, Some(HalUartRoutine::DeInit));
    assert_eq!(h.UartWriteData, Some(HalUartRoutine::WriteData));
    assert_eq!(h.UartReadData, Some(HalUartRoutine::ReadData));
    assert_eq!(h.UartGetStatus, Some(HalUartRoutine::GetStatus));
}

#[test]
fn network_handler_binds_every_slot() {
    let h = get_network_handler();
    assert_eq!(h.NetworkInit, Some(HalNetworkRoutine::Init));
    assert_eq!(h.NetworkDeInit, Some(HalNetworkRoutine::DeInit));
    assert_eq!(h.NetworkGetDeviceInfo, Some(HalNetworkRoutine::GetDeviceInfo));
}

#[test]
fn osal_handler_binds_every_slot() {
    let h = get_osal_handler();
    assert_eq!(h.TaskCreate, Some(OsalRoutine::TaskCreate));
    assert_eq!(h.TaskDestroy, Some(OsalRoutine::TaskDestroy));
    assert_eq!(h.TaskSleepMs, Some(OsalRoutine::TaskSleepMs));
    assert_eq!(h.MutexCreate, Some(OsalRoutine::MutexCreate));
    assert_eq!(h.MutexDestroy, Some(OsalRoutine::MutexDestroy));
    assert_eq!(h.MutexLock, Some(OsalRoutine::MutexLock));
    assert_eq!(h.MutexUnlock, Some(OsalRoutine::MutexUnlock));
    assert_eq!(h.SemaphoreCreate, Some(OsalRoutine::SemaphoreCreate));
    assert_eq!(h.SemaphoreDestroy, Some(OsalRoutine::SemaphoreDestroy));
    assert_eq!(h.SemaphoreWait, Some(OsalRoutine::SemaphoreWait));
    assert_eq!(h.SemaphoreTimedWait, Some(OsalRoutine::SemaphoreTimedWait));
    assert_eq!(h.SemaphorePost, Some(OsalRoutine::SemaphorePost));
    assert_eq!(h.GetTimeMs, Some(OsalRoutine::GetTimeMs));
    assert_eq!(h.GetTimeUs, Some(OsalRoutine::GetTimeUs));
    assert_eq!(h.GetRandomNum, Some(OsalRoutine::GetRandomNum));
    assert_eq!(h.Malloc, Some(OsalRoutine::Malloc));
    assert_eq!(h.Free, Some(OsalRoutine::Free));
}

#[test]
fn file_system_handler_binds_every_slot() {
    let h = get_file_system_handler();
    assert_eq!(h.FileOpen, Some(FileSystemRoutine::FileOpen));
    assert_eq!(h.FileClose, Some(FileSystemRoutine::FileClose));
    assert_eq!(h.FileWrite, Some(FileSystemRoutine::FileWrite));
    assert_eq!(h.FileRead, Some(FileSystemRoutine::FileRead));
    assert_eq!(h.FileSync, Some(FileSystemRoutine::FileSync));
    assert_eq!(h.FileSeek, Some(FileSystemRoutine::FileSeek));
    assert_eq!(h.DirOpen, Some(FileSystemRoutine::DirOpen));
    assert_eq!(h.DirClose, Some(FileSystemRoutine::DirClose));
    assert_eq!(h.DirRead, Some(FileSystemRoutine::DirRead));
    assert_eq!(h.Mkdir, Some(FileSystemRoutine::Mkdir));
    assert_eq!(h.Unlink, Some(FileSystemRoutine::Unlink));
    assert_eq!(h.Rename, Some(FileSystemRoutine::Rename));
    assert_eq!(h.Stat, Some(FileSystemRoutine::Stat));
}

#[test]
fn socket_handler_binds_every_slot() {
    let h = get_socket_handler();
    assert_eq!(h.Socket, Some(SocketRoutine::Socket));
    assert_eq!(h.Bind, Some(SocketRoutine::Bind));
    assert_eq!(h.Close, Some(SocketRoutine::Close));
    assert_eq!(h.UdpSendData, Some(SocketRoutine::UdpSendData));
    assert_eq!(h.UdpRecvData, Some(SocketRoutine::UdpRecvData));
    assert_eq!(h.TcpListen, Some(SocketRoutine::TcpListen));
    assert_eq!(h.TcpAccept, Some(SocketRoutine::TcpAccept));
    assert_eq!(h.TcpConnect, Some(SocketRoutine::TcpConnect));
    assert_eq!(h.TcpSendData, Some(SocketRoutine::TcpSendData));
    assert_eq!(h.TcpRecvData, Some(SocketRoutine::TcpRecvData));
}

#[test]
fn consoles() {
    let p = get_print_console();
    assert_eq!(p.func, Some(ConsoleSink::PrintConsole));
    assert_eq!(p.consoleLevel, 3);
    assert_eq!(p.consoleLevel as u32, DJI_LOGGER_CONSOLE_LOG_LEVEL_INFO);
    assert!(p.isSupportColor);
    let l = get_local_record_console();
    assert_eq!(l.func, Some(ConsoleSink::LocalWrite));
    assert_eq!(l.consoleLevel, 4);
    assert_eq!(l.consoleLevel as u32, DJI_LOGGER_CONSOLE_LOG_LEVEL_DEBUG);
    assert!(l.isSupportColor);
}

#[test]
fn local_write_answers() {
    assert_eq!(local_write_status(true), DJI_ERROR_SYSTEM_MODULE_CODE_SUCCESS);
    assert_eq!(local_write_status(false), DJI_ERROR_SYSTEM_MODULE_CODE_UNKNOWN);
}

#[test]
fn c_string_of_a_device_name() {
    assert_eq!(c_string_bytes("/dev/ttyUSB0"), Some(b"/dev/ttyUSB0\0".to_vec()));
    assert_eq!(c_string_bytes(""), Some(vec![0u8]));
    assert_eq!(c_string_bytes("eth\u{0}0"), None);
    assert_eq!(c_string_bytes("\u{0}"), None);
    assert_eq!(c_string_bytes("é"), Some(vec![0xC3, 0xA9, 0]));
}

#[test]
fn c_string_read_back() {
    assert_eq!(c_string_to_string(b"abc\0def\0"), Some("abc".to_string()));
    assert_eq!(c_string_to_string(b"\0abc"), Some(String::new()));
    assert_eq!(c_string_to_string(b"no terminator"), Some("no terminator".to_string()));
    assert_eq!(c_string_to_string(&[0xFF, 0xFE, 0]), None);
    assert_eq!(c_string_to_string(&[b'o', b'k', 0, 0xFF]), Some("ok".to_string()));
}

#[test]
fn c_string_round_trip() {
    for name in ["/dev/ttyUSB0", "/dev/ttyACM0", "enxf8e43b7bbc2c", "", "données"] {
        let bytes = c_string_bytes(name).unwrap();
        assert_eq!(c_string_to_string(&bytes), Some(name.to_string()));
    }
}

#[test]
fn parse_index_like_std() {
    assert_eq!(parse_log_index("0"), Some(0));
    assert_eq!(parse_log_index("41"), Some(41));
    assert_eq!(parse_log_index("007"), Some(7));
    assert_eq!(parse_log_index("+7"), Some(7));
    assert_eq!(parse_log_index("65535"), Some(65535));
    assert_eq!(parse_log_index("65536"), None);
    assert_eq!(parse_log_index("99999999999"), None);
    assert_eq!(parse_log_index("-1"), None);
    assert_eq!(parse_log_index("-0"), None);
    assert_eq!(parse_log_index(""), None);
    assert_eq!(parse_log_index("+"), None);
    assert_eq!(parse_log_index("12a"), None);
    assert_eq!(parse_log_index(" 1"), None);
    assert_eq!(parse_log_index("1\n"), None);
    for s in ["", "+", "-", "0", "+0", "00065535", "65536", "1_0", "٣", "++1", "12", "4294967296"] {
        assert_eq!(parse_log_index(s), s.parse::<u16>().ok(), "{:?}", s);
    }
}

#[test]
fn format_index() {
    assert_eq!(format_log_index(0), "0");
    assert_eq!(format_log_index(10), "10");
    assert_eq!(format_log_index(65535), "65535");
    assert_eq!(format_padded_index(3, 4), "0003");
    assert_eq!(format_padded_index(0, 4), "0000");
    assert_eq!(format_padded_index(1234, 4), "1234");
    assert_eq!(format_padded_index(12345, 4), "12345");
    assert_eq!(format_padded_index(7, 0), "7");
}

#[test]
fn index_round_trip() {
    for n in [0u16, 1, 9, 10, 99, 100, 999, 1000, 9999, 10000, 65534, 65535] {
        assert_eq!(parse_log_index(&format_log_index(n)), Some(n));
        assert_eq!(format_log_index(n), n.to_string());
        assert_eq!(parse_log_index(&format_padded_index(n, 4)), Some(n));
        assert_eq!(format_padded_index(n, 4), format!("{:04}", n));
    }
}

#[test]
fn log_file_names() {
    let stamp = "20240131_23-59-07";
    assert_eq!(log_file_name(3, stamp), "DJI_0003_20240131_23-59-07.log");
    assert_eq!(log_file_path(3, stamp), "Logs/DJI_0003_20240131_23-59-07.log");
    assert_eq!(log_file_path(12345, stamp), "Logs/DJI_12345_20240131_23-59-07.log");
    assert_eq!(log_pattern(1), "Logs/DJI_0001*");
    assert_eq!(DJI_LOG_FOLDER_NAME, "Logs");
}

fn date_time(year: i32, month: u32, day: u32, hour: u32, minute: u32, second: u32) -> LocalDateTime {
    LocalDateTime { year, month, day, hour, minute, second }
}

#[test]
fn log_stamps() {
    assert_eq!(LOG_STAMP_FORMAT, "%Y%m%d_%H-%M-%S");
    assert_eq!(log_stamp(&date_time(2024, 1, 31, 23, 59, 7)), "20240131_23-59-07");
    assert_eq!(log_stamp(&date_time(2024, 2, 29, 0, 0, 0)), "20240229_00-00-00");
    assert_eq!(log_stamp(&date_time(999, 12, 1, 9, 5, 3)), "09991201_09-05-03");
    assert_eq!(log_stamp(&date_time(0, 1, 1, 0, 0, 0)), "00000101_00-00-00");
    assert_eq!(log_stamp(&date_time(-1, 3, 4, 5, 6, 7)), "-00010304_05-06-07");
    assert_eq!(log_stamp(&date_time(10000, 3, 4, 5, 6, 7)), "+100000304_05-06-07");
    assert_eq!(log_stamp(&date_time(-262143, 1, 1, 0, 0, 0)), "-2621430101_00-00-00");
    assert_eq!(log_stamp(&date_time(262142, 12, 31, 23, 59, 59)), "+2621421231_23-59-59");
}

#[test]
fn plan_without_rotation() {
    let stamp = "20240131_23-59-07";
    let time = date_time(2024, 1, 31, 23, 59, 7);
    let plan = plan_local_log(9, &time);
    assert_eq!(plan.time, time);
    assert_eq!(plan.current_index, 9);
    assert_eq!(plan.time_stamp, stamp);
    assert_eq!(plan.next_index_text, "10");
    assert_eq!(plan.log_file_path, "Logs/DJI_0009_20240131_23-59-07.log");
    assert_eq!(plan.log_file_name, "DJI_0009_20240131_23-59-07.log");
    assert_eq!(plan.stale_log_pattern, None);
    assert_eq!(plan_local_log(0, &time).next_index_text, "1");
}

#[test]
fn plan_with_rotation() {
    let time = date_time(2024, 1, 31, 23, 59, 7);
    let plan = plan_local_log(10, &time);
    assert_eq!(plan.log_file_path, "Logs/DJI_0010_20240131_23-59-07.log");
    assert_eq!(plan.next_index_text, "11");
    assert_eq!(plan.stale_log_pattern, Some("Logs/DJI_0000*".to_string()));
    let plan = plan_local_log(65534, &time);
    assert_eq!(plan.next_index_text, "65535");
    assert_eq!(plan.stale_log_pattern, Some("Logs/DJI_65524*".to_string()));
}

#[test]
fn rotation_reaches_only_the_stale_log() {
    let stamp = "20240131_23-59-07";
    for k in [0u16, 1, 9, 99, 999, 9990, 9995, 9999, 10000, 65525] {
        let pattern = glob::Pattern::new(&log_pattern(k)).unwrap();
        for m in 0..=(k as u32 + 10).min(65535) {
            let m = m as u16;
            let path = log_file_path(m, stamp);
            assert_eq!(pattern.matches(&path), m == k, "k {} m {}", k, m);
        }
    }
}

#[test]
fn stored_index() {
    assert_eq!(stored_log_index(None), Some(0));
    assert_eq!(stored_log_index(Some("12")), Some(12));
    assert_eq!(stored_log_index(Some("twelve")), None);
}

#[test]
fn local_log_init_from_files() {
    let plan = local_log_init(None);
    assert_eq!(plan.current_index, 0);
    assert_eq!(plan.next_index_text, "1");
    assert!(plan.time_stamp.len() >= 17);
    assert!(plan.time_stamp.chars().all(|c| c.is_ascii_digit() || c == '_' || c == '-' || c == '+'));
    assert_eq!(plan.log_file_name, format!("DJI_0000_{}.log", plan.time_stamp));
    assert_eq!(plan.log_file_path, format!("Logs/DJI_0000_{}.log", plan.time_stamp));
    assert_eq!(plan.stale_log_pattern, None);
    let plan = local_log_init(Some("41"));
    assert_eq!(plan.current_index, 41);
    assert_eq!(plan.next_index_text, "42");
    assert_eq!(plan.stale_log_pattern, Some("Logs/DJI_0031*".to_string()));
}

#[test]
fn setup_accepted_in_order() {
    let mut s = SystemSetup::new();
    let mut steps = Vec::new();
    while let Some(step) = s.next_step() {
        steps.push(step);
        assert_eq!(s.record_result(DJI_ERROR_SYSTEM_MODULE_CODE_SUCCESS), Ok(()));
    }
    assert_eq!(
        steps,
        vec![
            SetupStep::OpenLocalLog,
            SetupStep::RegisterOsalHandler,
            SetupStep::RegisterHalUartHandler,
            SetupStep::AddPrintConsole,
            SetupStep::AddLocalRecordConsole,
            SetupStep::RegisterHalNetworkHandler,
            SetupStep::RegisterSocketHandler,
            SetupStep::RegisterFileSystemHandler,
        ]
    );
    assert!(s.is_done());
    assert_eq!(s.failure(), None);
}

#[test]
fn setup_stops_at_first_refusal() {
    let mut s = SystemSetup::new();
    assert_eq!(s.next_step(), Some(SetupStep::OpenLocalLog));
    assert_eq!(s.record_result(DJI_ERROR_SYSTEM_MODULE_CODE_SUCCESS), Ok(()));
    assert_eq!(s.record_result(DJI_ERROR_SYSTEM_MODULE_CODE_SUCCESS), Ok(()));
    assert_eq!(s.record_result(DJI_ERROR_SYSTEM_MODULE_CODE_SUCCESS), Ok(()));
    assert_eq!(s.next_step(), Some(SetupStep::AddPrintConsole));
    assert_eq!(s.record_result(0xE5), Err(0xE5));
    assert_eq!(s.next_step(), None);
    assert!(!s.is_done());
    assert_eq!(s.failure(), Some(0xE5));
}

#[test]
fn setup_ends_when_the_log_cannot_be_opened() {
    let mut s = SystemSetup::new();
    assert_eq!(s.next_step(), Some(SetupStep::OpenLocalLog));
    assert_eq!(s.record_result(DJI_ERROR_SYSTEM_MODULE_CODE_UNKNOWN), Err(0xFF));
    assert_eq!(s.next_step(), None);
    assert!(!s.is_done());
}

#[test]
fn log_stamps_match_chrono() {
    let cases = [(2024, 1, 31, 23, 59, 7), (1, 1, 1, 0, 0, 0), (-44, 3, 15, 12, 0, 0), (12345, 6, 7, 8, 9, 10)];
    for (y, mo, d, h, mi, s) in cases {
        let expected = chrono::NaiveDate::from_ymd_opt(y, mo, d)
            .unwrap()
            .and_hms_opt(h, mi, s)
            .unwrap()
            .format("%Y%m%d_%H-%M-%S")
            .to_string();
        assert_eq!(log_stamp(&date_time(y, mo, d, h, mi, s)), expected);
    }
}

#[test]
fn successive_starts_keep_ten_logs() {
    let mut index_file: Option<String> = None;
    let mut logs: Vec<String> = Vec::new();
    for start in 0u16..25 {
        let time = date_time(2024, 1, 1, 0, 0, (start % 60) as u32);
        let stored = stored_log_index(index_file.as_deref()).unwrap();
        assert_eq!(stored, start);
        let plan = plan_local_log(stored, &time);
        logs.push(plan.log_file_path.clone());
        if let Some(pattern) = &plan.stale_log_pattern {
            let pattern = glob::Pattern::new(pattern).unwrap();
            logs.retain(|path| !pattern.matches(path));
        }
        index_file = Some(plan.next_index_text.clone());
        let first_kept = if start + 1 > 10 { start + 1 - 10 } else { 0 };
        let expected: Vec<String> =
            (first_kept..=start).map(|i| log_file_path(i, &log_stamp(&date_time(2024, 1, 1, 0, 0, (i % 60) as u32)))).collect();
        assert_eq!(logs, expected);
    }
    assert_eq!(index_file, Some("25".to_string()));
}
