use mc_server_init::args::{
    c_strings, NulByte, DEFAULT_CONSOLE_PIPE, DEFAULT_STOP_COMMAND, DEFAULT_STOP_TIMEOUT,
};
use mc_server_init::clock::{poll_timeout, stop_deadline};
use mc_server_init::console::{contains_etx, stop_bytes, strip_etx};
use mc_server_init::poll;
use mc_server_init::reap::{try_reap, wait_result, waitpid_blocking, WaitResult};
use mc_server_init::signals;
use mc_server_init::signals::{
    dispatch, drain_signals, managed_signals, server_signals, Request,
};
use mc_server_init::transfer::{read_fd, WriteAll, BUF};
use mc_server_init::winsize::{current_winsize, initial_winsize, is_terminal, Winsize};
use nix::libc;
use nix::sys::signal::{SigSet, Signal};

const SIZE: Winsize = Winsize { ws_row: 50, ws_col: 132, ws_xpixel: 7, ws_ypixel: 9 };
const FALLBACK: Winsize = Winsize { ws_row: 24, ws_col: 80, ws_xpixel: 0, ws_ypixel: 0 };

#[test]
fn exit_code_is_propagated() {
    assert_eq!(try_reap(WaitResult::Exited(0)), Some(0));
    assert_eq!(try_reap(WaitResult::Exited(3)), Some(3));
    assert_eq!(waitpid_blocking(WaitResult::Exited(42)), 42);
}

#[test]
fn signals_add_128_to_the_exit_code() {
    assert_eq!(try_reap(WaitResult::Signaled(9)), Some(137));
    assert_eq!(waitpid_blocking(WaitResult::Signaled(15)), 143);
    assert_eq!(waitpid_blocking(WaitResult::Signaled(255)), 383);
}

#[test]
fn wait_status_is_decoded() {
    assert_eq!(wait_result(17, 3 << 8), WaitResult::Exited(3));
    assert_eq!(wait_result(17, 255 << 8), WaitResult::Exited(255));
    assert_eq!(wait_result(17, 0), WaitResult::Exited(0));
    assert_eq!(wait_result(17, 9), WaitResult::Signaled(9));
    assert_eq!(wait_result(17, 0x80 | 11), WaitResult::Signaled(11));
    assert_eq!(wait_result(17, 0x137f), WaitResult::Running);
    assert_eq!(wait_result(17, 0xffff), WaitResult::Running);
    assert_eq!(wait_result(0, 9), WaitResult::Running);
    assert_eq!(wait_result(-1, 9), WaitResult::Failed);
}

#[test]
fn real_time_signals_are_ends_too() {
    assert_eq!(wait_result(17, 34), WaitResult::Signaled(34));
    assert_eq!(waitpid_blocking(wait_result(17, 64)), 192);
}

#[test]
fn other_reports_are_no_end() {
    assert_eq!(try_reap(WaitResult::Running), None);
    assert_eq!(waitpid_blocking(WaitResult::Running), 0);
    assert_eq!(try_reap(WaitResult::Failed), None);
    assert_eq!(waitpid_blocking(WaitResult::Failed), 0);
}

#[test]
fn deadline_lies_the_timeout_ahead() {
    assert_eq!(stop_deadline(5, 60), 60_000_000_005);
    assert_eq!(stop_deadline(7, 0), 7);
    assert_eq!(
        stop_deadline(u64::MAX, u64::MAX),
        u64::MAX as u128 * 1_000_000_001
    );
}

#[test]
fn sleep_is_cut_to_whole_milliseconds_and_a_second() {
    assert_eq!(poll_timeout(60_000_000_000, 0), Some(1000));
    assert_eq!(poll_timeout(1_000_000_000, 0), Some(1000));
    assert_eq!(poll_timeout(999_999_999, 0), Some(999));
    assert_eq!(poll_timeout(2_999_999, 1_000_000), Some(1));
    assert_eq!(poll_timeout(10, 9), Some(0));
}

#[test]
fn there_is_no_sleep_once_the_deadline_is_reached() {
    assert_eq!(poll_timeout(10, 10), None);
    assert_eq!(poll_timeout(10, 11), None);
    assert_eq!(poll_timeout(0, 0), None);
}

#[test]
fn ctrl_c_is_found_and_stripped() {
    let typed = vec![b'a', 0x03, b'b', 0x03, b'\n'];
    assert!(contains_etx(&typed));
    assert_eq!(strip_etx(&typed), b"ab\n".to_vec());
    assert!(contains_etx(&vec![0x03]));
    assert_eq!(strip_etx(&vec![0x03]), Vec::<u8>::new());
}

#[test]
fn other_input_is_kept() {
    let typed = b"say hi\r".to_vec();
    assert!(!contains_etx(&typed));
    assert_eq!(strip_etx(&typed), typed);
    assert!(!contains_etx(&Vec::new()));
}

#[test]
fn stop_line_ends_with_a_line_feed() {
    assert_eq!(stop_bytes(&"stop".to_string()), b"stop\n".to_vec());
    assert_eq!(stop_bytes(&"sauvegardé".to_string()), "sauvegardé\n".as_bytes().to_vec());
    assert_eq!(stop_bytes(&String::new()), vec![10]);
}

#[test]
fn arguments_become_bytes() {
    let argv = vec!["java".to_string(), "-jar".to_string(), "é".to_string()];
    assert_eq!(
        c_strings(&argv),
        Ok(vec![b"java".to_vec(), b"-jar".to_vec(), "é".as_bytes().to_vec()])
    );
}

#[test]
fn nul_in_any_argument_is_rejected() {
    assert_eq!(c_strings(&vec!["a\0b".to_string()]), Err(NulByte));
    assert_eq!(c_strings(&vec!["a".to_string(), "\0".to_string()]), Err(NulByte));
}

#[test]
fn defaults_are_the_documented_ones() {
    assert_eq!(DEFAULT_CONSOLE_PIPE, "/tmp/console-in");
    assert_eq!(DEFAULT_STOP_TIMEOUT, 60);
    assert_eq!(DEFAULT_STOP_COMMAND, "stop");
}

#[test]
fn signal_numbers_are_the_systems() {
    assert_eq!(signals::SIGINT, libc::SIGINT);
    assert_eq!(signals::SIGKILL, libc::SIGKILL);
    assert_eq!(signals::SIGTERM, libc::SIGTERM);
    assert_eq!(signals::SIGCHLD, libc::SIGCHLD);
    assert_eq!(signals::SIGWINCH, libc::SIGWINCH);
}

#[test]
fn poll_bits_are_the_systems() {
    assert_eq!(poll::POLLIN, libc::POLLIN);
    assert_eq!(poll::POLLERR, libc::POLLERR);
    assert_eq!(poll::POLLHUP, libc::POLLHUP);
    assert_eq!(poll::POLLNVAL, libc::POLLNVAL);
    assert_eq!(poll::EINTR, libc::EINTR);
}

#[test]
fn managed_signals_are_four() {
    let mask = managed_signals();
    let listed: Vec<Signal> = mask.iter().collect();
    assert_eq!(listed.len(), 4);
    assert!(mask.contains(Signal::SIGTERM));
    assert!(mask.contains(Signal::SIGINT));
    assert!(mask.contains(Signal::SIGCHLD));
    assert!(mask.contains(Signal::SIGWINCH));
    assert!(!mask.contains(Signal::SIGHUP));
}

#[test]
fn server_starts_with_no_signal_blocked() {
    assert_eq!(server_signals(), SigSet::empty());
    assert_eq!(server_signals().iter().count(), 0);
}

#[test]
fn signals_are_dispatched() {
    assert_eq!(dispatch(libc::SIGTERM), Request::Stop);
    assert_eq!(dispatch(libc::SIGINT), Request::Stop);
    assert_eq!(dispatch(libc::SIGWINCH), Request::Resize);
    assert_eq!(dispatch(libc::SIGCHLD), Request::Ignore);
    assert_eq!(dispatch(libc::SIGHUP), Request::Ignore);
}

#[test]
fn only_whole_signal_records_count() {
    assert_eq!(drain_signals(128, 128, 15), Some(15));
    assert_eq!(drain_signals(64, 128, 15), None);
    assert_eq!(drain_signals(-1, 128, 15), None);
    assert_eq!(drain_signals(0, 128, 15), None);
    assert_eq!(drain_signals(128, 128, u32::MAX), Some(-1));
}

#[test]
fn reads_bring_the_counted_bytes() {
    let buf = [1u8, 2, 3, 4];
    assert_eq!(read_fd(3, &buf), Some(vec![1, 2, 3]));
    assert_eq!(read_fd(4, &buf), Some(vec![1, 2, 3, 4]));
    assert_eq!(read_fd(0, &buf), None);
    assert_eq!(read_fd(-1, &buf), None);
    assert_eq!(BUF, 8192);
}

#[test]
fn cut_writes_deliver_everything() {
    let mut writer = WriteAll::new(b"hello".to_vec());
    assert_eq!(writer.rest(), Some(&b"hello"[..]));
    writer = writer.wrote(2);
    assert_eq!(writer.rest(), Some(&b"llo"[..]));
    writer = writer.wrote(3);
    assert_eq!(writer.rest(), None);
}

#[test]
fn failed_write_drops_the_rest() {
    let writer = WriteAll::new(b"hello".to_vec()).wrote(1);
    assert_eq!(writer.wrote(-1).rest(), None);
    let writer = WriteAll::new(b"hello".to_vec());
    assert_eq!(writer.wrote(0).rest(), None);
    assert_eq!(WriteAll::new(Vec::new()).rest(), None);
}

#[test]
fn window_size_falls_back() {
    assert!(is_terminal(1));
    assert!(!is_terminal(0));
    assert_eq!(current_winsize(0, SIZE), Some(SIZE));
    assert_eq!(current_winsize(-1, SIZE), None);
    assert_eq!(initial_winsize(Some(SIZE)), SIZE);
    assert_eq!(initial_winsize(None), FALLBACK);
}
