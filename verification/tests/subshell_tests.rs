use oxide::subshell::{
    bytes_contains_ascii_ci, cmd_allocates_interactive_sudo_shell, earliest_ctrl_o_in_carry,
    earliest_ctrl_x_in_carry, find_subsequence, pty_tail_has_sudo_password_prompt,
    relay_stdin_chunk, shell_escape_path, trailing_ctrl_o_prefix_len, trailing_ctrl_x_prefix_len,
    ascii_lower_byte, SudoEarlyPanelReopen, SCAN_CAP,
};
use oxide::subshell::{flush_pty_pending_without_marker, write_pty_chunk_without_marker};

fn relay(carry: &mut Vec<u8>, chunk: &[u8], withheld: &mut Option<Vec<u8>>) -> (Vec<u8>, bool) {
    let step = relay_stdin_chunk(carry, chunk, withheld);
    (step.forward, step.exit)
}

#[test]
fn find_subsequence_finds_first_occurrence() {
    assert_eq!(find_subsequence(b"hello hello", b"ll"), Some(2));
    assert_eq!(find_subsequence(b"abc", b""), None);
    assert_eq!(find_subsequence(b"ab", b"abc"), None);
    assert_eq!(find_subsequence(b"abc", b"abc"), Some(0));
    assert_eq!(find_subsequence(b"abc", b"x"), None);
}

#[test]
fn trailing_prefix_lengths() {
    assert_eq!(trailing_ctrl_o_prefix_len(b"abc\x1b["), 2);
    assert_eq!(trailing_ctrl_o_prefix_len(b"\x1b[27;5;11"), 9);
    assert_eq!(trailing_ctrl_o_prefix_len(b"abc"), 0);
    assert_eq!(trailing_ctrl_o_prefix_len(b""), 0);
    assert_eq!(trailing_ctrl_x_prefix_len(b"x\x1b[12"), 4);
    assert_eq!(trailing_ctrl_x_prefix_len(b"\x1b[27;5;120"), 10);
}

#[test]
fn earliest_ctrl_o_prefers_first_position() {
    assert_eq!(earliest_ctrl_o_in_carry(b"ab\x1b[111;5uc\x0f"), Some((2, 8)));
    assert_eq!(earliest_ctrl_o_in_carry(b"\x0fab\x1b[111;5u"), Some((0, 1)));
    assert_eq!(earliest_ctrl_o_in_carry(b"zz\x1b[27;5;111~"), Some((2, 11)));
    assert_eq!(earliest_ctrl_o_in_carry(b"plain"), None);
    assert_eq!(earliest_ctrl_x_in_carry(b"a\x18"), Some((1, 1)));
}

#[test]
fn relay_forwards_plain_input() {
    let mut carry = Vec::new();
    let mut withheld = None;
    let (fwd, exit) = relay(&mut carry, b"ls\r", &mut withheld);
    assert_eq!(fwd, b"ls\r".to_vec());
    assert!(!exit);
    assert!(carry.is_empty());
    assert!(withheld.is_none());
}

#[test]
fn relay_returns_on_ctrl_o_and_keeps_the_rest() {
    let mut carry = Vec::new();
    let mut withheld = None;
    let (fwd, exit) = relay(&mut carry, b"a\x0fb", &mut withheld);
    assert_eq!(fwd, b"a".to_vec());
    assert!(exit);
    assert_eq!(carry, b"b".to_vec());
}

#[test]
fn relay_withholds_ctrl_x_until_next_key() {
    let mut carry = Vec::new();
    let mut withheld = None;
    let (fwd, exit) = relay(&mut carry, b"\x18", &mut withheld);
    assert!(fwd.is_empty());
    assert!(!exit);
    assert_eq!(withheld, Some(vec![0x18u8]));
    let (fwd, exit) = relay(&mut carry, b"o", &mut withheld);
    assert!(fwd.is_empty());
    assert!(exit);
    assert!(withheld.is_none());
    assert!(carry.is_empty());
}

#[test]
fn relay_releases_ctrl_x_followed_by_other_key() {
    let mut carry = Vec::new();
    let mut withheld = Some(vec![0x18u8]);
    let (fwd, exit) = relay(&mut carry, b"x", &mut withheld);
    assert_eq!(fwd, vec![0x18u8, b'x']);
    assert!(!exit);
    assert!(withheld.is_none());
}

#[test]
fn relay_ctrl_x_capital_o_in_one_chunk() {
    let mut carry = Vec::new();
    let mut withheld = None;
    let (fwd, exit) = relay(&mut carry, b"q\x18Oz", &mut withheld);
    assert_eq!(fwd, b"q".to_vec());
    assert!(exit);
    assert_eq!(carry, b"z".to_vec());
}

#[test]
fn relay_kitty_ctrl_o_split_across_chunks() {
    let mut carry = Vec::new();
    let mut withheld = None;
    let (fwd, exit) = relay(&mut carry, b"\x1b[111", &mut withheld);
    assert!(fwd.is_empty());
    assert!(!exit);
    assert_eq!(carry, b"\x1b[111".to_vec());
    let (fwd, exit) = relay(&mut carry, b";5u", &mut withheld);
    assert!(fwd.is_empty());
    assert!(exit);
    assert!(carry.is_empty());
}

#[test]
fn relay_ctrl_o_anywhere_wins_over_earlier_ctrl_x() {
    let mut carry = Vec::new();
    let mut withheld = None;
    let (fwd, exit) = relay(&mut carry, b"\x18o\x0f", &mut withheld);
    assert_eq!(fwd, vec![0x18u8, b'o']);
    assert!(exit);
    assert!(carry.is_empty());
}

#[test]
fn ascii_case_insensitive_search() {
    assert_eq!(ascii_lower_byte(b'Q'), b'q');
    assert_eq!(ascii_lower_byte(b'['), b'[');
    assert!(bytes_contains_ascii_ci(b"[SUDO] Password for bob:", b"[sudo] password"));
    assert!(!bytes_contains_ascii_ci(b"pass", b"password"));
    assert!(bytes_contains_ascii_ci(b"", b""));
}

#[test]
fn sudo_password_prompts() {
    assert!(pty_tail_has_sudo_password_prompt(b"Password:"));
    assert!(pty_tail_has_sudo_password_prompt(b"[sudo] password for me: "));
    assert!(pty_tail_has_sudo_password_prompt(b"\r\nPASSWORD FOR root "));
    assert!(!pty_tail_has_sudo_password_prompt(b"root@host:~# "));
}

#[test]
fn shell_escape_quotes_paths() {
    assert_eq!(shell_escape_path("/tmp/a b"), "'/tmp/a b'");
    assert_eq!(shell_escape_path("it's"), "'it'\"'\"'s'");
    assert_eq!(shell_escape_path(""), "''");
}

#[test]
fn interactive_sudo_shell_detection() {
    assert!(cmd_allocates_interactive_sudo_shell("sudo -s"));
    assert!(cmd_allocates_interactive_sudo_shell("  SUDO -i  "));
    assert!(cmd_allocates_interactive_sudo_shell("sudo su"));
    assert!(cmd_allocates_interactive_sudo_shell("sudo -u bob -s"));
    assert!(!cmd_allocates_interactive_sudo_shell("sudo ls"));
    assert!(!cmd_allocates_interactive_sudo_shell("sudo"));
    assert!(!cmd_allocates_interactive_sudo_shell("sudoku -s"));
    assert!(!cmd_allocates_interactive_sudo_shell("echo sudo -s"));
}

#[test]
fn sudo_early_reopen_without_password() {
    let mut se = SudoEarlyPanelReopen::new(1000);
    assert!(!se.poll_due(1500));
    assert!(se.poll_due(1900));
    assert_eq!(se.last_poll_at, Some(1900));
    assert!(!se.poll_due(2000));
    assert!(se.poll_due(2100));
    assert!(!se.record_probe(true));
    assert!(se.record_probe(true));
    assert!(!se.record_probe(false));
    assert_eq!(se.root_streak, 0);
}

#[test]
fn sudo_early_reopen_waits_for_password_submit() {
    let mut se = SudoEarlyPanelReopen::new(0);
    se.note_pty_output(b"[sudo] password for me: ");
    assert!(se.password_prompt_seen);
    assert!(!se.poll_due(5000));
    se.note_stdin(b"secret", 5500);
    assert_eq!(se.password_submit_at, None);
    se.note_stdin(b"\n", 6000);
    assert_eq!(se.password_submit_at, Some(6000));
    se.note_stdin(b"\r", 7000);
    assert_eq!(se.password_submit_at, Some(6000));
    assert!(!se.poll_due(6500));
    assert!(se.poll_due(6550));
}

#[test]
fn sudo_scan_tail_is_capped() {
    let mut se = SudoEarlyPanelReopen::new(0);
    let big = vec![b'x'; 70000];
    se.note_pty_output(&big);
    assert_eq!(se.scan_tail.len(), SCAN_CAP);
    se.note_pty_output(b"Password:");
    assert_eq!(se.scan_tail.len(), SCAN_CAP);
    assert!(se.password_prompt_seen);
}

#[test]
fn completion_marker_ends_the_command() {
    let mut pending = Vec::new();
    let (shown, done) = write_pty_chunk_without_marker(
        &mut pending,
        b"out\r\n__DONE__\r\nrest",
        b"__DONE__\n",
        b"__DONE__\r\n",
        b"printf x",
    );
    assert_eq!(shown, b"out\r\n".to_vec());
    assert!(done);
    assert!(pending.is_empty());
}

#[test]
fn output_without_marker_keeps_a_short_tail() {
    let mut pending = Vec::new();
    let (shown, done) = write_pty_chunk_without_marker(&mut pending, b"abcdefghijkl", b"__DONE__\n", b"__DONE__\r\n", b"printf x");
    assert_eq!(shown, b"abc".to_vec());
    assert!(!done);
    assert_eq!(pending, b"defghijkl".to_vec());
    let (shown, done) = write_pty_chunk_without_marker(&mut pending, b"__DONE__\n", b"__DONE__\n", b"__DONE__\r\n", b"printf x");
    assert_eq!(shown, b"defghijkl".to_vec());
    assert!(done);
}

#[test]
fn helper_echo_is_cut_out() {
    let mut pending = Vec::new();
    let (shown, done) = write_pty_chunk_without_marker(&mut pending, b"Xprintf xY", b"__DONE__\n", b"__DONE__\r\n", b"printf x");
    assert_eq!(shown, b"X".to_vec());
    assert!(!done);
    assert_eq!(pending, b"Y".to_vec());
    let mut tail = b"abprintf xcd".to_vec();
    assert_eq!(flush_pty_pending_without_marker(&mut tail, b"printf x"), b"ab".to_vec());
    assert!(tail.is_empty());
    let mut plain = b"xyz".to_vec();
    assert_eq!(flush_pty_pending_without_marker(&mut plain, b"printf x"), b"xyz".to_vec());
}
