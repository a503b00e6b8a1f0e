use adapter_manager::pid_file::{get_hci_index_from_pid_path, parse_pid};
use regex::Regex;

#[test]
fn path_to_pid() {
    assert_eq!(get_hci_index_from_pid_path("/var/run/bluetooth/bluetooth0.pid"), Some(0));
    assert_eq!(get_hci_index_from_pid_path("/var/run/bluetooth/bluetooth1.pid"), Some(1));
    assert_eq!(get_hci_index_from_pid_path("/var/run/bluetooth/bluetooth10.pid"), Some(10));
    assert_eq!(get_hci_index_from_pid_path("/var/run/bluetooth/garbage"), None);
}

#[test]
fn plain_file_names() {
    assert_eq!(get_hci_index_from_pid_path("bluetooth0.pid"), Some(0));
    assert_eq!(get_hci_index_from_pid_path("bluetooth7.pid"), Some(7));
    assert_eq!(get_hci_index_from_pid_path("bluetooth42.pid"), Some(42));
    assert_eq!(get_hci_index_from_pid_path("bluetooth2147483647.pid"), Some(i32::MAX));
    assert_eq!(get_hci_index_from_pid_path("bluetooth007.pid"), Some(7));
}

#[test]
fn names_that_do_not_match() {
    assert_eq!(get_hci_index_from_pid_path(""), None);
    assert_eq!(get_hci_index_from_pid_path("bluetooth"), None);
    assert_eq!(get_hci_index_from_pid_path("bluetooth.pid"), None);
    assert_eq!(get_hci_index_from_pid_path("bluetooth1.pi"), None);
    assert_eq!(get_hci_index_from_pid_path("bluetoothx.pid"), None);
    assert_eq!(get_hci_index_from_pid_path("bluetooth-1.pid"), None);
    assert_eq!(get_hci_index_from_pid_path("bluetooth+1.pid"), None);
    assert_eq!(get_hci_index_from_pid_path("bluetooth1x.pid"), None);
    assert_eq!(get_hci_index_from_pid_path("Bluetooth1.pid"), None);
    assert_eq!(get_hci_index_from_pid_path("luetooth1.pid"), None);
    assert_eq!(get_hci_index_from_pid_path("bluetooth1pid"), None);
    assert_eq!(get_hci_index_from_pid_path("bluetooth1..pid"), None);
    assert_eq!(get_hci_index_from_pid_path("bluetooth1.PID"), None);
    assert_eq!(get_hci_index_from_pid_path("bluetooth\u{0661}.pid"), None);
}

#[test]
fn the_dot_is_a_dot() {
    assert_eq!(get_hci_index_from_pid_path("bluetooth0xpid"), None);
    assert_eq!(get_hci_index_from_pid_path("bluetooth3/pid"), None);
    assert_eq!(get_hci_index_from_pid_path("bluetooth3\u{e9}pid"), None);
    assert_eq!(get_hci_index_from_pid_path("bluetooth3\npid"), None);
    assert_eq!(get_hci_index_from_pid_path("bluetooth12pid"), None);
    assert_eq!(get_hci_index_from_pid_path("bluetooth123pid"), None);
    assert_eq!(get_hci_index_from_pid_path("bluetooth123.pid"), Some(123));
}

#[test]
fn nothing_stands_before_or_after_the_name() {
    assert_eq!(get_hci_index_from_pid_path("xxbluetooth9.pid"), None);
    assert_eq!(get_hci_index_from_pid_path("bluetooth9.pidyy"), None);
    assert_eq!(get_hci_index_from_pid_path("bluetooth9.pid\n"), None);
    assert_eq!(get_hci_index_from_pid_path(" bluetooth9.pid"), None);
    assert_eq!(get_hci_index_from_pid_path("bluetooth1.pidbluetooth2.pid"), None);
    assert_eq!(get_hci_index_from_pid_path("bluetoothbluetooth5.pid"), None);
}

#[test]
fn the_file_name_is_what_follows_the_last_slash() {
    assert_eq!(get_hci_index_from_pid_path("/bluetooth9.pid"), Some(9));
    assert_eq!(get_hci_index_from_pid_path("a/b/c/bluetooth9.pid"), Some(9));
    assert_eq!(get_hci_index_from_pid_path("./bluetooth9.pid"), Some(9));
    assert_eq!(get_hci_index_from_pid_path("//bluetooth9.pid"), Some(9));
    assert_eq!(get_hci_index_from_pid_path("bluetooth5.pid/bluetooth7.pid"), Some(7));
    assert_eq!(get_hci_index_from_pid_path("bluetooth5.pid/"), None);
    assert_eq!(get_hci_index_from_pid_path("bluetooth5.pid/garbage"), None);
    assert_eq!(get_hci_index_from_pid_path("/"), None);
    assert_eq!(get_hci_index_from_pid_path("/var/run/bluetooth"), None);
}

#[test]
fn a_number_too_large_names_no_adapter() {
    assert_eq!(get_hci_index_from_pid_path("bluetooth2147483648.pid"), None);
    assert_eq!(get_hci_index_from_pid_path("bluetooth99999999999999999999999.pid"), None);
    assert_eq!(get_hci_index_from_pid_path("bluetooth0000000000000000000000001.pid"), Some(1));
}

/// A small deterministic source of test inputs.
struct Lcg(u64);

impl Lcg {
    fn next(&mut self) -> u64 {
        self.0 = self.0.wrapping_mul(6364136223846793005).wrapping_add(1442695040888963407);
        self.0 >> 33
    }
}

#[test]
fn every_pid_file_name_fits_the_looser_pattern() {
    // A name that names an adapter is found by the search for the pattern with
    // the same number. The search finds more: it takes any character for the
    // dot and looks anywhere in the name.
    let re = Regex::new(r"bluetooth([0-9]+).pid").unwrap();
    let pieces = [
        "bluetooth", "bluetoot", "b", "0", "1", "9", "12", "2147483647", "2147483648", ".", "pid",
        "pi", "p", "\n", "x", "\u{e9}", ".pid", "d",
    ];
    let mut lcg = Lcg(0x5eed);
    let mut named = 0;
    for _ in 0..5000 {
        let count = (lcg.next() % 4) as usize + 1;
        let mut name = String::new();
        for _ in 0..count {
            name.push_str(pieces[(lcg.next() % pieces.len() as u64) as usize]);
        }
        let searched: Option<i32> = match re.captures(&name) {
            Some(found) => found.get(1).and_then(|digits| digits.as_str().parse().ok()),
            None => None,
        };
        if let Some(hci) = get_hci_index_from_pid_path(&name) {
            named += 1;
            assert_eq!(searched, Some(hci), "name {:?}", name);
            assert_eq!(name.strip_prefix("bluetooth").unwrap().strip_suffix(".pid").unwrap().parse(), Ok(hci));
        }
    }
    assert!(named > 0);
}

#[test]
fn pid_file_names_round_trip() {
    for hci in [0, 1, 2, 9, 10, 11, 99, 100, 12345, i32::MAX - 1, i32::MAX] {
        let name = format!("bluetooth{}.pid", hci);
        assert_eq!(get_hci_index_from_pid_path(&name), Some(hci));
        let path = format!("/var/run/bluetooth/{}", name);
        assert_eq!(get_hci_index_from_pid_path(&path), Some(hci));
    }
}

#[test]
fn pid_of_a_file() {
    assert_eq!(parse_pid(&b"12345".to_vec()), 12345);
    assert_eq!(parse_pid(&b"0".to_vec()), 0);
    assert_eq!(parse_pid(&b"1".to_vec()), 1);
    assert_eq!(parse_pid(&b"+5".to_vec()), 5);
    assert_eq!(parse_pid(&b"-7".to_vec()), -7);
    assert_eq!(parse_pid(&b"0012".to_vec()), 12);
    assert_eq!(parse_pid(&b"2147483647".to_vec()), i32::MAX);
    assert_eq!(parse_pid(&b"-2147483648".to_vec()), i32::MIN);
}

#[test]
fn whitespace_at_the_end_of_a_pid_file_is_left_out() {
    assert_eq!(parse_pid(&b"4242\n".to_vec()), 4242);
    assert_eq!(parse_pid(&b"12345\r\n".to_vec()), 12345);
    assert_eq!(parse_pid(&b"12345 ".to_vec()), 12345);
    assert_eq!(parse_pid(&b"12345\t \n\n".to_vec()), 12345);
    assert_eq!(parse_pid(&b"7\x0c".to_vec()), 7);
    assert_eq!(parse_pid(&b"-7\n".to_vec()), -7);
    assert_eq!(parse_pid(&b"2147483647\n".to_vec()), i32::MAX);
}

#[test]
fn pid_of_a_file_that_holds_no_number_is_zero() {
    assert_eq!(parse_pid(&b"".to_vec()), 0);
    assert_eq!(parse_pid(&b"\n".to_vec()), 0);
    assert_eq!(parse_pid(&b"  \n".to_vec()), 0);
    assert_eq!(parse_pid(&b"+".to_vec()), 0);
    assert_eq!(parse_pid(&b"-\n".to_vec()), 0);
    assert_eq!(parse_pid(&b" 12345".to_vec()), 0);
    assert_eq!(parse_pid(&b"\n12345".to_vec()), 0);
    assert_eq!(parse_pid(&b"12 345".to_vec()), 0);
    assert_eq!(parse_pid(&b"12\n345\n".to_vec()), 0);
    assert_eq!(parse_pid(&b"12a".to_vec()), 0);
    assert_eq!(parse_pid(&b"12345\x0b".to_vec()), 0);
    assert_eq!(parse_pid(&b"--1".to_vec()), 0);
    assert_eq!(parse_pid(&b"2147483648".to_vec()), 0);
    assert_eq!(parse_pid(&b"2147483648\n".to_vec()), 0);
    assert_eq!(parse_pid(&b"-2147483649".to_vec()), 0);
    assert_eq!(parse_pid(&b"99999999999999999999999999".to_vec()), 0);
    assert_eq!(parse_pid(&vec![0xff, 0xfe]), 0);
    assert_eq!(parse_pid(&vec![0x31, 0xc3, 0xa9]), 0);
}

#[test]
fn pid_of_a_file_is_read_as_the_standard_library_reads_what_is_left() {
    let texts = [
        "", "0", "7", "+7", "-7", "+-7", "007", "-0", "+0", "2147483647", "2147483648",
        "-2147483648", "-2147483649", "1 ", " 1", "1\n", "0x10", "1e3", "1_000", "4294967296",
        "\u{0661}", "12\u{e9}", "5\r\n", "5 \t", "5\n6\n",
    ];
    for text in texts.iter() {
        let kept = text.trim_end_matches(|c: char| c.is_ascii_whitespace());
        let expected = kept.parse::<i32>().unwrap_or(0);
        assert_eq!(parse_pid(&text.as_bytes().to_vec()), expected, "text {:?}", text);
    }
}
