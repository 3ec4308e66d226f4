//! Names of processes, and the search for one.
use debug_mcp::decode::wide_to_string;
use debug_mcp::process::{answers_to, base_name, find_process_by_name, ProcessEntry};

fn wide(text: &str) -> Vec<u16> {
    let mut out: Vec<u16> = text.encode_utf16().collect();
    out.push(0);
    out.extend([120u16, 120, 120]);
    out
}

#[test]
fn base_name_lowercases_and_strips_one_exe_suffix() {
    assert_eq!(base_name("notepad.exe"), "notepad");
    assert_eq!(base_name("NOTEPAD.EXE"), "notepad");
    assert_eq!(base_name("Notepad"), "notepad");
    assert_eq!(base_name("notepad"), "notepad");
    assert_eq!(base_name("notepad.exe.exe"), "notepad.exe");
    assert_eq!(base_name("foo.bar"), "foo.bar");
    assert_eq!(base_name(""), "");
}

#[test]
fn wide_to_string_stops_at_nul_and_handles_unterminated() {
    let buf = [b'a' as u16, b'b' as u16, 0, b'c' as u16, b'd' as u16];
    assert_eq!(wide_to_string(&buf), "ab");
    let buf = [b'h' as u16, b'i' as u16];
    assert_eq!(wide_to_string(&buf), "hi");
    assert_eq!(wide_to_string(&[]), "");
}

#[test]
fn wide_text_pairs_its_surrogates() {
    assert_eq!(wide_to_string(&[0xD83D, 0xDE00]), "\u{1F600}");
    assert_eq!(wide_to_string(&[0xD83D, 97]), "\u{FFFD}a");
    assert_eq!(wide_to_string(&[0xDE00, 0xD83D]), "\u{FFFD}\u{FFFD}");
    assert_eq!(wide_to_string(&[0xD83D, 0xD83D, 0xDE00]), "\u{FFFD}\u{1F600}");
    assert_eq!(wide_to_string(&[0xD7FF, 0xE000]), "\u{D7FF}\u{E000}");
    assert_eq!(wide_to_string(&[0xDBFF, 0xDFFF]), "\u{10FFFF}");
    assert_eq!(
        wide_to_string(&[0xD834, 0xDD1E, 0x6D, 0x75, 0x73, 0xDD1E, 0x69, 0x63, 0xD834]),
        "\u{1D11E}mus\u{FFFD}ic\u{FFFD}"
    );
}

#[test]
fn only_ascii_letters_fold() {
    assert_eq!(base_name("\u{C9}DIT.exe"), "\u{C9}dit");
    assert_eq!(base_name(".exe"), "");
}

#[test]
fn names_answer_with_or_without_their_suffix() {
    assert!(answers_to("NotePad.EXE", "notepad"));
    assert!(answers_to("notepad", "NOTEPAD.exe"));
    assert!(!answers_to("notepad.exe.exe", "notepad"));
}

#[test]
fn the_first_process_of_a_name_is_found() {
    let snapshot = vec![
        ProcessEntry { pid: 4, exe: wide("System") },
        ProcessEntry { pid: 77, exe: wide("Target.EXE") },
        ProcessEntry { pid: 78, exe: wide("target.exe") },
    ];
    assert_eq!(find_process_by_name("target", &snapshot), Some(77));
    assert_eq!(find_process_by_name("TARGET.exe", &snapshot), Some(77));
    assert_eq!(find_process_by_name("absent", &snapshot), None);
    assert_eq!(find_process_by_name("target", &vec![]), None);
}
