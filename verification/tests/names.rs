use singularity_win_compositor::names::{exe_stem, lowered_stem, process_exe_stem, search_stem};

fn some(s: &str) -> Option<String> {
    Some(s.to_string())
}

fn utf16(s: &str) -> Vec<u16> {
    s.encode_utf16().collect()
}

#[test]
fn stem_drops_extension_and_case() {
    assert_eq!(exe_stem("Notepad.EXE"), some("notepad"));
    assert_eq!(exe_stem("notepad"), some("notepad"));
}

#[test]
fn stem_drops_directories() {
    assert_eq!(exe_stem("/opt/Tools/Paint.exe"), some("paint"));
    assert_eq!(exe_stem("Tools/Paint.exe/"), some("paint"));
}

#[test]
fn directories_make_no_difference() {
    for name in ["Paint.exe", ".Profile", "a.b.c", "\u{C4}.EXE", "...", "x"] {
        for dir in ["Tools", "Tools/Bin", ".", "..", "C:", "a\\b", "Tools/", "", "/opt", "\\opt"] {
            assert_eq!(exe_stem(&format!("{dir}/{name}")), exe_stem(name));
        }
    }
}

#[test]
fn case_makes_no_difference() {
    for path in ["Notepad.EXE", "/Opt/Tools/Paint.exe", "C:/Tools/", "Tools/..", "C:\\A.b", ".", ""] {
        assert_eq!(exe_stem(&path.to_ascii_uppercase()), exe_stem(path));
        assert_eq!(exe_stem(&path.to_ascii_lowercase()), exe_stem(path));
        assert_eq!(search_stem(&path.to_ascii_uppercase()), search_stem(path));
    }
}

#[test]
fn extension_makes_no_difference() {
    for name in ["Paint", ".Profile", "a.b.c", "\u{C4}", "...", "x"] {
        assert_eq!(exe_stem(&format!("{name}.exe")), Some(name.to_lowercase()));
    }
}

#[test]
fn stem_drops_only_the_last_extension() {
    assert_eq!(exe_stem("archive.tar.gz"), some("archive.tar"));
    assert_eq!(exe_stem("dotted."), some("dotted"));
    assert_eq!(exe_stem("..."), some(".."));
}

#[test]
fn leading_dot_is_no_extension() {
    assert_eq!(exe_stem(".Profile"), some(".profile"));
    assert_eq!(exe_stem(".Profile.bak"), some(".profile"));
}

#[test]
fn path_without_file_name_has_no_stem() {
    assert_eq!(exe_stem(""), None);
    assert_eq!(exe_stem(".."), None);
    assert_eq!(exe_stem("Tools/.."), None);
    assert_eq!(exe_stem("/"), None);
}

#[test]
fn stem_lowers_more_than_ascii() {
    assert_eq!(exe_stem("\u{C4}RGER.exe"), some("\u{E4}rger"));
}

#[test]
fn lowered_stem_keeps_absence() {
    assert_eq!(lowered_stem(None), None);
    assert_eq!(lowered_stem(some("NotePad")), some("notepad"));
}

#[test]
fn search_goes_by_the_stem() {
    assert_eq!(search_stem("/opt/Tools/Paint.exe"), "paint");
}

#[test]
fn search_falls_back_to_the_whole_text() {
    assert_eq!(search_stem("Tools/.."), "tools/..");
    assert_eq!(search_stem(""), "");
}

#[test]
fn process_that_cannot_be_asked_has_no_stem() {
    assert_eq!(process_exe_stem(None), None);
}

#[test]
fn process_stem_reads_only_what_was_filled_in() {
    let mut buffer = utf16("/Apps/Notepad.exe");
    let length = buffer.len() as u32;
    buffer.resize(1024, 0);
    assert_eq!(process_exe_stem(Some((&buffer, length))), some("notepad"));
    assert_eq!(process_exe_stem(Some((&buffer, 9))), some("not"));
    assert_eq!(process_exe_stem(Some((&buffer, 0))), None);
}

#[test]
fn process_stem_decodes_surrogate_pairs() {
    let buffer = utf16("a\u{1F600}b.exe");
    assert_eq!(buffer[1..3], [0xD83D, 0xDE00]);
    assert_eq!(process_exe_stem(Some((&buffer, buffer.len() as u32))), some("a\u{1F600}b"));
}

#[test]
fn process_stem_replaces_lone_surrogates() {
    let buffer = [0xDE00, 0x41, 0xD83D, 0xD83D, 0xDE00, 0xD83D];
    assert_eq!(
        process_exe_stem(Some((&buffer, 6))),
        some("\u{FFFD}a\u{FFFD}\u{1F600}\u{FFFD}")
    );
}
