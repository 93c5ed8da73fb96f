use ffmpeg_next::cstring;
use ffmpeg_next::dictionary::Dictionary;
use ffmpeg_next::error::Error;

#[test]
fn path_conversion_appends_terminator() {
    let bytes = b"/tmp/video.mkv".to_vec();
    let c = cstring::from_path(&bytes).unwrap();
    let mut expected = bytes.clone();
    expected.push(0);
    assert_eq!(c, expected);
}

#[test]
fn path_with_interior_nul_is_invalid() {
    let bytes = vec![b'/', b'a', 0, b'b'];
    assert_eq!(cstring::from_path(&bytes), Err(Error::InvalidPath));
}

#[test]
fn empty_path_is_just_the_terminator() {
    let c = cstring::from_path(&Vec::new()).unwrap();
    assert_eq!(c, vec![0u8]);
}

#[test]
fn format_name_conversion() {
    let name = b"matroska".to_vec();
    let c = cstring::from_format_name(&name).unwrap();
    assert_eq!(c, b"matroska\0".to_vec());
    let bad = vec![b'm', 0, b'p'];
    assert_eq!(cstring::from_format_name(&bad), Err(Error::InvalidFormatName));
}

#[test]
fn nul_terminate_rejects_only_interior_nul() {
    assert!(cstring::nul_terminate(&b"abc".to_vec()).is_some());
    assert!(cstring::nul_terminate(&vec![1, 0, 2]).is_none());
    assert!(cstring::nul_terminate(&vec![0]).is_none());
}

#[test]
fn dictionary_push_and_read_back() {
    let mut d = Dictionary::new();
    assert_eq!(d.len(), 0);
    d.push("framerate".to_string(), "30".to_string());
    d.push("video_size".to_string(), "640x480".to_string());
    assert_eq!(d.len(), 2);
    assert_eq!(d.key_at(0), "framerate");
    assert_eq!(d.value_at(0), "30");
    assert_eq!(d.key_at(1), "video_size");
    assert_eq!(d.value_at(1), "640x480");
}

#[test]
fn dictionary_disown_then_own_roundtrip() {
    let mut d = Dictionary::new();
    d.push("threads".to_string(), "4".to_string());
    d.push("probesize".to_string(), "32".to_string());
    let entries = d.disown();
    assert_eq!(entries.len(), 2);
    assert_eq!(entries[0].0, "threads");
    let d2 = Dictionary::own(entries);
    assert_eq!(d2.len(), 2);
    assert_eq!(d2.key_at(1), "probesize");
    assert_eq!(d2.value_at(1), "32");
}

#[test]
fn dictionary_own_accepts_mutated_entries() {
    // the native call may consume entries it recognised; whatever is
    // left still becomes a usable dictionary
    let mut d = Dictionary::new();
    d.push("threads".to_string(), "4".to_string());
    d.push("unknown_option".to_string(), "x".to_string());
    let mut entries = d.disown();
    entries.remove(0);
    let d2 = Dictionary::own(entries);
    assert_eq!(d2.len(), 1);
    assert_eq!(d2.key_at(0), "unknown_option");
    // even a fully consumed list yields a usable, empty dictionary
    let d3 = Dictionary::own(Vec::new());
    assert_eq!(d3.len(), 0);
}
