use cipher_browser::filename::{decimal_text, read_tag, strip_for_decrypt, tag_for_encrypt};

#[test]
fn tag_holds_shift_marker_and_name() {
    assert_eq!(tag_for_encrypt("a.txt", 1), "1c.a.txt");
    assert_eq!(tag_for_encrypt("a.txt", 5), "5c.a.txt");
    assert_eq!(tag_for_encrypt("notes", 12), "12c.notes");
    assert_eq!(tag_for_encrypt("", 3), "3c.");
}

#[test]
fn tag_writes_any_shift_in_decimal() {
    assert_eq!(tag_for_encrypt("x", 0), "0c.x");
    assert_eq!(tag_for_encrypt("x", 9), "9c.x");
    assert_eq!(tag_for_encrypt("x", 10), "10c.x");
    assert_eq!(tag_for_encrypt("x", 25), "25c.x");
    assert_eq!(tag_for_encrypt("x", 100), "100c.x");
    assert_eq!(tag_for_encrypt("x", 109), "109c.x");
    assert_eq!(tag_for_encrypt("x", 255), "255c.x");
}

#[test]
fn decimal_text_matches_std() {
    for n in 0..=255u8 {
        assert_eq!(decimal_text(n), n.to_string());
    }
}

#[test]
fn strip_removes_first_segment() {
    assert_eq!(strip_for_decrypt("1c.a.txt"), "a.txt");
    assert_eq!(strip_for_decrypt("12c.notes"), "notes");
    assert_eq!(strip_for_decrypt("archive.tar.gz"), "tar.gz");
    assert_eq!(strip_for_decrypt(".hidden"), "hidden");
    assert_eq!(strip_for_decrypt("..x"), ".x");
}

#[test]
fn strip_without_dot_leaves_nothing() {
    assert_eq!(strip_for_decrypt("1ca"), "");
    assert_eq!(strip_for_decrypt("notes"), "");
    assert_eq!(strip_for_decrypt(""), "");
    assert_eq!(strip_for_decrypt("a."), "");
}

#[test]
fn strip_undoes_tag() {
    let names = [
        "a.txt", "notes", "", ".hidden", "1c.a.txt", "5c.", "c.", "12", "a b.c d", "ü.txt",
        "日本語", "x/y.z", "...",
    ];
    for name in names {
        for shift in 0..=255u8 {
            assert_eq!(strip_for_decrypt(&tag_for_encrypt(name, shift)), name);
        }
    }
}

#[test]
fn names_beyond_ascii_are_cut_by_character() {
    assert_eq!(tag_for_encrypt("ü.txt", 5), "5c.ü.txt");
    assert_eq!(strip_for_decrypt("5c.ü.txt"), "ü.txt");
    assert_eq!(strip_for_decrypt("ü.日本"), "日本");
}

#[test]
fn read_tag_gives_the_shift() {
    assert_eq!(read_tag("1c.a.txt"), Some(1));
    assert_eq!(read_tag("5c.a.txt"), Some(5));
    assert_eq!(read_tag("12c.notes"), Some(12));
    assert_eq!(read_tag("0c.x"), Some(0));
    assert_eq!(read_tag("255c.x"), Some(255));
    assert_eq!(read_tag("100c."), Some(100));
    assert_eq!(read_tag("1c."), Some(1));
    assert_eq!(read_tag("3c.5c.x"), Some(3));
}

#[test]
fn read_tag_refuses_what_is_no_tag() {
    for name in [
        "", "a.txt", "c.x", "1", "1c", "12", "1ca.txt", "1.c", "1cc.x", "1C.x", "1c,x", "256c.x",
        "999c.x", "1000c.x", "1234c.x", "01c.x", "00c.x", "001c.x", "-1c.x", "+1c.x", " 1c.x",
        "1 c.x", "x1c.x", ".1c.x", "٣c.x", "１c.x",
    ] {
        assert_eq!(read_tag(name), None, "name {:?}", name);
    }
}

#[test]
fn read_tag_recovers_every_shift() {
    for name in ["a.txt", "", "1c.x", "notes", "9", "c.", "ü"] {
        for shift in 0..=255u8 {
            let tagged = tag_for_encrypt(name, shift);
            assert_eq!(read_tag(&tagged), Some(shift));
            assert_eq!(strip_for_decrypt(&tagged), name);
        }
    }
}
