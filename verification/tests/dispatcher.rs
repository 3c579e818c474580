use cipher_browser::dispatcher::{apply, rewrite, Cipher, IoError, Rewrite, Step};
use cipher_browser::menu::MenuAction;

#[test]
fn encrypt_then_decrypt_restores_file() {
    let encrypted = rewrite(Cipher::Encrypt, "/home/user/a.txt", b"hi", 1);
    assert_eq!(
        encrypted,
        Rewrite { content: b"ij".to_vec(), renamed_path: "/home/user/1c.a.txt".to_string() }
    );
    let decrypted = rewrite(Cipher::Decrypt, &encrypted.renamed_path, &encrypted.content, 1);
    assert_eq!(
        decrypted,
        Rewrite { content: b"hi".to_vec(), renamed_path: "/home/user/a.txt".to_string() }
    );
}

#[test]
fn encrypt_tags_with_the_applied_shift() {
    let out = rewrite(Cipher::Encrypt, "/d/notes", b"abc", 12);
    assert_eq!(out.renamed_path, "/d/12c.notes");
    assert_eq!(out.content, b"mno".to_vec());
    let out = rewrite(Cipher::Encrypt, "/d/notes", b"abc", 27);
    assert_eq!(out.renamed_path, "/d/1c.notes");
    assert_eq!(out.content, b"bcd".to_vec());
    let out = rewrite(Cipher::Encrypt, "/d/notes", b"abc", 26);
    assert_eq!(out.renamed_path, "/d/0c.notes");
    assert_eq!(out.content, b"abc".to_vec());
}

#[test]
fn decrypt_uses_the_given_shift_not_the_tag() {
    let out = rewrite(Cipher::Decrypt, "/d/5c.notes", b"fgh", 1);
    assert_eq!(out.renamed_path, "/d/notes");
    assert_eq!(out.content, b"efg".to_vec());
}

#[test]
fn decrypt_of_untagged_name_leaves_no_name() {
    let out = rewrite(Cipher::Decrypt, "/d/notes", b"b", 1);
    assert_eq!(out.renamed_path, "/d/");
    assert_eq!(out.content, b"a".to_vec());
}

#[test]
fn rewrite_stays_in_the_directory_of_the_file() {
    assert_eq!(rewrite(Cipher::Encrypt, "/a.txt", b"", 5).renamed_path, "/5c.a.txt");
    assert_eq!(rewrite(Cipher::Encrypt, "a.txt", b"", 5).renamed_path, "5c.a.txt");
    assert_eq!(rewrite(Cipher::Decrypt, "/x.y/5c.a.txt", b"", 5).renamed_path, "/x.y/a.txt");
    assert_eq!(rewrite(Cipher::Decrypt, "12c.a.b.c", b"", 5).renamed_path, "a.b.c");
}

#[test]
fn decrypt_restores_every_path() {
    for path in ["/home/user/a.txt", "/a", "a", "/d.e/f", "/d/1c.x", "", "/", "/ü/日本.txt"] {
        for shift in [0u8, 1, 5, 12, 25, 26, 200] {
            let encrypted = rewrite(Cipher::Encrypt, path, b"", shift);
            let decrypted = rewrite(Cipher::Decrypt, &encrypted.renamed_path, b"", 3);
            assert_eq!(decrypted.renamed_path, path);
        }
    }
}

#[test]
fn failures_have_messages() {
    assert_eq!(IoError::Read.message(), "Error while reading file");
    assert_eq!(IoError::Write.message(), "Couldn't write to file");
    assert_eq!(IoError::Rename.message(), "Couldn't rename a file");
}

#[test]
fn read_opens_and_tells() {
    assert_eq!(
        apply(MenuAction::Read, "/d/a.txt".to_string(), 5),
        ("Opening selected file".to_string(), Step::Open("/d/a.txt".to_string()))
    );
}

#[test]
fn cipher_actions_call_for_the_content() {
    assert_eq!(
        apply(MenuAction::Encrypt, "/d/a.txt".to_string(), 5),
        (
            String::new(),
            Step::Load { cipher: Cipher::Encrypt, path: "/d/a.txt".to_string(), shift: 5 }
        )
    );
    assert_eq!(
        apply(MenuAction::Decrypt, "/d/5c.a.txt".to_string(), 12),
        (
            String::new(),
            Step::Load { cipher: Cipher::Decrypt, path: "/d/5c.a.txt".to_string(), shift: 12 }
        )
    );
}

#[test]
fn display_switch_touches_no_file() {
    assert_eq!(
        apply(MenuAction::ToggleDisplay, "/d/a.txt".to_string(), 1),
        (String::new(), Step::ToggleDisplay)
    );
}
