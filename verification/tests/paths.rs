use directories::path::{is_absolute, join, keep_absolute, pop, Style};
use std::path::{Path, PathBuf};

/// Every text of at most `len` characters over `alphabet`.
fn texts_up_to(alphabet: &[char], len: usize) -> Vec<String> {
    let mut all: Vec<String> = vec![String::new()];
    let mut last: Vec<String> = vec![String::new()];
    for _ in 0..len {
        let mut next: Vec<String> = Vec::new();
        for text in &last {
            for c in alphabet {
                let mut longer = text.clone();
                longer.push(*c);
                next.push(longer);
            }
        }
        all.extend(next.iter().cloned());
        last = next;
    }
    all
}

#[test]
fn unix_absolute_is_a_leading_slash() {
    assert!(is_absolute(Style::Unix, "/"));
    assert!(is_absolute(Style::Unix, "/home/alice"));
    assert!(!is_absolute(Style::Unix, ""));
    assert!(!is_absolute(Style::Unix, "relative/path"));
    assert!(!is_absolute(Style::Unix, "./x"));
    assert!(!is_absolute(Style::Unix, "C:\\Users"));
    assert!(!is_absolute(Style::Unix, "\\\\server\\share"));
}

#[test]
fn unix_absolute_agrees_with_the_standard_library() {
    for text in texts_up_to(&['/', '.', 'a', '\\', ':'], 5) {
        assert_eq!(
            is_absolute(Style::Unix, &text),
            Path::new(&text).is_absolute(),
            "{:?}",
            text
        );
    }
}

#[test]
fn windows_absolute_needs_a_drive_and_a_root_or_two_separators() {
    assert!(is_absolute(Style::Windows, "C:\\"));
    assert!(is_absolute(Style::Windows, "C:\\Users\\Alice"));
    assert!(is_absolute(Style::Windows, "c:/Users/Alice"));
    assert!(is_absolute(Style::Windows, "\\\\server\\share"));
    assert!(is_absolute(Style::Windows, "//server/share"));
    assert!(!is_absolute(Style::Windows, ""));
    assert!(!is_absolute(Style::Windows, "C:"));
    assert!(!is_absolute(Style::Windows, "C:Users"));
    assert!(!is_absolute(Style::Windows, "\\Users"));
    assert!(!is_absolute(Style::Windows, "/home/alice"));
    assert!(!is_absolute(Style::Windows, "1:\\x"));
    assert!(!is_absolute(Style::Windows, "Foo Corp"));
}

#[test]
fn unix_join_examples() {
    assert_eq!(join(Style::Unix, "/home/alice", ".config"), "/home/alice/.config");
    assert_eq!(join(Style::Unix, "/home/alice/", ".config"), "/home/alice/.config");
    assert_eq!(join(Style::Unix, "", "x"), "x");
    assert_eq!(join(Style::Unix, "/", "x"), "/x");
    assert_eq!(join(Style::Unix, "/a", ""), "/a/");
    assert_eq!(join(Style::Unix, "", ""), "");
    assert_eq!(join(Style::Unix, "a\\", "b"), "a\\/b");
}

#[test]
fn what_is_joined_always_lies_below_the_base() {
    assert_eq!(join(Style::Unix, "/home/alice", "/etc"), "/home/alice//etc");
    assert_eq!(join(Style::Unix, "/home/alice/", "/etc"), "/home/alice//etc");
    assert_eq!(join(Style::Unix, "", "/etc"), "/etc");
    assert_eq!(join(Style::Windows, "C:\\Users", "D:\\Data"), "C:\\Users\\D:\\Data");
    assert_eq!(
        join(Style::Windows, "C:\\Users", "\\\\server\\share"),
        "C:\\Users\\\\\\server\\share"
    );
    for base in texts_up_to(&['/', '.', 'a'], 3) {
        for rel in texts_up_to(&['/', '.', 'a'], 3) {
            let joined = join(Style::Unix, &base, &rel);
            assert!(joined.starts_with(&base), "{:?} {:?}", base, rel);
            assert!(joined.ends_with(&rel), "{:?} {:?}", base, rel);
            assert!(Path::new(&joined).starts_with(&base), "{:?} {:?}", base, rel);
        }
    }
}

#[test]
fn unix_join_of_a_relative_path_agrees_with_the_standard_library() {
    let texts = texts_up_to(&['/', '.', 'a'], 4);
    for base in &texts {
        for rel in &texts {
            if rel.starts_with('/') {
                continue;
            }
            let expected = Path::new(base).join(rel);
            assert_eq!(
                join(Style::Unix, base, rel),
                expected.to_str().unwrap(),
                "{:?} {:?}",
                base,
                rel
            );
        }
    }
}

#[test]
fn windows_join_examples() {
    assert_eq!(
        join(Style::Windows, "C:\\Users\\Alice", "Foo Corp"),
        "C:\\Users\\Alice\\Foo Corp"
    );
    assert_eq!(join(Style::Windows, "C:\\Users\\Alice\\", "x"), "C:\\Users\\Alice\\x");
    assert_eq!(join(Style::Windows, "C:/Users/Alice/", "x"), "C:/Users/Alice/x");
    assert_eq!(join(Style::Windows, "", "Foo Corp"), "Foo Corp");
    assert_eq!(join(Style::Windows, "Foo Corp", "Bar App"), "Foo Corp\\Bar App");
    assert_eq!(join(Style::Windows, "C:\\Users", ""), "C:\\Users\\");
}

#[test]
fn pop_examples() {
    assert_eq!(pop("/home/alice/.local/share"), "/home/alice/.local");
    assert_eq!(pop("/a/b/./"), "/a");
    assert_eq!(pop("/a"), "/");
    assert_eq!(pop("/"), "/");
    assert_eq!(pop(""), "");
    assert_eq!(pop("a"), "");
    assert_eq!(pop("."), "");
    assert_eq!(pop(".."), "");
    assert_eq!(pop("./a"), ".");
    assert_eq!(pop("a/b"), "a");
    assert_eq!(pop("a//b//"), "a");
    assert_eq!(pop("/a/.."), "/a");
    assert_eq!(pop("/."), "/.");
    assert_eq!(pop("//a"), "/");
}

#[test]
fn pop_agrees_with_the_standard_library() {
    for text in texts_up_to(&['/', '.', 'a'], 8) {
        let mut expected = PathBuf::from(&text);
        expected.pop();
        assert_eq!(pop(&text), expected.to_str().unwrap(), "{:?}", text);
    }
}

#[test]
fn pop_passes_over_characters_of_several_bytes() {
    assert_eq!(pop("/home/zoë/données"), "/home/zoë");
    assert_eq!(pop("/home/zoë/"), "/home");
    let mut expected = PathBuf::from("/дом/алиса/./");
    expected.pop();
    assert_eq!(pop("/дом/алиса/./"), expected.to_str().unwrap());
}

#[test]
fn keep_absolute_drops_what_is_not_absolute() {
    let absolute = Some(String::from("/run/user/1001"));
    assert_eq!(keep_absolute(Style::Unix, &absolute), absolute);
    assert_eq!(keep_absolute(Style::Windows, &absolute), None);
    assert_eq!(keep_absolute(Style::Unix, &Some(String::from("run"))), None);
    assert_eq!(keep_absolute(Style::Unix, &Some(String::new())), None);
    assert_eq!(keep_absolute(Style::Unix, &None), None);
    let folder = Some(String::from("C:\\Users\\Alice"));
    assert_eq!(keep_absolute(Style::Windows, &folder), folder);
    assert_eq!(keep_absolute(Style::Unix, &folder), None);
}
