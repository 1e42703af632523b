use handbrake_paths::unix_path::SEPARATOR;
use handbrake_paths::{is_absolute, join};
use std::path::Path;

const SAMPLES: [&str; 14] = [
    "",
    "/",
    "//",
    "a",
    "a/",
    "/a",
    "/a/",
    ".config",
    ".local/.share",
    "/home/alice",
    "/home/alice/",
    "handbrake.socket",
    "./x",
    "h\u{e9}/\u{4e2d}",
];

fn std_join(base: &str, part: &str) -> Vec<u8> {
    Path::new(base).join(part).to_str().unwrap().as_bytes().to_vec()
}

#[test]
fn separator_is_a_slash() {
    assert_eq!(SEPARATOR, b'/');
    assert_eq!(char::from(SEPARATOR), std::path::MAIN_SEPARATOR);
}

#[test]
fn is_absolute_looks_at_the_first_byte() {
    assert!(is_absolute(b"/"));
    assert!(is_absolute(b"/home"));
    assert!(is_absolute(b"//"));
    assert!(!is_absolute(b""));
    assert!(!is_absolute(b"home"));
    assert!(!is_absolute(b"home/"));
    assert!(!is_absolute(b".config"));
    assert!(!is_absolute(&[0xff, 0x2f]));
}

#[test]
fn is_absolute_agrees_with_std() {
    for sample in SAMPLES {
        assert_eq!(is_absolute(sample.as_bytes()), Path::new(sample).is_absolute());
    }
}

#[test]
fn join_puts_one_separator_between() {
    assert_eq!(join(b"/home/alice", b".config"), b"/home/alice/.config".to_vec());
    assert_eq!(join(b"a", b"b"), b"a/b".to_vec());
}

#[test]
fn join_adds_no_separator_after_one() {
    assert_eq!(join(b"/", b".config"), b"/.config".to_vec());
    assert_eq!(join(b"/home/alice/", b".config"), b"/home/alice/.config".to_vec());
    assert_eq!(join(b"a//", b"b"), b"a//b".to_vec());
}

#[test]
fn join_to_the_empty_path_is_the_part() {
    assert_eq!(join(b"", b".config"), b".config".to_vec());
    assert_eq!(join(b"", b""), Vec::<u8>::new());
    assert_eq!(join(b"", b"/x"), b"/x".to_vec());
}

#[test]
fn join_of_the_empty_path_ends_in_a_separator() {
    assert_eq!(join(b"/home/alice", b""), b"/home/alice/".to_vec());
    assert_eq!(join(b"/home/alice/", b""), b"/home/alice/".to_vec());
    assert_eq!(join(b"/", b""), b"/".to_vec());
}

#[test]
fn join_of_an_absolute_path_replaces_the_base() {
    assert_eq!(join(b"/home/alice", b"/etc"), b"/etc".to_vec());
    assert_eq!(join(b"", b"/"), b"/".to_vec());
    assert_eq!(join(b"relative", b"//x"), b"//x".to_vec());
}

#[test]
fn join_keeps_bytes_that_are_not_text() {
    assert_eq!(join(&[0xff, 0x00], &[0x80]), vec![0xff, 0x00, 0x2f, 0x80]);
}

#[test]
fn join_agrees_with_std() {
    for base in SAMPLES {
        for part in SAMPLES {
            assert_eq!(
                join(base.as_bytes(), part.as_bytes()),
                std_join(base, part),
                "{:?} joined with {:?}",
                base,
                part
            );
        }
    }
}

#[test]
fn join_is_absolute_when_a_side_is() {
    for base in SAMPLES {
        for part in SAMPLES {
            let whole = join(base.as_bytes(), part.as_bytes());
            assert_eq!(
                is_absolute(&whole),
                is_absolute(base.as_bytes()) || is_absolute(part.as_bytes())
            );
        }
    }
}

#[test]
fn join_ends_with_the_part() {
    for base in SAMPLES {
        for part in SAMPLES {
            assert!(join(base.as_bytes(), part.as_bytes()).ends_with(part.as_bytes()));
        }
    }
}

#[test]
fn join_of_a_relative_part_keeps_the_base() {
    for base in SAMPLES {
        for part in SAMPLES {
            if !is_absolute(part.as_bytes()) {
                let whole = join(base.as_bytes(), part.as_bytes());
                assert!(whole.starts_with(base.as_bytes()));
                assert!(whole.len() >= base.len() + part.len());
                assert!(whole.len() <= base.len() + part.len() + 1);
            }
        }
    }
}

#[test]
fn join_can_be_grouped_either_way() {
    for base in SAMPLES {
        for middle in SAMPLES {
            for part in SAMPLES {
                assert_eq!(
                    join(&join(base.as_bytes(), middle.as_bytes()), part.as_bytes()),
                    join(base.as_bytes(), &join(middle.as_bytes(), part.as_bytes()))
                );
            }
        }
    }
}
