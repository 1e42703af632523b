use handbrake_paths::export::write_path;
use handbrake_paths::{socket_path, Environment};

#[test]
fn path_goes_to_the_front_of_a_larger_buffer() {
    let mut buffer = [0xaa_u8; 8];
    assert_eq!(write_path(b"/run", &mut buffer), 4);
    assert_eq!(buffer, [0x2f, 0x72, 0x75, 0x6e, 0xaa, 0xaa, 0xaa, 0xaa]);
}

#[test]
fn path_fills_a_buffer_of_its_size() {
    let mut buffer = [0_u8; 4];
    assert_eq!(write_path(b"/run", &mut buffer), 4);
    assert_eq!(&buffer, b"/run");
}

#[test]
fn buffer_that_is_too_small_is_left_alone() {
    let mut buffer = [0xaa_u8; 3];
    assert_eq!(write_path(b"/run", &mut buffer), 4);
    assert_eq!(buffer, [0xaa, 0xaa, 0xaa]);
}

#[test]
fn no_buffer_at_all_still_tells_the_length() {
    let mut buffer: [u8; 0] = [];
    assert_eq!(write_path(b"/run", &mut buffer), 4);
}

#[test]
fn empty_path_writes_nothing() {
    let mut buffer = [0xaa_u8; 2];
    assert_eq!(write_path(b"", &mut buffer), 0);
    assert_eq!(buffer, [0xaa, 0xaa]);
}

#[test]
fn socket_path_through_a_buffer() {
    let env = Environment {
        home: Some(b"/home/alice".to_vec()),
        ..Environment::unset()
    };
    let path = socket_path(&env);
    let mut buffer = vec![0_u8; 64];
    let length = write_path(&path, &mut buffer);
    assert_eq!(length, 35);
    assert_eq!(&buffer[..length], b"/home/alice/.cache/handbrake.socket");
    assert!(buffer[length..].iter().all(|byte| *byte == 0));
}
