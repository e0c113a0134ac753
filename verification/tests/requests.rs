use host_bridge::bridge::{deliver, read_utf8_string, Outcome};
use host_bridge::fault::{BridgeError, Utf8Fault};
use host_bridge::status::FAILURE;

fn memory_with(at: usize, bytes: &[u8], extent: usize) -> Vec<u8> {
    let mut memory = vec![0xAAu8; extent];
    memory[at..at + bytes.len()].copy_from_slice(bytes);
    memory
}

#[test]
fn hello_world_is_accepted_with_status_14() {
    let message = "Hello, World!\n";
    assert_eq!(message.len(), 14);
    let memory = memory_with(1024, message.as_bytes(), 65536);
    let outcome = read_utf8_string(&memory, 1024, 14);
    assert_eq!(
        outcome,
        Outcome::Accepted { text: String::from("Hello, World!\n"), consumed: 14 }
    );
    assert_eq!(outcome.status(), 14);
    assert_eq!(outcome.text(), Some("Hello, World!\n"));
    assert_eq!(outcome.error(), None);
}

#[test]
fn valid_text_anywhere_inside_is_returned_with_its_length() {
    let text = "gr\u{fc}\u{df}e, \u{4e16}\u{754c} \u{1f600}";
    let bytes = text.as_bytes();
    let extent = 256;
    for at in [0usize, 1, 100, extent - bytes.len()] {
        let memory = memory_with(at, bytes, extent);
        let outcome = read_utf8_string(&memory, at as u32, bytes.len() as u32);
        assert_eq!(outcome.text(), Some(text));
        assert_eq!(outcome.status(), bytes.len() as i32);
        match outcome {
            Outcome::Accepted { text, consumed } => {
                assert_eq!(text.as_bytes(), bytes);
                assert_eq!(consumed, bytes.len());
            }
            Outcome::Refused { .. } => panic!("a valid request was refused"),
        }
    }
}

#[test]
fn a_part_of_a_longer_text_is_returned_alone() {
    let memory = memory_with(0, b"Hello, World!\n", 14);
    let outcome = read_utf8_string(&memory, 7, 5);
    assert_eq!(outcome.text(), Some("World"));
    assert_eq!(outcome.status(), 5);
}

#[test]
fn range_that_ends_at_the_extent_is_accepted() {
    let memory = memory_with(12, b"tail", 16);
    let outcome = read_utf8_string(&memory, 12, 4);
    assert_eq!(outcome, Outcome::Accepted { text: String::from("tail"), consumed: 4 });
}

#[test]
fn range_one_byte_past_the_extent_is_refused() {
    let memory = memory_with(12, b"tail", 16);
    let outcome = read_utf8_string(&memory, 12, 5);
    assert_eq!(outcome, Outcome::Refused { error: BridgeError::OutOfBounds });
    assert_eq!(outcome.status(), -1);
    assert_eq!(outcome.text(), None);
    assert_eq!(outcome.error(), Some(BridgeError::OutOfBounds));
}

#[test]
fn range_beyond_the_extent_is_refused() {
    let memory = vec![b'a'; 64];
    for (offset, length) in [(64u32, 1u32), (65, 0), (0, 65), (63, 2), (1000, 10), (0, u32::MAX)] {
        let outcome = read_utf8_string(&memory, offset, length);
        assert_eq!(outcome, Outcome::Refused { error: BridgeError::OutOfBounds });
        assert!(outcome.status() < 0);
        assert_eq!(outcome.text(), None);
    }
}

#[test]
fn empty_request_is_accepted_with_status_0() {
    let memory = vec![0xFFu8; 32];
    for offset in [0u32, 1, 31, 32] {
        let outcome = read_utf8_string(&memory, offset, 0);
        assert_eq!(outcome, Outcome::Accepted { text: String::new(), consumed: 0 });
        assert_eq!(outcome.status(), 0);
        assert_eq!(outcome.text(), Some(""));
    }
}

#[test]
fn empty_request_on_empty_memory_is_accepted() {
    let memory: Vec<u8> = Vec::new();
    let outcome = read_utf8_string(&memory, 0, 0);
    assert_eq!(outcome, Outcome::Accepted { text: String::new(), consumed: 0 });
    assert_eq!(read_utf8_string(&memory, 1, 0), Outcome::Refused { error: BridgeError::OutOfBounds });
}

#[test]
fn same_request_gives_the_same_outcome() {
    let memory = memory_with(3, b"again", 16);
    let first = read_utf8_string(&memory, 3, 5);
    let second = read_utf8_string(&memory, 3, 5);
    assert_eq!(first, second);
    assert_eq!(read_utf8_string(&memory, 3, 0), read_utf8_string(&memory, 3, 0));
}

#[test]
fn overflowing_sum_is_refused() {
    let memory = vec![b'a'; 64];
    let outcome = read_utf8_string(&memory, u32::MAX, 1);
    assert_eq!(outcome, Outcome::Refused { error: BridgeError::OutOfBounds });
    assert_eq!(outcome.status(), FAILURE);
    for (offset, length) in [(u32::MAX, u32::MAX), (1, u32::MAX), (0x8000_0000, 0x8000_0000), (32, u32::MAX - 31)] {
        let outcome = read_utf8_string(&memory, offset, length);
        assert_eq!(outcome, Outcome::Refused { error: BridgeError::OutOfBounds });
        assert_eq!(outcome.text(), None);
    }
}

#[test]
fn wrapped_sum_that_would_land_inside_is_refused() {
    // 0xFFFF_FFF0 + 0x20 wraps to 0x10, which lies inside the memory.
    let memory = vec![b'a'; 64];
    let outcome = read_utf8_string(&memory, 0xFFFF_FFF0, 0x20);
    assert_eq!(outcome, Outcome::Refused { error: BridgeError::OutOfBounds });
}

#[test]
fn invalid_byte_is_refused_with_its_position() {
    let memory = memory_with(8, &[b'o', b'k', 0xFF, b'!'], 32);
    let outcome = read_utf8_string(&memory, 8, 4);
    let fault = Utf8Fault { valid_up_to: 2, error_len: Some(1) };
    assert_eq!(outcome, Outcome::Refused { error: BridgeError::InvalidEncoding(fault) });
    assert_eq!(outcome.status(), -1);
    assert_eq!(outcome.text(), None);
    assert_eq!(outcome.error(), Some(BridgeError::InvalidEncoding(fault)));
}

#[test]
fn character_cut_by_the_end_of_the_range_is_refused() {
    // The euro sign takes three bytes; the range stops after two of them.
    let memory = memory_with(0, "a\u{20ac}".as_bytes(), 8);
    let whole = read_utf8_string(&memory, 0, 4);
    assert_eq!(whole.text(), Some("a\u{20ac}"));
    let cut = read_utf8_string(&memory, 0, 3);
    let fault = Utf8Fault { valid_up_to: 1, error_len: None };
    assert_eq!(cut, Outcome::Refused { error: BridgeError::InvalidEncoding(fault) });
    assert!(cut.status() < 0);
}

#[test]
fn range_that_starts_inside_a_character_is_refused() {
    let memory = memory_with(0, "\u{20ac}uro".as_bytes(), 8);
    let outcome = read_utf8_string(&memory, 1, 5);
    let fault = Utf8Fault { valid_up_to: 0, error_len: Some(1) };
    assert_eq!(outcome, Outcome::Refused { error: BridgeError::InvalidEncoding(fault) });
}

#[test]
fn overlong_and_surrogate_encodings_are_refused() {
    for bytes in [vec![0xC0u8, 0x80], vec![0xED, 0xA0, 0x80], vec![0xF4, 0x90, 0x80, 0x80], vec![0x80]] {
        let outcome = read_utf8_string(&bytes, 0, bytes.len() as u32);
        match outcome {
            Outcome::Refused { error: BridgeError::InvalidEncoding(fault) } => {
                assert_eq!(fault.valid_up_to, 0);
                assert_eq!(fault.error_len, Some(1));
            }
            other => panic!("expected an encoding error, got {:?}", other),
        }
    }
}

#[test]
fn bounds_are_validated_before_the_encoding() {
    let memory = vec![0xFFu8; 16];
    assert_eq!(read_utf8_string(&memory, 8, 9), Outcome::Refused { error: BridgeError::OutOfBounds });
    assert!(matches!(
        read_utf8_string(&memory, 8, 8),
        Outcome::Refused { error: BridgeError::InvalidEncoding(_) }
    ));
}

#[test]
fn deliver_decodes_the_copied_bytes() {
    let outcome = deliver(vec![0xE2, 0x82, 0xAC]);
    assert_eq!(outcome, Outcome::Accepted { text: String::from("\u{20ac}"), consumed: 3 });
    assert_eq!(outcome.status(), 3);
    assert_eq!(deliver(Vec::new()), Outcome::Accepted { text: String::new(), consumed: 0 });
}

#[test]
fn deliver_refuses_bytes_that_are_not_text() {
    let outcome = deliver(vec![b'a', b'b', 0xE2, 0x28, 0xA1]);
    let fault = Utf8Fault { valid_up_to: 2, error_len: Some(1) };
    assert_eq!(outcome, Outcome::Refused { error: BridgeError::InvalidEncoding(fault) });
    assert_eq!(outcome.status(), FAILURE);
}

#[test]
fn settle_keeps_the_text_and_the_count() {
    let outcome = Outcome::settle(5, Ok(String::from("hello")));
    assert_eq!(outcome, Outcome::Accepted { text: String::from("hello"), consumed: 5 });
    assert_eq!(outcome.status(), 5);
    let fault = Utf8Fault { valid_up_to: 7, error_len: None };
    let refused = Outcome::settle(9, Err(fault));
    assert_eq!(refused, Outcome::Refused { error: BridgeError::InvalidEncoding(fault) });
    assert_eq!(refused.status(), -1);
    assert_eq!(refused.error(), Some(BridgeError::InvalidEncoding(fault)));
}

#[test]
fn guest_memory_is_not_kept() {
    let mut memory = memory_with(0, b"before", 8);
    let outcome = read_utf8_string(&memory, 0, 6);
    memory[..6].copy_from_slice(b"after!");
    assert_eq!(outcome.text(), Some("before"));
    assert_eq!(read_utf8_string(&memory, 0, 6).text(), Some("after!"));
}

#[test]
fn request_through_a_callback_copies_only_the_range() {
    let memory = memory_with(100, b"Hello, World!\n", 256);
    let asked = std::cell::Cell::new(None);
    let outcome = host_bridge::bridge::read_utf8_string_with(memory.len(), 100, 14, |start, end| {
        asked.set(Some((start, end)));
        memory[start..end].to_vec()
    });
    assert_eq!(asked.get(), Some((100, 114)));
    assert_eq!(outcome, Outcome::Accepted { text: String::from("Hello, World!\n"), consumed: 14 });
    assert_eq!(outcome.status(), 14);
}

#[test]
fn refused_request_never_reaches_the_callback() {
    let memory = vec![b'a'; 64];
    for (offset, length) in [(64u32, 1u32), (0, 65), (u32::MAX, 1), (0xFFFF_FFF0, 0x20)] {
        let called = std::cell::Cell::new(false);
        let outcome = host_bridge::bridge::read_utf8_string_with(memory.len(), offset, length, |start, end| {
            called.set(true);
            memory[start..end].to_vec()
        });
        assert!(!called.get());
        assert_eq!(outcome, Outcome::Refused { error: BridgeError::OutOfBounds });
        assert_eq!(outcome.status(), -1);
    }
}

#[test]
fn callback_and_snapshot_agree() {
    let memory = memory_with(4, &[b'o', b'k', 0xE2, 0x82, 0xAC, 0xFF], 16);
    for (offset, length) in [(4u32, 2u32), (4, 5), (4, 6), (4, 4), (6, 3), (10, 0), (16, 0), (16, 1), (0, 17)] {
        let through_callback =
            host_bridge::bridge::read_utf8_string_with(memory.len(), offset, length, |start, end| {
                memory[start..end].to_vec()
            });
        assert_eq!(through_callback, read_utf8_string(&memory, offset, length));
    }
}

#[test]
fn bytes_through_a_callback_are_returned_as_they_are() {
    let memory: Vec<u8> = (0u8..=255).collect();
    let bytes = host_bridge::bridge::read_bytes_with(memory.len(), 250, 6, |start, end| memory[start..end].to_vec());
    assert_eq!(bytes, Ok(vec![250, 251, 252, 253, 254, 255]));
    let none = host_bridge::bridge::read_bytes_with(memory.len(), 256, 0, |start, end| memory[start..end].to_vec());
    assert_eq!(none, Ok(Vec::new()));
}

#[test]
fn bytes_beyond_the_extent_are_not_fetched() {
    let memory: Vec<u8> = (0u8..=255).collect();
    for (offset, length) in [(250u32, 7u32), (257, 0), (u32::MAX, 1), (2, u32::MAX)] {
        let called = std::cell::Cell::new(false);
        let bytes = host_bridge::bridge::read_bytes_with(memory.len(), offset, length, |_, _| {
            called.set(true);
            Vec::new()
        });
        assert_eq!(bytes, Err(BridgeError::OutOfBounds));
        assert!(!called.get());
    }
}
