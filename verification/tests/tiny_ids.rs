use stable_identifier::tiny_id::{TinyId, TinyIdGen};
use stable_identifier::{IdDomain, IdDomainExt};

struct Bird;

impl IdDomain for Bird {
    const NAME: &'static str = "Bird";
    type Backing = TinyId<16>;
    type Generator = TinyIdGen<16>;
    type ConstRepr = ();
}

#[test]
fn has_correct_length() {
    let new_bird_id = Bird::generate_id();
    assert_eq!(new_bird_id.backing().len(), 16);
}

#[test]
fn from_bytes_truncates_and_pads() {
    // Shorter than the capacity: zero-padded, length is the input length.
    let id = TinyId::<8>::from_bytes(b"abc");
    assert_eq!(id.len(), 3);
    assert_eq!(id.as_bytes(), &[97, 98, 99, 0, 0, 0, 0, 0]);
    assert_eq!(id.as_bytes().len(), 8);

    // Longer than the capacity: silently truncated, length is the capacity.
    let id = TinyId::<8>::from_bytes(b"abcdefghij");
    assert_eq!(id.len(), 8);
    assert_eq!(id.as_bytes(), b"abcdefgh");
    assert_eq!(id.as_bytes().len(), 8);
}

#[test]
fn from_bytes_empty_is_empty() {
    let id = TinyId::<8>::from_bytes(&[]);
    assert!(id.is_empty());
    assert_eq!(id.len(), 0);
    assert_eq!(id.as_bytes().len(), 8);
    assert_eq!(id.as_str(), "");
}

#[test]
fn len_counts_up_to_first_nul() {
    // An interior null byte ends the counted length, but `as_str` only
    // trims the trailing run of null bytes.
    let id = TinyId::<8>::from_bytes(b"a\0b");
    assert_eq!(id.len(), 1);
    assert!(!id.is_empty());
    assert_eq!(id.as_str(), "a\0b");
}

#[test]
fn text_round_trip() {
    let id = TinyId::<16>::from_bytes("weiße Taube".as_bytes());
    let reparsed: TinyId<16> = id.as_str().parse().unwrap();
    assert!(reparsed == id);
    assert_eq!(reparsed.as_str(), "weiße Taube");

    let generated = Bird::generate_id().into_backing();
    let reparsed: TinyId<16> = generated.as_str().parse().unwrap();
    assert!(reparsed == generated);
}

struct LongBird;

impl IdDomain for LongBird {
    const NAME: &'static str = "Bird";
    type Backing = TinyId<21>;
    type Generator = TinyIdGen<21>;
    type ConstRepr = ();
}

#[test]
fn no_collision_among_many_draws() {
    let mut seen = std::collections::HashSet::new();
    for _ in 0..10_000 {
        let id = LongBird::generate_id().into_backing();
        assert_eq!(id.len(), 21);
        assert!(seen.insert(id));
    }
}
