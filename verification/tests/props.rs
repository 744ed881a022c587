use stable_identifier::tiny_id::TinyId;
use stable_identifier::{IdDomain, IdDomainExt, StableId};

struct Session;

impl IdDomain for Session {
    const NAME: &'static str = "Session";
    type Backing = String;
    type Generator = ();
    type ConstRepr = ();
}

struct Asset;

impl IdDomain for Asset {
    const NAME: &'static str = "Asset";
    type Backing = TinyId<12>;
    type Generator = ();
    type ConstRepr = ();
}

#[test]
fn new_then_into_backing_returns_the_value() {
    let value = "session-7".to_string();
    let id: StableId<Session> = StableId::new(value.clone());
    assert_eq!(id.into_backing(), value);

    let value = TinyId::<12>::from_bytes(b"asset-3");
    let id: StableId<Asset> = StableId::new(value);
    assert!(id.into_backing() == value);
}

#[test]
fn backing_reads_the_payload() {
    let id = Session::new_id("alpha".to_string());
    assert_eq!(id.backing(), "alpha");
}

#[test]
fn comparison_delegates_to_the_backing() {
    let a = Session::new_id("alpha".to_string());
    let b = Session::new_id("beta".to_string());
    assert!(a < b);
    assert!(a == a.clone());
    assert!(a != b);
}
