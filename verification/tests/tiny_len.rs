use stable_identifier::tiny_id::TinyId;
use stable_identifier::{IdDomain, IdDomainExt};

struct Bird;

impl IdDomain for Bird {
    const NAME: &'static str = "Bird";
    type Backing = TinyId<16>;
    type Generator = ();
    type ConstRepr = ();
}

#[test]
fn len_works() {
    let new_bird_id = Bird::new_id("short");
    assert_eq!(new_bird_id.backing().len(), 5);
}
