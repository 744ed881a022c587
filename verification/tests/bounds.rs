use stable_identifier::{IdDomain, IdDomainExt};

struct NanoIdGen;

struct Dog;

impl IdDomain for Dog {
    const NAME: &'static str = "Dog";
    type Backing = String;
    type Generator = NanoIdGen;
    type ConstRepr = ();
}

struct Cat;

impl IdDomain for Cat {
    const NAME: &'static str = "Cat";
    type Backing = String;
    type Generator = NanoIdGen;
    type ConstRepr = ();
}

#[test]
fn bevy_domain_bounds() {
    let dog_id = Dog::new_id("hans".to_string());
    let cat_id = Cat::new_id("hans".to_string());
    assert!(dog_id == dog_id);
    assert!(cat_id == cat_id);
    // compiler does not allow eq because StableId<Dog> and StableId<Cat> are different types :)
    // assert!(dog_id == cat_id);
}
