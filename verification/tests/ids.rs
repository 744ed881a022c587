use stable_identifier::{GenerateIdStateless, IdDomain, IdDomainExt, IdentifyAs, StableId};

struct NanoIdGen;

impl GenerateIdStateless<StableId<Dog>> for NanoIdGen {
    fn generate_id() -> StableId<Dog> {
        StableId::new(nanoid::format(
            nanoid::rngs::default,
            &nanoid::alphabet::SAFE,
            21,
        ))
    }
}

// Dog is both the data container and the identifier domain at once.
struct Dog {
    id: DogId,
}

type DogId = StableId<Dog>;

impl IdDomain for Dog {
    const NAME: &'static str = "Dog";
    type Backing = String;
    type Generator = NanoIdGen;
    type ConstRepr = &'static str;
}

impl IdentifyAs<Dog> for Dog {
    fn identify_as(&self) -> DogId {
        self.id.clone()
    }
}

#[test]
fn generate_and_identify() {
    let dog = Dog {
        id: Dog::generate_id(),
    };

    let dog_id = dog.identify_as();
    assert!(dog_id == dog.id);
}

struct Basic;

impl IdDomain for Basic {
    const NAME: &'static str = "basic";
    type Backing = String;
    type Generator = ();
    type ConstRepr = ();
}

#[test]
fn basic_id() {
    // --- this works!
    let basic_id = Basic::new_id("hello world".to_string());
    assert!(basic_id == Basic::new_id("hello world".to_string()));

    // --- this does not exist, because () has no generation capability!
    // let basic_id = Basic::generate_id();
}
