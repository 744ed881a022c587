use stable_identifier::{IdDomain, StableTypeId};

struct Tool;

impl IdDomain for Tool {
    const NAME: &'static str = "Tool";
    type Backing = String;
    type Generator = ();
    type ConstRepr = &'static str;
}

struct Saw;

impl StableTypeId<Tool> for Saw {
    const STABLE_TYPE_ID: &'static str = "saw";
}

struct Hammer;

impl StableTypeId<Tool> for Hammer {
    const STABLE_TYPE_ID: &'static str = "hammer";
}

struct Shovel;

impl StableTypeId<Tool> for Shovel {
    const STABLE_TYPE_ID: &'static str = "shovel";
}

#[test]
fn identify_id_of_types() {
    let saw_id = Saw::stable_type_id();
    let hammer_id = Hammer::stable_type_id();
    let shovel_id = Shovel::stable_type_id();

    assert!(saw_id != hammer_id);
    assert!(saw_id != shovel_id);
    assert!(hammer_id != shovel_id);
}
