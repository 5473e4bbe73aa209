use squad_tracer::component::{Component, MethodDescription, TraitDescription};

trait Counter {
    fn get(&self) -> u32;
    fn bump(&mut self);
}

struct Simple {
    n: u32,
}

impl Counter for Simple {
    fn get(&self) -> u32 {
        self.n
    }

    fn bump(&mut self) {
        self.n += 1;
    }
}

static DESCRIPTION: TraitDescription<u8> = TraitDescription { module: "tests", trait_name: "Counter", metadata: 7 };

#[test]
fn component_reaches_its_implementation() {
    let mut c: Component<dyn Counter> = Component::new(Box::new(Simple { n: 4 }), &DESCRIPTION);
    assert_eq!(c.get(), 4);
    c.bump();
    assert_eq!(c.get(), 5);
    let m = MethodDescription { module: "tests", trait_name: "Counter", method_name: "bump", metadata: 1u8 };
    assert_eq!(m.method_name, "bump");
    assert_eq!(DESCRIPTION.metadata, 7);
}
