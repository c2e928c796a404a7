use cowfarg::material::{ensure, MatRegistry};

fn chars(s: &str) -> Vec<char> {
    s.chars().collect()
}

#[test]
fn ensure_registers_a_material_with_its_sprite_path() {
    let mut reg = MatRegistry::new();
    assert!(reg.lookup("apples").is_none());
    ensure(&mut reg, "apples");
    let mat = reg.lookup("apples").expect("apples should be registered");
    assert_eq!(mat.spr, chars("materials/apples"));
    assert_eq!(reg.len(), 1);
}

#[test]
fn ensure_never_duplicates_a_name() {
    let mut reg = MatRegistry::new();
    ensure(&mut reg, "ore");
    ensure(&mut reg, "ore");
    ensure(&mut reg, "ore");
    assert_eq!(reg.len(), 1);
    ensure(&mut reg, "lumber");
    assert_eq!(reg.len(), 2);
    assert_eq!(reg.lookup("ore").unwrap().spr, chars("materials/ore"));
    assert_eq!(reg.lookup("lumber").unwrap().spr, chars("materials/lumber"));
}

#[test]
fn lookup_misses_unregistered_names() {
    let mut reg = MatRegistry::new();
    ensure(&mut reg, "grains");
    assert!(reg.lookup("sheeps").is_none());
    assert!(reg.lookup("grain").is_none());
}
