use faiss_io::io_flags::IoFlags;

#[test]
fn default_flags_are_the_zero_code() {
    assert_eq!(IoFlags::default().to_code(), 0);
    assert_eq!(IoFlags::mem_resident().to_code(), 0);
    assert_eq!(IoFlags::default(), IoFlags::mem_resident());
}

#[test]
fn single_flag_codes() {
    assert_eq!(IoFlags::mem_map().to_code(), 1);
    assert_eq!(IoFlags::read_only().to_code(), 2);
}

#[test]
fn combined_code_distinct_from_parts_and_default() {
    let combined = IoFlags::mem_map().or(IoFlags::read_only());
    assert_eq!(combined.to_code(), 3);
    assert_ne!(combined.to_code(), IoFlags::mem_map().to_code());
    assert_ne!(combined.to_code(), IoFlags::read_only().to_code());
    assert_ne!(combined.to_code(), IoFlags::default().to_code());
}

#[test]
fn composition_is_commutative_on_the_flags() {
    let a = IoFlags::mem_map();
    let b = IoFlags::read_only();
    assert_eq!(a.or(b), b.or(a));
}

#[test]
fn composition_is_associative_on_the_flags() {
    let a = IoFlags::mem_map();
    let b = IoFlags::read_only();
    let c = IoFlags::mem_resident();
    assert_eq!(a.or(b).or(c), a.or(b.or(c)));
}

#[test]
fn default_is_the_identity_of_composition() {
    let d = IoFlags::default();
    for f in [IoFlags::mem_resident(), IoFlags::mem_map(), IoFlags::read_only()] {
        assert_eq!(d.or(f), f);
        assert_eq!(f.or(d), f);
    }
}

#[test]
fn composition_is_idempotent_per_flag() {
    let m = IoFlags::mem_map();
    assert_eq!(m.or(m), m);
}
