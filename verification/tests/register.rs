use segment_clock::register::TimeRegister;

#[test]
fn a_new_register_holds_its_initial_value() {
    assert_eq!(TimeRegister::new(0).load(), 0);
    assert_eq!(TimeRegister::new(1234).load(), 1234);
}

#[test]
fn a_load_gives_the_last_value_stored() {
    let register = TimeRegister::new(0);
    for value in [1u16, 2359, 0x00ff, 0xff00, 0xa5a5, 0x5a5a, u16::MAX, 0] {
        register.store(value);
        assert_eq!(register.load(), value);
        assert_eq!(register.load(), value);
    }
}

#[test]
fn store_does_not_need_exclusive_access() {
    let register = TimeRegister::new(7);
    let writer = &register;
    let reader = &register;
    writer.store(1200);
    assert_eq!(reader.load(), 1200);
}

#[test]
fn interleaved_loads_see_only_stored_values() {
    let register = TimeRegister::new(0x0000);
    let writer = &register;
    let reader = &register;
    let patterns = [0x0000u16, 0xffff, 0x00ff, 0xff00, 0xa5a5, 0x5a5a];
    let mut stored = vec![0x0000u16];
    for round in 0..6_000usize {
        if round % 3 != 2 {
            let value = patterns[(round / 3 + round) % patterns.len()];
            writer.store(value);
            stored.push(value);
        }
        let seen = reader.load();
        assert!(stored.contains(&seen));
        assert_eq!(seen, *stored.last().unwrap());
    }
}
