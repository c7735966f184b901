use emu6502::cpu::flags::Status;

#[test]
fn default_status_has_every_flag_cleared() {
    let status = Status::default();
    assert!(!status.carry());
    assert!(!status.zero());
    assert!(!status.interrupt_disable());
    assert!(!status.decimal());
    assert!(!status.break_command());
    assert!(!status.overflow());
    assert!(!status.negative());
    assert_eq!(status, Status::new());
}

#[test]
fn builders_preset_only_their_flag() {
    let status = Status::default().with_interrupt_disable(true).with_carry(true);
    assert!(status.carry());
    assert!(status.interrupt_disable());
    assert!(!status.zero());
    assert!(!status.decimal());
    assert!(!status.break_command());
    assert!(!status.overflow());
    assert!(!status.negative());

    assert!(Status::default().with_zero(true).zero());
    assert!(Status::default().with_decimal(true).decimal());
    assert!(Status::default().with_break_command(true).break_command());
    assert!(Status::default().with_overflow(true).overflow());
    assert!(Status::default().with_negative(true).negative());
    assert_eq!(Status::default().with_negative(true).with_negative(false), Status::default());
}

#[test]
fn each_setter_changes_exactly_one_flag() {
    let setters: [fn(&mut Status, bool); 7] = [
        Status::set_carry,
        Status::set_zero,
        Status::set_interrupt_disable,
        Status::set_decimal,
        Status::set_break_command,
        Status::set_overflow,
        Status::set_negative,
    ];
    let getters: [fn(&Status) -> bool; 7] = [
        Status::carry,
        Status::zero,
        Status::interrupt_disable,
        Status::decimal,
        Status::break_command,
        Status::overflow,
        Status::negative,
    ];
    for base in [false, true] {
        for i in 0..7 {
            let mut status = Status::default();
            for set in setters.iter() {
                set(&mut status, base);
            }
            setters[i](&mut status, !base);
            for (j, get) in getters.iter().enumerate() {
                assert_eq!(get(&status), if i == j { !base } else { base });
            }
        }
    }
}
