use tray_shell::flag::AlwaysOnTopFlag;

#[test]
fn flag_starts_on() {
    let flag = AlwaysOnTopFlag::new();
    assert!(flag.read());
}

#[test]
fn toggle_returns_the_new_value() {
    let mut flag = AlwaysOnTopFlag::new();
    assert_eq!(flag.toggle(), false);
    assert_eq!(flag.read(), false);
    assert_eq!(flag.toggle(), true);
    assert_eq!(flag.read(), true);
}

#[test]
fn read_leaves_the_flag_alone() {
    let mut flag = AlwaysOnTopFlag::new();
    flag.toggle();
    assert_eq!(flag.read(), false);
    assert_eq!(flag.read(), false);
    assert_eq!(flag, {
        let mut other = AlwaysOnTopFlag::new();
        other.toggle();
        other
    });
}

#[test]
fn toggles_count_by_parity() {
    for n in [0usize, 1, 2, 3, 7, 10, 101, 1000] {
        let mut flag = AlwaysOnTopFlag::new();
        let initial = flag.read();
        for _ in 0..n {
            flag.toggle();
        }
        assert_eq!(flag.read(), initial ^ (n % 2 == 1), "after {} toggles", n);
    }
}

#[test]
fn toggles_count_by_parity_from_off() {
    for n in [0usize, 1, 2, 5, 64] {
        let mut flag = AlwaysOnTopFlag::new();
        flag.toggle();
        let initial = flag.read();
        assert!(!initial);
        for _ in 0..n {
            flag.toggle();
        }
        assert_eq!(flag.read(), initial ^ (n % 2 == 1), "after {} toggles", n);
    }
}
