use adafruit_mpr121::Mpr121TouchStatus;

#[test]
fn touch_status() {
    assert_eq!(Mpr121TouchStatus::first(), 0);
    assert_eq!(Mpr121TouchStatus::last(), 11);
    {
        let ts = Mpr121TouchStatus::new(0b101010101010);
        let mut tsi = ts.iter();
        for i in Mpr121TouchStatus::first()..=Mpr121TouchStatus::last() {
            let v = tsi.next();
            assert!(v.is_some());
            let v = v.unwrap();
            if i % 2 == 0 {
                assert!(!ts.touched(i));
                assert!(!v);
            } else {
                assert!(ts.touched(i));
                assert!(v);
            }
        }
        assert!(tsi.next().is_none());
    }
    {
        let ts = Mpr121TouchStatus::new(0b010101010101);
        let mut tsi = ts.iter();
        for i in Mpr121TouchStatus::first()..=Mpr121TouchStatus::last() {
            let v = tsi.next();
            assert!(v.is_some());
            let v = v.unwrap();
            if i % 2 == 1 {
                assert!(!ts.touched(i));
                assert!(!v);
            } else {
                assert!(ts.touched(i));
                assert!(v);
            }
        }
        assert!(tsi.next().is_none());
    }
}

fn walk(ts: &Mpr121TouchStatus) -> Vec<bool> {
    let mut flags = Vec::new();
    let mut it = ts.iter();
    while let Some(flag) = it.next() {
        flags.push(flag);
    }
    flags
}

#[test]
fn touched_is_the_bit_of_the_channel() {
    for v in [0u16, 1, 0x0800, 0x0FFF, 0xFFFF, 0xF000, 0x0A5A, 0x1234, 0x8001] {
        let ts = Mpr121TouchStatus::new(v);
        for c in 0u8..=11 {
            assert_eq!(ts.touched(c), (v >> c) & 1 != 0, "word {:#06x} channel {}", v, c);
        }
    }
}

#[test]
fn touched_single_channels() {
    let ts = Mpr121TouchStatus::new(0b0000_0000_0001);
    assert!(ts.touched(0));
    assert!(!ts.touched(1));
    let ts = Mpr121TouchStatus::new(0b1000_0000_0000);
    assert!(ts.touched(11));
    assert!(!ts.touched(10));
    assert!(!ts.touched(0));
}

#[test]
fn touched_out_of_range_is_false() {
    let ts = Mpr121TouchStatus::new(0xFFFF);
    for c in 12u8..=255 {
        assert!(!ts.touched(c), "channel {}", c);
    }
    assert!(ts.touched(11));
    let ts = Mpr121TouchStatus::new(0);
    for c in 0u8..=255 {
        assert!(!ts.touched(c));
    }
}

#[test]
fn reserved_bits_are_not_channels() {
    let ts = Mpr121TouchStatus::new(0xF000);
    for c in 0u8..=15 {
        assert!(!ts.touched(c));
    }
    assert_eq!(walk(&ts), vec![false; 12]);
}

#[test]
fn was_touched_is_nonzero() {
    assert!(!Mpr121TouchStatus::new(0).was_touched());
    assert!(Mpr121TouchStatus::new(1).was_touched());
    assert!(Mpr121TouchStatus::new(0x0800).was_touched());
    assert!(Mpr121TouchStatus::new(0xFFFF).was_touched());
    for v in 1u16..=0xFFFF {
        assert!(Mpr121TouchStatus::new(v).was_touched());
    }
}

#[test]
fn was_touched_counts_reserved_bits() {
    assert!(Mpr121TouchStatus::new(0x1000).was_touched());
    assert!(Mpr121TouchStatus::new(0x8000).was_touched());
}

#[test]
fn first_and_last() {
    assert_eq!(Mpr121TouchStatus::first(), 0);
    assert_eq!(Mpr121TouchStatus::last(), 11);
}

#[test]
fn walk_yields_twelve_flags_in_channel_order() {
    for v in [0u16, 1, 0x0800, 0x0FFF, 0xFFFF, 0xF000, 0x0A5A, 0x1234] {
        let ts = Mpr121TouchStatus::new(v);
        let flags = walk(&ts);
        assert_eq!(flags.len(), 12);
        for c in 0u8..12 {
            assert_eq!(flags[c as usize], ts.touched(c));
        }
    }
}

#[test]
fn walk_alternating_from_false() {
    let ts = Mpr121TouchStatus::new(0b101010101010);
    assert_eq!(
        walk(&ts),
        vec![false, true, false, true, false, true, false, true, false, true, false, true]
    );
}

#[test]
fn walk_alternating_from_true() {
    let ts = Mpr121TouchStatus::new(0b010101010101);
    assert_eq!(
        walk(&ts),
        vec![true, false, true, false, true, false, true, false, true, false, true, false]
    );
}

#[test]
fn walk_stays_finished() {
    let ts = Mpr121TouchStatus::new(0x0FFF);
    let mut it = ts.iter();
    for _ in 0..12 {
        assert_eq!(it.next(), Some(true));
    }
    for _ in 0..1000 {
        assert_eq!(it.next(), None);
    }
}

#[test]
fn walk_restarts() {
    let ts = Mpr121TouchStatus::new(0x0001);
    let mut a = ts.iter();
    assert_eq!(a.next(), Some(true));
    assert_eq!(a.next(), Some(false));
    let mut b = ts.iter();
    assert_eq!(b.next(), Some(true));
    assert_eq!(walk(&ts).len(), 12);
}

#[test]
fn text_of_alternating_status() {
    let ts = Mpr121TouchStatus::new(0b101010101010);
    assert_eq!(
        ts.to_string(),
        "Touch status: [0 is off, 1 is on, 2 is off, 3 is on, 4 is off, 5 is on, \
         6 is off, 7 is on, 8 is off, 9 is on, 10 is off, 11 is on]"
    );
}

#[test]
fn text_of_nothing_touched() {
    let ts = Mpr121TouchStatus::new(0);
    assert_eq!(
        ts.to_string(),
        "Touch status: [0 is off, 1 is off, 2 is off, 3 is off, 4 is off, 5 is off, \
         6 is off, 7 is off, 8 is off, 9 is off, 10 is off, 11 is off]"
    );
}

#[test]
fn text_ignores_reserved_bits() {
    let ts = Mpr121TouchStatus::new(0xF801);
    assert_eq!(
        ts.to_string(),
        "Touch status: [0 is on, 1 is off, 2 is off, 3 is off, 4 is off, 5 is off, \
         6 is off, 7 is off, 8 is off, 9 is off, 10 is off, 11 is on]"
    );
}
