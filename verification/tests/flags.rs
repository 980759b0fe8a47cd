use esteria_sms::{SmsFlag, SmsFlags};

const ALL: [SmsFlag; 6] = [
    SmsFlag::Debug,
    SmsFlag::NoLog,
    SmsFlag::Flash,
    SmsFlag::Test,
    SmsFlag::NoBl,
    SmsFlag::Convert,
];

#[test]
fn empty_set_has_no_switch() {
    let flags = SmsFlags::empty();
    assert!(flags.is_empty());
    assert_eq!(flags.bits(), 0);
    for flag in ALL {
        assert!(!flags.has(flag));
    }
}

#[test]
fn full_set_has_every_switch() {
    let flags = SmsFlags::all();
    assert_eq!(flags.bits(), 0x3f);
    for flag in ALL {
        assert!(flags.has(flag));
    }
}

#[test]
fn masks_are_the_six_low_bits() {
    assert_eq!(SmsFlag::Debug.mask(), 0b0000_0001);
    assert_eq!(SmsFlag::NoLog.mask(), 0b0000_0010);
    assert_eq!(SmsFlag::Flash.mask(), 0b0000_0100);
    assert_eq!(SmsFlag::Test.mask(), 0b0000_1000);
    assert_eq!(SmsFlag::NoBl.mask(), 0b0001_0000);
    assert_eq!(SmsFlag::Convert.mask(), 0b0010_0000);
}

#[test]
fn one_switch_alone() {
    for flag in ALL {
        let flags = SmsFlags::only(flag);
        assert_eq!(flags.bits(), flag.mask());
        for other in ALL {
            assert_eq!(flags.has(other), other == flag);
        }
    }
}

#[test]
fn switches_add_up() {
    let flags = SmsFlags::empty().with(SmsFlag::NoLog).with(SmsFlag::Test);
    assert_eq!(flags.bits(), 0b0000_1010);
    assert!(flags.has(SmsFlag::NoLog));
    assert!(flags.has(SmsFlag::Test));
    assert!(!flags.has(SmsFlag::Debug));
    assert_eq!(flags.with(SmsFlag::Test), flags);
}

#[test]
fn union_and_intersection() {
    let a = SmsFlags::from_bits_truncate(0b0000_0111);
    let b = SmsFlags::from_bits_truncate(0b0011_0100);
    assert_eq!(a.union(b).bits(), 0b0011_0111);
    assert_eq!(a.intersection(b).bits(), 0b0000_0100);
    assert!(a.intersection(SmsFlags::from_bits_truncate(0b0011_1000)).is_empty());
}

#[test]
fn containment() {
    let a = SmsFlags::from_bits_truncate(0b0000_0111);
    assert!(a.contains(SmsFlags::only(SmsFlag::Debug)));
    assert!(a.contains(SmsFlags::from_bits_truncate(0b0000_0011)));
    assert!(a.contains(a));
    assert!(a.contains(SmsFlags::empty()));
    assert!(!a.contains(SmsFlags::only(SmsFlag::Test)));
    assert!(!a.contains(SmsFlags::from_bits_truncate(0b0000_1001)));
    assert!(!SmsFlags::empty().contains(a));
}

#[test]
fn unknown_bits_are_dropped() {
    assert_eq!(SmsFlags::from_bits_truncate(0xffff_ffff).bits(), 0x3f);
    assert_eq!(SmsFlags::from_bits_truncate(0x40), SmsFlags::empty());
    assert_eq!(SmsFlags::from_bits_truncate(0x41), SmsFlags::only(SmsFlag::Debug));
}

#[test]
fn bits_round_trip() {
    for bits in 0..64u32 {
        let flags = SmsFlags::from_bits_truncate(bits);
        assert_eq!(flags.bits(), bits);
        for flag in ALL {
            assert_eq!(flags.has(flag), bits & flag.mask() != 0);
        }
    }
}

#[test]
fn switches_one_by_one() {
    for bits in 0..64u32 {
        let flags = SmsFlags::from_switches(
            bits & 1 != 0,
            bits & 2 != 0,
            bits & 4 != 0,
            bits & 8 != 0,
            bits & 16 != 0,
            bits & 32 != 0,
        );
        assert_eq!(flags.bits(), bits);
    }
}

#[test]
fn literals_of_the_switches() {
    assert_eq!(SmsFlag::NoLog.literal(), "3");
    for flag in ALL {
        if flag != SmsFlag::NoLog {
            assert_eq!(flag.literal(), "1");
        }
    }
}

#[test]
fn default_set_is_empty() {
    assert_eq!(SmsFlags::default(), SmsFlags::empty());
}
