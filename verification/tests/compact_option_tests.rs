use std::collections::hash_map::DefaultHasher;
use std::hash::{Hash, Hasher};

use compact_option::fixtures::{
    BadSentinel, ByteSlot, Handle, Id, OptBad, OptByte, OptId, OptSmall, SmallEnum,
};

#[test]
fn const_predicates_on_none() {
    assert!(OptSmall::none().is_none());
    assert!(!OptSmall::none().is_some());
    assert!(OptSmall::some(SmallEnum::Var1).is_some());
    assert!(!OptSmall::some(SmallEnum::Var1).is_none());
    assert!(OptSmall::some(SmallEnum::Var2).is_some());
    assert!(!OptSmall::some(SmallEnum::Var2).is_none());
}

#[test]
fn repr_u8_enum_roundtrip_and_combinators() {
    let foo = OptSmall::some(SmallEnum::Var1);
    assert_eq!(foo.raw_value(), SmallEnum::Var1 as u8);
    assert_eq!(foo.try_unwrap(), Some(SmallEnum::Var1));
    assert_eq!(OptSmall::some(SmallEnum::Var1).unwrap(), SmallEnum::Var1);

    let bar = OptSmall::some(SmallEnum::Var2);
    assert_eq!(bar.map(|x| x as u8), Some(1u8));
    assert_eq!(bar.and_then(Some), Some(SmallEnum::Var2));
    assert_eq!(bar.and_then(|_| None::<()>), None);

    assert_eq!(OptSmall::none().try_unwrap(), None);
    assert_eq!(
        OptSmall::some(SmallEnum::Var1).expect("some"),
        SmallEnum::Var1
    );

    assert_eq!(
        OptSmall::some(SmallEnum::Var2).unwrap_unchecked(),
        SmallEnum::Var2
    );
}

#[test]
fn map_and_then_skip_closure_on_none() {
    assert_eq!(OptSmall::none().map::<(), _>(|_| panic!("map on NONE")), None);
    assert_eq!(
        OptSmall::none().and_then::<(), _>(|_| panic!("and_then on NONE")),
        None
    );
}

#[test]
fn transparent_struct_payload_roundtrip() {
    let b = ByteSlot(7);
    let o = OptByte::some(b);
    assert_eq!(o.try_unwrap(), Some(ByteSlot(7)));
    assert_eq!(o.unwrap(), ByteSlot(7));
}

#[test]
fn non_integer_handle_roundtrip() {
    let id = Id(42);
    let o = OptId::some(id);
    assert_eq!(o.try_unwrap(), Some(Id(42)));
    assert_eq!(o.unwrap().0, 42);
}

#[test]
fn sentinel_collision_some_equals_none() {
    let none = OptBad::none();
    let some_a = OptBad::some(BadSentinel::A);
    assert_eq!(none.raw_value(), some_a.raw_value());
    assert_eq!(none, some_a);
    assert!(none.is_none());
    assert!(!some_a.is_some());
    assert_eq!(some_a.try_unwrap(), None);
}

#[test]
fn derives_clone_partial_eq_hash_debug() {
    assert_eq!(OptSmall::none(), OptSmall::none());
    assert_eq!(
        OptSmall::some(SmallEnum::Var1),
        OptSmall::some(SmallEnum::Var1)
    );
    assert_ne!(
        OptSmall::some(SmallEnum::Var1),
        OptSmall::some(SmallEnum::Var2)
    );

    let a = OptSmall::some(SmallEnum::Var1);
    let b = a;
    assert_eq!(a, b);
    assert_eq!(a.clone(), b);
    assert_eq!(OptSmall::none().clone(), OptSmall::none());
    assert_ne!(a, OptSmall::none());
    let mut h1 = DefaultHasher::new();
    let mut h2 = DefaultHasher::new();
    a.hash(&mut h1);
    b.hash(&mut h2);
    assert_eq!(h1.finish(), h2.finish());
    let s = format!("{a:?}");
    assert!(s.contains("CompactOption"));
}

const SMALL_VALUES: [SmallEnum; 2] = [SmallEnum::Var1, SmallEnum::Var2];

#[test]
fn some_try_unwrap_roundtrip_every_small_value() {
    for x in SMALL_VALUES {
        let o = OptSmall::some(x);
        assert!(o.is_some());
        assert!(!o.is_none());
        assert_eq!(o.try_unwrap(), Some(x));
        assert_eq!(OptSmall::some(x).unwrap(), x);
        assert_eq!(OptSmall::some(x).expect("msg"), x);
        assert_eq!(OptSmall::some(x).unwrap_unchecked(), x);
    }
}

#[test]
fn map_gives_the_encoded_byte() {
    for x in SMALL_VALUES {
        assert_eq!(OptSmall::some(x).map(|v| v as u8), Some(x as u8));
        assert_eq!(OptSmall::some(x).raw_value(), x as u8);
    }
}

#[test]
fn and_then_passes_the_result_of_the_closure() {
    for x in SMALL_VALUES {
        assert_eq!(OptSmall::some(x).and_then(Some), Some(x));
        assert_eq!(OptSmall::some(x).and_then(|_| None::<()>), None);
    }
}

#[test]
fn equal_some_values_hash_alike_and_differ_from_none() {
    for x in SMALL_VALUES {
        let a = OptSmall::some(x);
        let b = OptSmall::some(x);
        let mut h1 = DefaultHasher::new();
        let mut h2 = DefaultHasher::new();
        a.hash(&mut h1);
        b.hash(&mut h2);
        assert_eq!(h1.finish(), h2.finish());
        assert_ne!(OptSmall::none(), OptSmall::some(x));
    }
}

#[test]
fn byte_slot_roundtrip_every_byte_but_the_sentinel() {
    for payload in 0u8..=255 {
        let o = OptByte::some(ByteSlot(payload));
        if payload == 0xFE {
            assert!(o.is_none());
            assert_eq!(o.try_unwrap(), None);
            assert_eq!(o, OptByte::none());
        } else {
            assert_eq!(o.try_unwrap(), Some(ByteSlot(payload)));
            assert_eq!(o.unwrap(), ByteSlot(payload));
            assert_eq!(o.raw_value(), payload);
        }
    }
}

#[test]
fn id_roundtrip_on_sample_values() {
    for n in [0u32, 1, 42, 0x8000_0000, u32::MAX - 1] {
        let o = OptId::some(Id(n));
        assert_eq!(o.try_unwrap(), Some(Id(n)));
        assert_eq!(o.unwrap(), Id(n));
        assert_eq!(o.raw_value(), Handle(n));
    }
    let collide = OptId::some(Id(u32::MAX));
    assert!(collide.is_none());
    assert_eq!(collide, OptId::none());
}

#[test]
fn none_holds_the_sentinel() {
    assert_eq!(OptSmall::none().raw_value(), 0xFF);
    assert_eq!(OptByte::none().raw_value(), 0xFE);
    assert_eq!(OptId::none().raw_value(), Handle(u32::MAX));
    assert_eq!(OptBad::none().raw_value(), 0);
}

#[test]
fn unwrap_then_some_restores_the_value() {
    for x in SMALL_VALUES {
        let o = OptSmall::some(x);
        assert_eq!(OptSmall::some(o.unwrap()), o);
    }
    let o = OptId::some(Id(9));
    assert_eq!(OptId::some(o.unwrap()), o);
}

#[test]
fn handle_equality_compares_the_field() {
    assert_eq!(Handle(3), Handle(3));
    assert_ne!(Handle(3), Handle(4));
}

#[test]
fn and_then_wrapping_equals_map() {
    for x in SMALL_VALUES {
        let o = OptSmall::some(x);
        assert_eq!(o.and_then(|v| Some(v as u8)), o.map(|v| v as u8));
        assert_eq!(o.and_then(Some), o.try_unwrap());
    }
    let n = OptSmall::none();
    assert_eq!(n.and_then(|v| Some(v as u8)), n.map(|v| v as u8));
    assert_eq!(n.and_then(Some), n.try_unwrap());
}

#[test]
fn equality_compares_raw_values() {
    assert!(OptSmall::some(SmallEnum::Var1) == OptSmall::some(SmallEnum::Var1));
    assert!(OptSmall::some(SmallEnum::Var1) != OptSmall::some(SmallEnum::Var2));
    assert!(OptBad::none() == OptBad::some(BadSentinel::A));
    assert!(OptByte::none() == OptByte::some(ByteSlot(0xFE)));
    assert!(OptByte::none() != OptByte::some(ByteSlot(0xFD)));
}
