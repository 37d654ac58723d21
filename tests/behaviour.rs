use ioption::{IOption, Nullable};

#[test]
fn filter_keeps_even_and_drops_odd() {
    assert_eq!(IOption::new(42).filter(|v| *v % 2 == 0).into_inner(), 42);
    assert_eq!(IOption::new(43).filter(|v| *v % 2 == 0).into_inner(), 2147483647);
}

#[test]
fn filter_on_none_does_not_call_predicate() {
    let r = IOption::new(i32::NULL).filter(|_| panic!("predicate called"));
    assert!(r.is_none());
    assert_eq!(r.into_inner(), i32::MAX);
}

#[test]
fn map_on_none_does_not_call_f() {
    let r: IOption<i32> = IOption::new(2147483647).map(|_: i32| -> i32 { panic!("f called") });
    assert_eq!(r.into_inner(), 2147483647);
}

#[test]
fn map_to_null_gives_none() {
    let r = IOption::new(1u8).map(|_| u8::MAX);
    assert!(r.is_none());
}

#[test]
fn and_then_on_none_does_not_call_f() {
    let r: IOption<i64> = IOption::new(i32::NULL).and_then(|_| -> IOption<i64> { panic!("f called") });
    assert_eq!(r.into_inner(), i64::MAX);
}

#[test]
fn or_else_on_some_does_not_call_f() {
    let r = IOption::new(7u16).or_else(|| -> IOption<u16> { panic!("f called") });
    assert_eq!(r.into_inner(), 7);
}

#[test]
fn get_or_insert_with_on_some_does_not_call_f() {
    let mut o = IOption::new(5usize);
    let v = o.get_or_insert_with(|| panic!("f called"));
    assert_eq!(*v, 5);
}

#[test]
fn get_or_insert_borrow_writes_through() {
    let mut o = IOption::new(i32::NULL);
    let v = o.get_or_insert(84);
    *v = 3;
    assert_eq!(o.into_inner(), 3);
    assert!(IOption::new(3).is_some());
}

#[test]
fn get_or_insert_leaves_container_some() {
    let mut o = IOption::new(u32::NULL);
    let v = o.get_or_insert(7);
    assert_eq!(*v, 7);
    assert!(o.is_some());
    let mut d = IOption::new(u32::NULL);
    assert_eq!(*d.get_or_insert_default(), 0);
    assert!(d.is_some());
}

#[test]
fn iter_yields_value_once_and_writes_through() {
    let o = IOption::new(8u16);
    let mut it = o.iter();
    assert_eq!(it.next(), Some(&8));
    assert_eq!(it.next(), None);
    let mut p = IOption::new(8u16);
    let mut it = p.iter_mut();
    if let Some(b) = it.next() {
        *b = u16::MAX;
    }
    assert!(it.next().is_none());
    assert!(p.is_none());
}

#[test]
fn from_value_matches_new() {
    assert_eq!(IOption::from(5u64).into_inner(), IOption::new(5u64).into_inner());
    assert!(IOption::from(u64::MAX).is_none());
}

#[test]
fn as_mut_writing_null_empties_container() {
    let mut o = IOption::new(10i8);
    if let Some(b) = o.as_mut() {
        *b = i8::MAX;
    }
    assert!(o.is_none());
}

#[test]
fn take_twice_gives_none() {
    let mut o = IOption::new(42);
    let first = o.take();
    assert_eq!(first.into_inner(), 42);
    assert!(o.is_none());
    let second = o.take();
    assert!(second.is_none());
    assert_eq!(second.into_inner(), i32::MAX);
}

#[test]
fn replace_on_none_returns_none() {
    let mut o = IOption::<u64>::none();
    let prev = o.replace(9);
    assert!(prev.is_none());
    assert_eq!(o.into_inner(), 9);
}

#[test]
fn ok_or_scenarios() {
    assert_eq!(IOption::new(2147483647).ok_or("e"), Err("e"));
    assert_eq!(IOption::new(42).ok_or("e"), Ok(42));
}

#[test]
fn unwrap_or_else_on_some_does_not_call_f() {
    assert_eq!(IOption::new(1i16).unwrap_or_else(|| panic!("f called")), 1);
}

#[test]
fn map_or_else_picks_default_on_none() {
    assert_eq!(IOption::new(u8::MAX).map_or_else(|| 7u8, |v| v + 1), 7);
    assert_eq!(IOption::new(3u8).map_or_else(|| 7u8, |v| v + 1), 4);
}

#[test]
fn and_on_some_gives_other() {
    assert_eq!(IOption::new(1i128).and(IOption::new(2u128)).into_inner(), 2);
    assert_eq!(IOption::new(i128::MAX).and(IOption::new(2u128)).into_inner(), u128::MAX);
}

#[test]
fn iter_on_none_is_empty() {
    let o = IOption::new(isize::MAX);
    assert_eq!(o.iter().next(), None);
    let mut p = IOption::new(3isize);
    for v in p.iter_mut() {
        *v = 4;
    }
    assert_eq!(p.into_inner(), 4);
}

#[test]
fn none_identity() {
    assert!(IOption::<i16>::none().is_none());
    assert!(IOption::new(i16::NULL).is_none());
    assert!(!IOption::<i16>::none().is_some());
}

#[test]
fn some_identity() {
    let o = IOption::new(-5i64);
    assert!(o.is_some());
    assert_eq!(o.into_inner(), -5);
}

#[test]
fn round_trip_through_option() {
    let some: Option<u8> = IOption::new(4u8).into();
    assert_eq!(IOption::<u8>::from(some).into_inner(), 4);
    let none: Option<u8> = IOption::new(u8::MAX).into();
    assert_eq!(none, None);
    assert_eq!(IOption::<u8>::from(none).into_inner(), u8::MAX);
}

#[test]
fn option_is_nullable() {
    assert!(Option::<u8>::NULL.is_null());
    assert!(!Some(1u8).is_null());
    let o = IOption::new(Some(3u8));
    assert_eq!(o.unwrap(), Some(3));
    assert!(IOption::<Option<u8>>::none().is_none());
}

#[test]
fn max_is_sentinel_for_each_width() {
    assert!(u8::MAX.is_null() && !0u8.is_null());
    assert!(u16::MAX.is_null() && !0u16.is_null());
    assert!(u32::MAX.is_null() && !0u32.is_null());
    assert!(u64::MAX.is_null() && !0u64.is_null());
    assert!(u128::MAX.is_null() && !0u128.is_null());
    assert!(usize::MAX.is_null() && !0usize.is_null());
    assert!(i8::MAX.is_null() && !i8::MIN.is_null());
    assert!(i16::MAX.is_null() && !i16::MIN.is_null());
    assert!(i32::MAX.is_null() && !i32::MIN.is_null());
    assert!(i64::MAX.is_null() && !i64::MIN.is_null());
    assert!(i128::MAX.is_null() && !i128::MIN.is_null());
    assert!(isize::MAX.is_null() && !isize::MIN.is_null());
}

#[test]
fn ordering_follows_stored_value() {
    assert!(IOption::new(1) < IOption::new(2));
    assert!(IOption::new(1) < IOption::<i32>::none());
    assert_eq!(IOption::<i32>::none(), IOption::default());
}
