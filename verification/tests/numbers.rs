use simchopper::numbers::{LInt, Uf32, F32_MAX};

#[test]
fn create_instances() {
    let value = Uf32::new(10);
    assert_eq!(value.into_u32() as f32, 10.0);

    assert_eq!(Uf32::max().into_u32() as f32 as u32, F32_MAX);
}

#[test]
fn arithmetic_within_bounds() {
    let a = Uf32::new(7);
    let b = Uf32::new(3);
    assert_eq!(a.add(b).into_u32(), 10);
    assert_eq!(a.sub(b).into_u32(), 4);
    assert_eq!(a.mul(b).into_u32(), 21);
    assert_eq!(a.div(b).into_u32(), 2);
    assert_eq!(a.rem(b).into_u32(), 1);
    assert_eq!(a.into_u64(), 7u64);
}

#[test]
fn results_out_of_range_are_held_at_the_bounds() {
    type Small = LInt<5, 10>;
    let a = Small::new(9);
    let b = Small::new(8);
    assert_eq!(a.add(b).into_u32(), 10);
    assert_eq!(a.sub(b).into_u32(), 5);
    assert_eq!(Small::new(6).div(Small::new(6)).into_u32(), 5);
    assert_eq!(Small::max().into_u32(), 10);
    assert_eq!(Small::min().into_u32(), 5);
    assert_eq!(Small::default().into_u32(), 5);
}

#[test]
fn larger_of_two() {
    assert_eq!(Uf32::new(4).max_of(Uf32::new(9)).into_u32(), 9);
    assert_eq!(Uf32::new(9).max_of(Uf32::new(4)).into_u32(), 9);
}
