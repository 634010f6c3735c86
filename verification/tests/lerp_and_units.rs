use sickle_ui::lerp::Lerp;
use sickle_ui::style::{Color, UiRect, Val};
use sickle_ui::units::{floor_div, lerp_i64, narrow, sat_add, sat_neg, sat_sub, Entity, Vec2, RATIO_ONE};

#[test]
fn saturating_arithmetic_holds_at_the_ends() {
    assert_eq!(sat_add(3, 4), 7);
    assert_eq!(sat_add(i64::MAX, 1), i64::MAX);
    assert_eq!(sat_add(i64::MIN, -1), i64::MIN);
    assert_eq!(sat_sub(3, 4), -1);
    assert_eq!(sat_sub(i64::MIN, 1), i64::MIN);
    assert_eq!(sat_sub(i64::MAX, -1), i64::MAX);
    assert_eq!(sat_neg(5), -5);
    assert_eq!(sat_neg(i64::MIN), i64::MAX);
    assert_eq!(narrow(1i128 << 100), i64::MAX);
    assert_eq!(narrow(-(1i128 << 100)), i64::MIN);
    assert_eq!(narrow(-9), -9);
}

#[test]
fn floor_division_rounds_down() {
    assert_eq!(floor_div(7, 2), 3);
    assert_eq!(floor_div(-7, 2), -4);
    assert_eq!(floor_div(-8, 2), -4);
    assert_eq!(floor_div(0, 5), 0);
    assert_eq!(floor_div(-1, 1_000_000), -1);
}

#[test]
fn vectors_add_and_subtract() {
    let a = Vec2 { x: 10, y: -4 };
    let b = Vec2 { x: 3, y: 6 };
    assert_eq!(a.plus(b), Vec2 { x: 13, y: 2 });
    assert_eq!(a.minus(b), Vec2 { x: 7, y: -10 });
    assert_eq!(Vec2::zero(), Vec2 { x: 0, y: 0 });
    assert_eq!(Entity::placeholder(), Entity(u64::MAX));
}

#[test]
fn scalar_lerp_exact_values() {
    assert_eq!(lerp_i64(0, 10, 0), 0);
    assert_eq!(lerp_i64(0, 10, RATIO_ONE), 10);
    assert_eq!(lerp_i64(0, 10, 500_000), 5);
    assert_eq!(lerp_i64(10, 0, 250_000), 7);
    assert_eq!(lerp_i64(0, 3, 500_000), 1);
    assert_eq!(lerp_i64(0, -3, 500_000), -2);
    assert_eq!(lerp_i64(100, 200, 1_500_000), 250);
    assert_eq!(lerp_i64(100, 200, -500_000), 50);
    assert_eq!(lerp_i64(i64::MIN, i64::MAX, RATIO_ONE), i64::MAX);
    assert_eq!(lerp_i64(i64::MIN, i64::MAX, 2 * RATIO_ONE), i64::MAX);
    assert_eq!(7i64.lerp(9, 500_000), 8);
}

#[test]
fn colour_lerp_clamps_channels() {
    let from = Color { r: 0, g: 1_000_000, b: 200_000, a: 1_000_000 };
    let to = Color { r: 1_000_000, g: 0, b: 400_000, a: 1_000_000 };
    assert_eq!(
        from.lerp(to, 500_000),
        Color { r: 500_000, g: 500_000, b: 300_000, a: 1_000_000 }
    );
    assert_eq!(
        from.lerp(to, 2_000_000),
        Color { r: 1_000_000, g: 0, b: 600_000, a: 1_000_000 }
    );
    assert_eq!(from.lerp(to, 0), from);
    assert_eq!(from.lerp(to, RATIO_ONE), to);
}

#[test]
fn val_lerp_keeps_the_scale() {
    assert_eq!(Val::Px(0).lerp(Val::Px(100), 250_000), Val::Px(25));
    assert_eq!(Val::Percent(10).lerp(Val::Percent(20), 500_000), Val::Percent(15));
    assert_eq!(Val::Vw(10).lerp(Val::Vw(20), 500_000), Val::Vw(15));
    assert_eq!(Val::Vh(10).lerp(Val::Vh(20), 500_000), Val::Vh(15));
    assert_eq!(Val::VMin(10).lerp(Val::VMin(20), 500_000), Val::VMin(15));
    assert_eq!(Val::VMax(10).lerp(Val::VMax(20), 500_000), Val::VMax(15));
    assert_eq!(Val::Px(10).lerp(Val::Percent(20), 500_000), Val::Px(10));
    assert_eq!(Val::Auto.lerp(Val::Px(20), 500_000), Val::Auto);
    assert_eq!(Val::Px(10).lerp(Val::Auto, 500_000), Val::Px(10));
    assert_eq!(Val::default(), Val::Auto);
}

#[test]
fn rect_lerp_goes_side_by_side() {
    let from = UiRect { left: Val::Px(0), right: Val::Px(10), top: Val::Auto, bottom: Val::Percent(0) };
    let to = UiRect { left: Val::Px(8), right: Val::Px(20), top: Val::Px(4), bottom: Val::Percent(100) };
    assert_eq!(
        from.lerp(to, 500_000),
        UiRect { left: Val::Px(4), right: Val::Px(15), top: Val::Auto, bottom: Val::Percent(50) }
    );
}
