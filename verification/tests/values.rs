use link_widget::theme::{
    link_background_key, link_cold_color, link_hot_color, LINK_COLD_COLOR, LINK_HOT_COLOR,
};
use link_widget::{Color, Env, Key, KeyOrValue, Length, RoundedRect, Size, Value, ValueType};

#[test]
fn rgba8_packs_red_first() {
    assert_eq!(Color::rgba8(0x12, 0x34, 0x56, 0x78).as_rgba32(), 0x1234_5678);
    assert_eq!(Color::rgba8(0x12, 0x34, 0x56, 0x78), Color::from_rgba32(0x1234_5678));
}

#[test]
fn rgb8_is_opaque() {
    assert_eq!(Color::rgb8(0x12, 0x34, 0x56).as_rgba32(), 0x1234_56ff);
    assert_eq!(Color::rgb8(0x12, 0x34, 0x56).get_alpha(), 0xff);
}

#[test]
fn alpha_is_the_low_byte() {
    assert_eq!(Color::from_rgba32(0xffff_ff00).get_alpha(), 0);
    assert_eq!(Color::from_rgba32(0x0000_0001).get_alpha(), 1);
    assert_eq!(Color::from_rgba32(0x1234_56ab).get_alpha(), 0xab);
}

#[test]
fn visible_means_alpha_above_zero() {
    assert!(!Color::from_rgba32(0xffff_ff00).is_visible());
    assert!(Color::from_rgba32(0x0000_0001).is_visible());
    assert!(Color::from_rgba32(0x0000_00ff).is_visible());
}

#[test]
fn half_keeps_units_and_adds_a_bit() {
    assert_eq!(Length::from_points(1).half(), Length::new(1, 1));
    assert_eq!(Length::new(-5, 7).half(), Length::new(-5, 8));
    assert_eq!(Length::zero().half(), Length::new(0, 1));
}

#[test]
fn from_points_counts_whole_points() {
    assert_eq!(Length::from_points(64), Length::new(64, 0));
    assert_eq!(Length::from_points(-3), Length { units: -3, frac_bits: 0 });
}

#[test]
fn positive_means_above_zero() {
    assert!(Length::new(1, 40).is_positive());
    assert!(!Length::zero().is_positive());
    assert!(!Length::new(0, 9).is_positive());
    assert!(!Length::new(-1, 0).is_positive());
}

#[test]
fn can_halve_below_the_last_bit() {
    assert!(Length::new(1, 0).can_halve());
    assert!(Length::new(1, u32::MAX - 1).can_halve());
    assert!(!Length::new(1, u32::MAX).can_halve());
}

#[test]
fn for_stroke_insets_by_half_the_width() {
    let bounds = Size::new(Length::from_points(10), Length::from_points(20));
    let shape = RoundedRect::for_stroke(bounds, Length::from_points(3), Length::from_points(2));
    assert_eq!(
        shape,
        RoundedRect { size: bounds, inset: Length::new(3, 1), radius: Length::from_points(2) }
    );
}

#[test]
fn theme_keys_have_their_names() {
    assert_eq!(link_hot_color().name(), LINK_HOT_COLOR);
    assert_eq!(link_cold_color().name(), LINK_COLD_COLOR);
    assert_eq!(link_background_key(true), link_hot_color());
    assert_eq!(link_background_key(false), link_cold_color());
    assert_ne!(link_hot_color(), link_cold_color());
}

#[test]
fn key_keeps_its_name() {
    let key = Key::new("edge");
    assert_eq!(key.name(), "edge");
    assert_eq!(key.clone(), key);
}

#[test]
fn empty_env_binds_nothing() {
    assert_eq!(Env::empty().try_get(&Key::new("edge")), None);
    assert!(!Env::empty().has::<Color>(&Key::new("edge")));
}

#[test]
fn adding_binds_the_key() {
    let red = Value::Color(Color::rgb8(255, 0, 0));
    let env = Env::empty().adding(Key::new("edge"), red);
    assert_eq!(env.try_get(&Key::new("edge")), Some(red));
    assert_eq!(env.try_get(&Key::new("edg")), None);
    assert_eq!(env.try_get(&Key::new("edge ")), None);
}

#[test]
fn adding_again_replaces_the_value() {
    let red = Value::Color(Color::rgb8(255, 0, 0));
    let two = Value::Length(Length::from_points(2));
    let env = Env::empty()
        .adding(Key::new("edge"), red)
        .adding(Key::new("other"), red)
        .adding(Key::new("edge"), two);
    assert_eq!(env.try_get(&Key::new("edge")), Some(two));
    assert_eq!(env.try_get(&Key::new("other")), Some(red));
}

#[test]
fn has_asks_for_the_type() {
    let env = Env::empty()
        .adding(Key::new("edge"), Value::Color(Color::rgb8(255, 0, 0)))
        .adding(Key::new("thick"), Value::Length(Length::from_points(2)));
    assert!(env.has::<Color>(&Key::new("edge")));
    assert!(!env.has::<Length>(&Key::new("edge")));
    assert!(env.has::<Length>(&Key::new("thick")));
    assert!(!env.has::<Color>(&Key::new("thick")));
    assert!(!env.has::<Color>(&Key::new("none")));
}

#[test]
fn get_returns_the_typed_value() {
    let env = Env::empty()
        .adding(Key::new("edge"), Value::Color(Color::rgb8(255, 0, 0)))
        .adding(Key::new("thick"), Value::Length(Length::from_points(2)));
    assert_eq!(env.get::<Color>(&Key::new("edge")), Color::rgb8(255, 0, 0));
    assert_eq!(env.get::<Length>(&Key::new("thick")), Length::from_points(2));
}

#[test]
fn try_from_value_tells_the_types_apart() {
    let red = Color::rgb8(255, 0, 0);
    let two = Length::from_points(2);
    assert_eq!(Color::try_from_value(&Value::Color(red)), Some(red));
    assert_eq!(Color::try_from_value(&Value::Length(two)), None);
    assert_eq!(Length::try_from_value(&Value::Length(two)), Some(two));
    assert_eq!(Length::try_from_value(&Value::Color(red)), None);
}

#[test]
fn concrete_value_resolves_to_itself() {
    let style: KeyOrValue<Length> = Length::from_points(5).into();
    assert_eq!(style, KeyOrValue::Concrete(Length::from_points(5)));
    assert!(style.is_resolvable(&Env::empty()));
    assert_eq!(style.resolve(&Env::empty()), Length::from_points(5));
}

#[test]
fn key_resolves_to_what_the_env_binds() {
    let style: KeyOrValue<Color> = Key::new("edge").into();
    assert_eq!(style, KeyOrValue::Key(Key::new("edge")));
    assert!(!style.is_resolvable(&Env::empty()));
    let env = Env::empty().adding(Key::new("edge"), Value::Color(Color::rgb8(1, 2, 3)));
    assert!(style.is_resolvable(&env));
    assert_eq!(style.resolve(&env), Color::rgb8(1, 2, 3));
    let env = env.adding(Key::new("edge"), Value::Color(Color::rgb8(4, 5, 6)));
    assert_eq!(style.resolve(&env), Color::rgb8(4, 5, 6));
}

#[test]
fn key_of_the_wrong_type_is_not_resolvable() {
    let style: KeyOrValue<Color> = Key::new("thick").into();
    let env = Env::empty().adding(Key::new("thick"), Value::Length(Length::from_points(2)));
    assert!(!style.is_resolvable(&env));
}

#[test]
fn clone_keeps_the_style_value() {
    let by_key: KeyOrValue<Color> = Key::new("edge").into();
    assert_eq!(by_key.clone(), by_key);
    let by_value: KeyOrValue<Color> = Color::rgb8(1, 2, 3).into();
    assert_eq!(by_value.clone(), by_value);
}
