use transparent_text::effect::TextEffect;

#[test]
fn effect_codes() {
    assert_eq!(TextEffect::Normal.to_i32(), 0);
    assert_eq!(TextEffect::Outline.to_i32(), 1);
    assert_eq!(TextEffect::Shadow.to_i32(), 2);
    assert_eq!(TextEffect::Glow.to_i32(), 3);
}

#[test]
fn effect_cycle_order() {
    assert_eq!(TextEffect::Normal.next(), TextEffect::Outline);
    assert_eq!(TextEffect::Outline.next(), TextEffect::Shadow);
    assert_eq!(TextEffect::Shadow.next(), TextEffect::Glow);
    assert_eq!(TextEffect::Glow.next(), TextEffect::Normal);
}

#[test]
fn effect_cycle_returns_to_start() {
    let start = TextEffect::Shadow;
    let back = start.next().next().next().next();
    assert_eq!(back, start);
}

#[test]
fn effect_names() {
    assert_eq!(TextEffect::Normal.name(), "일반");
    assert_eq!(TextEffect::Outline.name(), "외곽선");
    assert_eq!(TextEffect::Shadow.name(), "그림자");
    assert_eq!(TextEffect::Glow.name(), "발광");
}
