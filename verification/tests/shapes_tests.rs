use sinus::shapes::Shape;

#[test]
fn next_follows_the_button_order() {
    assert_eq!(Shape::Ellipse.next(), Shape::Circle);
    assert_eq!(Shape::Circle.next(), Shape::Figure8);
    assert_eq!(Shape::Figure8.next(), Shape::Heart);
    assert_eq!(Shape::Heart.next(), Shape::Star);
    assert_eq!(Shape::Star.next(), Shape::Rose);
    assert_eq!(Shape::Rose.next(), Shape::Butterfly);
    assert_eq!(Shape::Butterfly.next(), Shape::Spiral);
    assert_eq!(Shape::Spiral.next(), Shape::Ellipse);
}

#[test]
fn index_is_position_in_all() {
    for (i, s) in Shape::ALL.iter().enumerate() {
        assert_eq!(s.index(), i);
    }
    assert_eq!(Shape::Heart.index(), 3);
    assert_eq!(Shape::Spiral.index(), 7);
}

#[test]
fn eight_presses_come_back() {
    for s in Shape::ALL.iter() {
        let mut t = *s;
        for _ in 0..8 {
            t = t.next();
        }
        assert_eq!(t, *s);
    }
}

#[test]
fn from_name_accepts_both_languages() {
    assert_eq!(Shape::from_name("ellipse"), Some(Shape::Ellipse));
    assert_eq!(Shape::from_name("elips"), Some(Shape::Ellipse));
    assert_eq!(Shape::from_name("circle"), Some(Shape::Circle));
    assert_eq!(Shape::from_name("cember"), Some(Shape::Circle));
    assert_eq!(Shape::from_name("figure8"), Some(Shape::Figure8));
    assert_eq!(Shape::from_name("sekiz"), Some(Shape::Figure8));
    assert_eq!(Shape::from_name("heart"), Some(Shape::Heart));
    assert_eq!(Shape::from_name("kalp"), Some(Shape::Heart));
    assert_eq!(Shape::from_name("star"), Some(Shape::Star));
    assert_eq!(Shape::from_name("yildiz"), Some(Shape::Star));
    assert_eq!(Shape::from_name("rose"), Some(Shape::Rose));
    assert_eq!(Shape::from_name("gul"), Some(Shape::Rose));
    assert_eq!(Shape::from_name("cicek"), Some(Shape::Rose));
    assert_eq!(Shape::from_name("flower"), Some(Shape::Rose));
    assert_eq!(Shape::from_name("butterfly"), Some(Shape::Butterfly));
    assert_eq!(Shape::from_name("kelebek"), Some(Shape::Butterfly));
    assert_eq!(Shape::from_name("spiral"), Some(Shape::Spiral));
}

#[test]
fn from_name_rejects_other_text() {
    assert_eq!(Shape::from_name(""), None);
    assert_eq!(Shape::from_name("Heart"), None);
    assert_eq!(Shape::from_name("heart "), None);
    assert_eq!(Shape::from_name("gear"), None);
    assert_eq!(Shape::from_name("elsan"), None);
    assert_eq!(Shape::from_name("hearts"), None);
}
