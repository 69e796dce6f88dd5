use screen_macro::anchor::ClickPoint;

#[test]
fn to_mults_matches_the_table() {
    let table = [
        (ClickPoint::TopLeft, (0.0, 0.0)),
        (ClickPoint::TopMiddle, (0.5, 0.0)),
        (ClickPoint::TopRight, (1.0, 0.0)),
        (ClickPoint::CenterLeft, (0.0, 0.5)),
        (ClickPoint::CenterMiddle, (0.5, 0.5)),
        (ClickPoint::CenterRight, (1.0, 0.5)),
        (ClickPoint::BottomLeft, (0.0, 1.0)),
        (ClickPoint::BottomMiddle, (0.5, 1.0)),
        (ClickPoint::BottomRight, (1.0, 1.0)),
    ];
    for (p, (x, y)) in table.iter() {
        let (hx, hy) = p.to_mults();
        assert!(hx <= 2 && hy <= 2);
        assert_eq!(hx as f64 / 2.0, *x);
        assert_eq!(hy as f64 / 2.0, *y);
    }
}

#[test]
fn next_follows_the_fixed_cycle() {
    assert!(matches!(ClickPoint::TopLeft.next(), ClickPoint::TopMiddle));
    assert!(matches!(ClickPoint::TopMiddle.next(), ClickPoint::TopRight));
    assert!(matches!(ClickPoint::TopRight.next(), ClickPoint::CenterRight));
    assert!(matches!(ClickPoint::CenterLeft.next(), ClickPoint::CenterMiddle));
    assert!(matches!(ClickPoint::CenterMiddle.next(), ClickPoint::TopLeft));
    assert!(matches!(ClickPoint::CenterRight.next(), ClickPoint::BottomRight));
    assert!(matches!(ClickPoint::BottomLeft.next(), ClickPoint::CenterLeft));
    assert!(matches!(ClickPoint::BottomMiddle.next(), ClickPoint::BottomLeft));
    assert!(matches!(ClickPoint::BottomRight.next(), ClickPoint::BottomMiddle));
}

#[test]
fn default_anchor_is_center() {
    let p: ClickPoint = Default::default();
    assert!(matches!(p, ClickPoint::CenterMiddle));
}

#[test]
fn anchor_tags_round_trip() {
    let all = [
        ClickPoint::TopLeft,
        ClickPoint::TopMiddle,
        ClickPoint::TopRight,
        ClickPoint::CenterLeft,
        ClickPoint::CenterMiddle,
        ClickPoint::CenterRight,
        ClickPoint::BottomLeft,
        ClickPoint::BottomMiddle,
        ClickPoint::BottomRight,
    ];
    for (i, p) in all.iter().enumerate() {
        assert_eq!(p.tag(), i as u64);
        assert_eq!(ClickPoint::from_tag(i as u64), Some(*p));
    }
    assert_eq!(ClickPoint::from_tag(9), None);
}
