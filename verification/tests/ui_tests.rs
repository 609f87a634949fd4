use millennium_run::ui::{Release, UIMargin, UiFocus};

#[test]
fn margin_new_and_getters() {
    let m = UIMargin::new(1, -2, 3, -4);
    assert_eq!((m.top(), m.left(), m.bottom(), m.right()), (1, -2, 3, -4));
    let d = UIMargin::default();
    assert_eq!((d.top(), d.left(), d.bottom(), d.right()), (0, 0, 0, 0));
}

#[test]
fn margin_setters_change_one_side() {
    let mut m = UIMargin::new(1, 2, 3, 4);
    m.set_top(10);
    assert_eq!((m.top(), m.left(), m.bottom(), m.right()), (10, 2, 3, 4));
    m.set_left(20);
    assert_eq!((m.top(), m.left(), m.bottom(), m.right()), (10, 20, 3, 4));
    m.set_bottom(30);
    assert_eq!((m.top(), m.left(), m.bottom(), m.right()), (10, 20, 30, 4));
    m.set_right(40);
    assert_eq!((m.top(), m.left(), m.bottom(), m.right()), (10, 20, 30, 40));
}

#[test]
fn press_and_release_on_same_element_activates_it() {
    let mut f = UiFocus::new();
    assert_eq!(f.press(Some(2)), Some(2));
    assert_eq!(f.focused(), Some(2));
    assert_eq!(f.release(Some(2)), Release { restored: Some(2), activated: Some(2) });
    assert_eq!(f.focused(), None);
}

#[test]
fn release_elsewhere_activates_nothing() {
    let mut f = UiFocus::new();
    f.press(Some(0));
    assert_eq!(f.release(Some(1)), Release { restored: Some(0), activated: None });
    f.press(Some(0));
    assert_eq!(f.release(None), Release { restored: Some(0), activated: None });
}

#[test]
fn release_without_press_activates_nothing() {
    let mut f = UiFocus::new();
    assert_eq!(f.press(None), None);
    assert_eq!(f.release(Some(3)), Release { restored: None, activated: None });
}

#[test]
fn cancel_lets_go_without_activation() {
    let mut f = UiFocus::new();
    f.press(Some(4));
    assert_eq!(f.cancel(), Some(4));
    assert_eq!(f.focused(), None);
    assert_eq!(f.release(Some(4)), Release { restored: None, activated: None });
}
