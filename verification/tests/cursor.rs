use board_cursor::Cursor;

fn every_cursor() -> [Cursor; 4] {
    [
        Cursor { show: false, dirty: false },
        Cursor { show: false, dirty: true },
        Cursor { show: true, dirty: false },
        Cursor { show: true, dirty: true },
    ]
}

#[test]
fn default_cursor_is_not_shown_and_not_dirty() {
    let c = Cursor::default();
    assert!(!c.show);
    assert!(!c.dirty);
}

#[test]
fn set_show_stores_the_value_and_marks_dirty() {
    for before in every_cursor() {
        for v in [false, true] {
            let mut c = before;
            c.set_show(v);
            assert_eq!(c.show, v);
            assert!(c.dirty);
        }
    }
}

#[test]
fn hide_cursor_is_set_show_false() {
    for before in every_cursor() {
        let mut hidden = before;
        hidden.hide_cursor();
        let mut unset = before;
        unset.set_show(false);
        assert_eq!(hidden, unset);
        assert!(!hidden.show);
        assert!(hidden.dirty);
    }
}

#[test]
fn dirty_marks_and_keeps_show() {
    for before in every_cursor() {
        let mut c = before;
        c.dirty();
        assert_eq!(c.show, before.show);
        assert!(c.dirty);
    }
}

#[test]
fn cursor_is_dirty_after_each_call_of_a_sequence() {
    for before in every_cursor() {
        let mut c = before;
        c.dirty();
        assert!(c.dirty);
        c.set_show(true);
        assert!(c.dirty);
        assert!(c.show);
        c.hide_cursor();
        assert!(c.dirty);
        assert!(!c.show);
        c.dirty();
        assert!(c.dirty);
        assert!(!c.show);
        c.set_show(false);
        assert!(c.dirty);
        c.set_show(true);
        assert!(c.dirty);
        assert!(c.show);
    }
}

#[test]
fn marking_twice_is_marking_once() {
    let mut once = Cursor { show: true, dirty: false };
    once.dirty();
    let mut twice = Cursor { show: true, dirty: false };
    twice.dirty();
    twice.dirty();
    assert_eq!(once, twice);
}
