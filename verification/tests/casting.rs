use derecrypt::classes::Derecrypt;
use derecrypt::mods::{WindowDiscriminants, WindowTypes};

#[test]
fn cast_back_twice_keeps_order() {
    let mut dc = Derecrypt::new();
    dc.set_module_config(WindowTypes::ConvertBase { from: 16 });
    dc.cast_module(WindowDiscriminants::ConvertBase, false);
    dc.set_module_config(WindowTypes::FromASCII { sep: String::from(" ") });
    dc.cast_module(WindowDiscriminants::FromASCII, false);
    let chain = dc.caster_list();
    assert_eq!(chain.len(), 2);
    assert!(matches!(*chain[0], WindowTypes::ConvertBase { from: 16 }));
    assert!(matches!(*chain[1], WindowTypes::FromASCII { .. }));
}

#[test]
fn cast_front_prepends() {
    let mut dc = Derecrypt::new();
    dc.set_module_config(WindowTypes::ConvertBase { from: 16 });
    dc.cast_module(WindowDiscriminants::ConvertBase, false);
    dc.set_module_config(WindowTypes::FromASCII { sep: String::from(" ") });
    dc.cast_module(WindowDiscriminants::FromASCII, true);
    let chain = dc.caster_list();
    assert_eq!(chain.len(), 2);
    assert!(matches!(*chain[0], WindowTypes::FromASCII { .. }));
    assert!(matches!(*chain[1], WindowTypes::ConvertBase { from: 16 }));
}

#[test]
fn cast_copies_by_value() {
    let mut dc = Derecrypt::new();
    dc.set_module_config(WindowTypes::ConvertBase { from: 2 });
    dc.cast_module(WindowDiscriminants::ConvertBase, false);
    dc.set_module_config(WindowTypes::ConvertBase { from: 99 });
    let e = dc.get_window_from_disc(WindowDiscriminants::ConvertBase);
    assert!(matches!(e.params_state, WindowTypes::ConvertBase { from: 99 }));
    let chain = dc.caster_list();
    assert_eq!(chain.len(), 1);
    assert!(matches!(*chain[0], WindowTypes::ConvertBase { from: 2 }));
}

#[test]
fn cast_same_module_twice_freezes_each_snapshot() {
    let mut dc = Derecrypt::new();
    dc.set_module_config(WindowTypes::Replace {
        from: String::from("a"),
        to: String::from("b"),
        regex: false,
    });
    dc.cast_module(WindowDiscriminants::Replace, false);
    dc.set_module_config(WindowTypes::Replace {
        from: String::from("x"),
        to: String::from("y"),
        regex: true,
    });
    dc.cast_module(WindowDiscriminants::Replace, false);
    let chain = dc.caster_list();
    assert_eq!(chain.len(), 2);
    match &*chain[0] {
        WindowTypes::Replace { from, to, regex } => {
            assert_eq!(from.as_str(), "a");
            assert_eq!(to.as_str(), "b");
            assert!(!regex);
        }
        _ => panic!("first snapshot lost its variant"),
    }
    match &*chain[1] {
        WindowTypes::Replace { from, to, regex } => {
            assert_eq!(from.as_str(), "x");
            assert_eq!(to.as_str(), "y");
            assert!(*regex);
        }
        _ => panic!("second snapshot lost its variant"),
    }
}

#[test]
fn caster_can_cast_itself() {
    let mut dc = Derecrypt::new();
    dc.cast_module(WindowDiscriminants::Caster, false);
    let chain = dc.caster_list();
    assert_eq!(chain.len(), 1);
    match &*chain[0] {
        WindowTypes::Caster(args) => assert!(args.list.is_empty()),
        _ => panic!("self-cast snapshot lost its variant"),
    }
}

#[test]
fn popout_button_click_toggles_and_menu_casts() {
    let mut dc = Derecrypt::new();
    let closed = dc.popout_button(true, false, false, WindowDiscriminants::Replace);
    assert!(!closed);
    assert!(dc.get_window_from_disc(WindowDiscriminants::Replace).active);
    assert_eq!(dc.caster_list().len(), 0);

    let closed = dc.popout_button(false, true, false, WindowDiscriminants::Replace);
    assert!(closed);
    assert_eq!(dc.caster_list().len(), 1);
    assert!(matches!(*dc.caster_list()[0], WindowTypes::Replace { .. }));

    dc.set_module_config(WindowTypes::ConvertBase { from: 8 });
    let closed = dc.popout_button(false, false, true, WindowDiscriminants::ConvertBase);
    assert!(closed);
    let chain = dc.caster_list();
    assert_eq!(chain.len(), 2);
    assert!(matches!(*chain[0], WindowTypes::ConvertBase { from: 8 }));
    assert!(matches!(*chain[1], WindowTypes::Replace { .. }));
}
