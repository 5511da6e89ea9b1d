use zr_alshasha::keys::{
    iced_to_key, rdev_to_key, unknown_to_key, HookKey, Keys, ToolkitKey, BACK_SPACE, ENTER,
};

#[test]
fn hook_letters_and_digits() {
    assert_eq!(rdev_to_key(&HookKey::KeyA), "A");
    assert_eq!(rdev_to_key(&HookKey::KeyZ), "Z");
    assert_eq!(rdev_to_key(&HookKey::Num7), "7");
    assert_eq!(rdev_to_key(&HookKey::Kp0), "0");
    assert_eq!(rdev_to_key(&HookKey::F12), "F12");
}

#[test]
fn hook_named_keys() {
    assert_eq!(rdev_to_key(&HookKey::Backspace), BACK_SPACE);
    assert_eq!(rdev_to_key(&HookKey::Backspace), "\u{232b}");
    assert_eq!(rdev_to_key(&HookKey::Return), ENTER);
    assert_eq!(rdev_to_key(&HookKey::KpReturn), "\u{23ce}");
    assert_eq!(rdev_to_key(&HookKey::Space), "_");
    assert_eq!(rdev_to_key(&HookKey::Insert), "Ins");
    assert_eq!(rdev_to_key(&HookKey::BackSlash), "\\");
    assert_eq!(rdev_to_key(&HookKey::ControlLeft), rdev_to_key(&HookKey::ControlRight));
    assert_eq!(rdev_to_key(&HookKey::MetaLeft), "Win");
}

#[test]
fn hook_unknown_codes_are_decimal() {
    assert_eq!(rdev_to_key(&HookKey::Unknown(42)), "42");
    assert_eq!(rdev_to_key(&HookKey::Unknown(0)), "0");
    assert_eq!(rdev_to_key(&HookKey::Unknown(1000)), "1000");
    assert_eq!(unknown_to_key(&u32::MAX), "4294967295");
    assert_eq!(unknown_to_key(&10), "10");
}

#[test]
fn toolkit_keys() {
    assert_eq!(iced_to_key(&ToolkitKey::A), "A");
    assert_eq!(iced_to_key(&ToolkitKey::Key1), "1");
    assert_eq!(iced_to_key(&ToolkitKey::Comma), ",");
    assert_eq!(iced_to_key(&ToolkitKey::Insert), "Insert");
    assert_eq!(iced_to_key(&ToolkitKey::Backspace), BACK_SPACE);
    assert_eq!(iced_to_key(&ToolkitKey::NumpadEnter), ENTER);
    assert_eq!(iced_to_key(&ToolkitKey::F24), "F24");
}

#[test]
fn toolkit_unlisted_keys_fall_back() {
    assert_eq!(iced_to_key(&ToolkitKey::Mail), "?");
    assert_eq!(iced_to_key(&ToolkitKey::AbntC1), "?");
    assert_eq!(iced_to_key(&ToolkitKey::Power), "?");
}

#[test]
fn alphabets_may_disagree() {
    assert_eq!(rdev_to_key(&HookKey::Insert), "Ins");
    assert_eq!(iced_to_key(&ToolkitKey::Insert), "Insert");
}

#[test]
fn mapping_is_deterministic() {
    let hook = [HookKey::KeyQ, HookKey::Tab, HookKey::Unknown(77), HookKey::Function];
    for k in hook.iter() {
        assert_eq!(rdev_to_key(k), rdev_to_key(k));
        assert!(!rdev_to_key(k).is_empty());
    }
    let toolkit = [ToolkitKey::Q, ToolkitKey::Tab, ToolkitKey::Mute, ToolkitKey::Yen];
    for k in toolkit.iter() {
        assert_eq!(iced_to_key(k), iced_to_key(k));
        assert!(!iced_to_key(k).is_empty());
    }
}

#[test]
fn keys_trait_goes_through_the_tables() {
    assert_eq!(HookKey::KeyB.key_to_string(), "B");
    assert_eq!(ToolkitKey::Period.key_to_string(), ".");
}
