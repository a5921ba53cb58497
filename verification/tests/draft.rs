use clash_verge::draft::Draft;
use clash_verge::verge::IVerge;

#[test]
fn test_draft() {
    let verge = IVerge {
        enable_auto_launch: Some(true),
        enable_tun_mode: Some(false),
        ..IVerge::default()
    };

    let mut draft = Draft::from(verge);

    assert_eq!(draft.data().enable_auto_launch, Some(true));
    assert_eq!(draft.data().enable_tun_mode, Some(false));

    assert_eq!(draft.draft().enable_auto_launch, Some(true));
    assert_eq!(draft.draft().enable_tun_mode, Some(false));

    let d = draft.draft();
    d.enable_auto_launch = Some(false);
    d.enable_tun_mode = Some(true);
    drop(d);

    assert_eq!(draft.data().enable_auto_launch, Some(true));
    assert_eq!(draft.data().enable_tun_mode, Some(false));

    assert_eq!(draft.draft().enable_auto_launch, Some(false));
    assert_eq!(draft.draft().enable_tun_mode, Some(true));

    assert!(draft.apply().is_some());
    assert!(draft.apply().is_none());

    assert_eq!(draft.data().enable_auto_launch, Some(false));
    assert_eq!(draft.data().enable_tun_mode, Some(true));

    assert_eq!(draft.draft().enable_auto_launch, Some(false));
    assert_eq!(draft.draft().enable_tun_mode, Some(true));

    let d = draft.draft();
    d.enable_auto_launch = Some(true);
    drop(d);

    assert_eq!(draft.data().enable_auto_launch, Some(false));

    assert_eq!(draft.draft().enable_auto_launch, Some(true));

    assert!(draft.discard().is_some());

    assert_eq!(draft.data().enable_auto_launch, Some(false));

    assert!(draft.discard().is_none());

    assert_eq!(draft.draft().enable_auto_launch, Some(false));
}

#[test]
fn apply_returns_replaced_data() {
    let mut draft = Draft::new(1u32);
    *draft.draft() = 2;
    assert_eq!(*draft.data(), 1);
    assert_eq!(draft.apply(), Some(1));
    assert_eq!(*draft.data(), 2);
    assert!(!draft.has_draft());
}

#[test]
fn apply_twice_finds_nothing() {
    let mut draft = Draft::new(String::from("a"));
    draft.draft().push('b');
    assert_eq!(draft.apply(), Some(String::from("a")));
    assert_eq!(draft.apply(), None);
    assert_eq!(draft.data(), "ab");
}

#[test]
fn discard_returns_edit_and_keeps_data() {
    let mut draft = Draft::new(vec![1, 2]);
    draft.draft().push(3);
    assert!(draft.has_draft());
    assert_eq!(draft.discard(), Some(vec![1, 2, 3]));
    assert_eq!(draft.data(), &vec![1, 2]);
    assert_eq!(draft.discard(), None);
    assert_eq!(draft.apply(), None);
    assert_eq!(draft.draft(), &mut vec![1, 2]);
}

#[test]
fn draft_reopens_same_edit() {
    let mut draft = Draft::new(10i64);
    *draft.draft() += 5;
    assert_eq!(*draft.draft(), 15);
    assert_eq!(*draft.data(), 10);
}

#[test]
fn latest_prefers_pending_draft() {
    let mut draft = Draft::new(3u8);
    assert_eq!(*draft.latest(), 3);
    *draft.draft() = 4;
    assert_eq!(*draft.latest(), 4);
    *draft.latest_mut() = 5;
    assert_eq!(*draft.data(), 3);
    assert_eq!(draft.apply(), Some(3));
    *draft.latest_mut() = 6;
    assert_eq!(*draft.data(), 6);
    assert!(!draft.has_draft());
}

#[test]
fn data_mut_leaves_draft() {
    let mut draft = Draft::new(1i32);
    *draft.draft() = 2;
    *draft.data_mut() = 9;
    assert_eq!(*draft.data(), 9);
    assert_eq!(draft.discard(), Some(2));
    assert_eq!(*draft.latest(), 9);
}
