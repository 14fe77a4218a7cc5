use phira::page::{NextPage, RankedPage, RANKED_COURSE_ON_ENTRY};

#[test]
fn back_button_closes_page_once() {
    let mut page = RankedPage::new();
    assert_eq!(page.next_page(), NextPage::Stay);
    assert!(!page.touch(false));
    assert_eq!(page.next_page(), NextPage::Stay);
    assert!(page.touch(true));
    assert_eq!(page.next_page(), NextPage::Pop);
    assert_eq!(page.next_page(), NextPage::Stay);
}

#[test]
fn ranked_page_basics() {
    assert_eq!(RankedPage::label(), "段位认证");
    assert_eq!(RankedPage::new().update(), RANKED_COURSE_ON_ENTRY);
    assert_eq!(RANKED_COURSE_ON_ENTRY, 1);
    assert_eq!(NextPage::default(), NextPage::Stay);
}
