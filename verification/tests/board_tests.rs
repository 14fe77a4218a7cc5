use phira::board::{board_pick_index, position_of};
use phira::home::HomePage;

fn paths(v: &[&str]) -> Vec<String> {
    v.iter().map(|s| s.to_string()).collect()
}

#[test]
fn position_is_first_match() {
    let p = paths(&["a", "b", "a"]);
    assert_eq!(position_of(&p, &"a".to_string()), Some(0));
    assert_eq!(position_of(&p, &"b".to_string()), Some(1));
    assert_eq!(position_of(&p, &"c".to_string()), None);
    assert_eq!(position_of(&Vec::new(), &"c".to_string()), None);
}

#[test]
fn pick_skips_last_chart() {
    assert_eq!(board_pick_index(3, Some(1), 0), 0);
    assert_eq!(board_pick_index(3, Some(1), 1), 2);
    assert_eq!(board_pick_index(3, Some(0), 0), 1);
    assert_eq!(board_pick_index(3, None, 2), 2);
    let mut seen = vec![false; 5];
    for d in 0..4 {
        seen[board_pick_index(5, Some(2), d)] = true;
    }
    assert_eq!(seen, vec![true, true, false, true, true]);
}

/// Chooses the next board and remembers it, as the page does.
fn advance(page: &mut HomePage, p: &Vec<String>) -> Option<usize> {
    let r = page.next_board(p);
    if let Some(i) = r {
        page.show_board(&p[i]);
    }
    r
}

#[test]
fn no_board_without_charts() {
    let mut page = HomePage::new();
    assert_eq!(advance(&mut page, &Vec::new()), None);
    assert_eq!(page.board_last, None);
}

#[test]
fn single_chart_shown_once() {
    let mut page = HomePage::new();
    let p = paths(&["only"]);
    assert_eq!(advance(&mut page, &p), Some(0));
    assert_eq!(page.board_last, Some("only".to_string()));
    assert_eq!(advance(&mut page, &p), None);
    assert_eq!(page.board_last, Some("only".to_string()));
}

#[test]
fn board_never_repeats_last_chart() {
    let p = paths(&["a", "b", "c"]);
    let mut page = HomePage::new();
    let mut last = advance(&mut page, &p).unwrap();
    let mut seen = vec![false; 3];
    for _ in 0..200 {
        let next = advance(&mut page, &p).unwrap();
        assert!(next < 3);
        assert_ne!(next, last);
        assert_eq!(page.board_last.as_deref(), Some(p[next].as_str()));
        seen[next] = true;
        last = next;
    }
    assert_eq!(seen, vec![true, true, true]);
}

#[test]
fn two_charts_alternate() {
    let p = paths(&["a", "b"]);
    let mut page = HomePage::new();
    page.show_board(&"a".to_string());
    for i in 0..10 {
        let want = if i % 2 == 0 { 1 } else { 0 };
        assert_eq!(advance(&mut page, &p), Some(want));
    }
}

#[test]
fn removed_last_chart_is_forgotten() {
    let p = paths(&["x"]);
    let mut page = HomePage::new();
    page.show_board(&"gone".to_string());
    assert_eq!(page.next_board(&p), Some(0));
    assert_eq!(page.board_last.as_deref(), Some("gone"));
}

#[test]
fn board_direction_only_changes_with_an_image() {
    let mut page = HomePage::new();
    page.board_dir = true;
    page.board_loaded(false);
    assert!(page.board_dir);
    page.board_loaded(true);
    assert_eq!(page.board_last, None);
}

#[test]
fn board_direction_follows_the_flag() {
    let mut page = HomePage::new();
    page.set_board_dir(true, true);
    assert!(page.board_dir);
    page.set_board_dir(false, false);
    assert!(page.board_dir);
    page.set_board_dir(true, false);
    assert!(!page.board_dir);
}
