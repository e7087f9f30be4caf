use pointercrate::pagination::{is_ordered, Paginator, Position};

fn hundred() -> Vec<(i64, i32)> {
    (1..=100).map(|i| (i as i64, i)).collect()
}

fn after(key: i64, id: i64) -> Option<Position> {
    Some(Position { key, id })
}

#[test]
fn page_after_fifty_holds_next_twenty_five() {
    let p = Paginator { limit: 25, after: after(50, 50), before: None };
    let (page, header) = p.paginate("/demons", &hundred());
    assert_eq!(page.iter().map(|x| x.1).collect::<Vec<i32>>(), (51..=75).collect::<Vec<i32>>());
    assert!(header.contains("rel=next"));
    assert!(header.contains("rel=prev"));
    assert_eq!(
        header,
        "</demons?limit=25&after=1&after_id=0>; rel=first,\
         </demons?limit=25&after=75&after_id=75>; rel=next,\
         </demons?limit=25&before=51&before_id=51>; rel=prev,\
         </demons?limit=25&before=100&before_id=101>; rel=last"
    );
}

#[test]
fn repeated_pagination_is_identical() {
    let p = Paginator { limit: 25, after: after(50, 50), before: None };
    let items = hundred();
    assert_eq!(p.paginate("/demons", &items), p.paginate("/demons", &items));
}

#[test]
fn order_follows_the_column_not_the_id() {
    let items = vec![(10, 3), (20, 1), (30, 2)];
    assert!(is_ordered(&items));
    let p = Paginator { limit: 2, after: after(20, 1), before: None };
    assert_eq!(p.load(&items), vec![(30, 2)]);
    let first = p.first(&items).unwrap();
    assert_eq!(first, Paginator { limit: 2, after: after(10, 2), before: None });
    assert_eq!(first.load(&items), vec![(10, 3), (20, 1)]);
    assert_eq!(first.next(&items), Some(Paginator { limit: 2, after: after(20, 1), before: None }));
    assert_eq!(first.prev(&items), None);
}

#[test]
fn ties_are_broken_by_id() {
    let items = vec![(5, 1), (5, 2), (5, 3)];
    let p = Paginator { limit: 10, after: after(5, 1), before: None };
    assert_eq!(p.load(&items), vec![(5, 2), (5, 3)]);
}

#[test]
fn unordered_items_are_detected() {
    assert!(!is_ordered(&vec![(1, 1), (1, 1)]));
    assert!(!is_ordered(&vec![(2, 1), (1, 5)]));
    assert!(is_ordered(&vec![(1, 2), (1, 3), (4, 0)]));
    assert!(is_ordered(&Vec::new()));
}

#[test]
fn first_page_has_no_prev() {
    let p = Paginator { limit: 25, after: None, before: None };
    let (page, header) = p.paginate("/x", &hundred());
    assert_eq!(page.len(), 25);
    assert_eq!(page[0], (1, 1));
    assert!(!header.contains("rel=prev"));
    assert!(header.contains("rel=next"));
}

#[test]
fn before_only_takes_the_last_items() {
    let p = Paginator { limit: 25, after: None, before: after(100, 101) };
    let (page, header) = p.paginate("/x", &hundred());
    assert_eq!(page.iter().map(|x| x.1).collect::<Vec<i32>>(), (76..=100).collect::<Vec<i32>>());
    assert!(!header.contains("rel=next"));
    assert_eq!(p.prev(&hundred()), Some(Paginator { limit: 25, after: None, before: after(76, 76) }));
}

#[test]
fn both_bounds_limit_the_window() {
    let p = Paginator { limit: 10, after: after(3, 3), before: after(7, 7) };
    assert_eq!(p.load(&hundred()), vec![(4, 4), (5, 5), (6, 6)]);
}

#[test]
fn empty_collection_has_empty_header() {
    let p = Paginator { limit: 25, after: None, before: None };
    let (page, header) = p.paginate("/x", &Vec::new());
    assert!(page.is_empty());
    assert_eq!(header, "");
}

#[test]
fn single_page_has_only_first_and_last() {
    let p = Paginator { limit: 5, after: None, before: None };
    let (_, header) = p.paginate("/u", &vec![(-3, 9), (0, 2), (4, 4)]);
    assert_eq!(
        header,
        "</u?limit=5&after=-3&after_id=8>; rel=first,</u?limit=5&before=4&before_id=5>; rel=last"
    );
}

#[test]
fn query_writes_present_fields() {
    let p = Paginator { limit: 7, after: after(-12, 3), before: after(40, -1) };
    assert_eq!(p.query(), "limit=7&after=-12&after_id=3&before=40&before_id=-1");
    assert_eq!(
        p.nav_entry("/a", "next"),
        "</a?limit=7&after=-12&after_id=3&before=40&before_id=-1>; rel=next"
    );
}

#[test]
fn zero_limit_gives_empty_page() {
    let p = Paginator { limit: 0, after: None, before: None };
    assert!(p.load(&hundred()).is_empty());
    assert_eq!(p.next(&hundred()), None);
}
