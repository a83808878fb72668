use arxiv_cli::Params;

#[test]
fn new_params_start_on_page_one_of_seed_query() {
    let p = Params::new();
    assert_eq!(p.page, 1);
    assert_eq!(p.query, "algorithms");
}

#[test]
fn next_page_adds_below_the_cap() {
    let mut p = Params::new();
    p.next_page_by(5);
    assert_eq!(p.page, 6);
}

#[test]
fn next_page_saturates_at_one_thousand() {
    let mut p = Params::new();
    p.next_page_by(999);
    assert_eq!(p.page, 1000);
    p.next_page_by(1);
    assert_eq!(p.page, 1000);
    p.next_page_by(u16::MAX);
    assert_eq!(p.page, 1000);
}

#[test]
fn prev_page_stops_at_zero() {
    let mut p = Params::new();
    p.prev_page_by(1);
    assert_eq!(p.page, 0);
    p.prev_page_by(3);
    assert_eq!(p.page, 0);
}

#[test]
fn prev_page_subtracts_when_room() {
    let mut p = Params::new();
    p.next_page_by(9);
    p.prev_page_by(4);
    assert_eq!(p.page, 6);
}

#[test]
fn advance_then_retreat_returns_to_start() {
    let mut p = Params::new();
    p.next_page_by(37);
    p.prev_page_by(37);
    assert_eq!(p.page, 1);
}

#[test]
fn advance_then_retreat_after_clamp_differs() {
    let mut p = Params::new();
    p.next_page_by(1200);
    p.prev_page_by(1200);
    assert_eq!(p.page, 0);
}

#[test]
fn set_query_keeps_text_verbatim_and_page() {
    let mut p = Params::new();
    p.next_page_by(2);
    p.set_query(String::from("graph theory"));
    assert_eq!(p.query, "graph theory");
    assert_eq!(p.page, 3);
    p.set_query(String::new());
    assert_eq!(p.query, "");
}
