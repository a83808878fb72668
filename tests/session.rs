use arxiv_cli::amount::parse_amount;
use arxiv_cli::results::html_link;
use arxiv_cli::text::replace_all;
use arxiv_cli::{Action, Key, Link, Mode, Response, SeenSet, Session};

fn link(href: &str, rel: &str, title: Option<&str>) -> Link {
    Link {
        href: href.to_string(),
        rel: rel.to_string(),
        type_field: None,
        title: title.map(|t| t.to_string()),
    }
}

fn doc(id: &str, links: Vec<Link>) -> Response {
    Response { id: id.to_string(), links, ..Default::default() }
}

fn session_with(n: usize) -> Session {
    let mut s = Session::new(SeenSet::new());
    s.load_items((0..n).map(|i| doc(&format!("id{}", i), vec![])).collect());
    s
}

fn press(s: &mut Session, keys: &str) -> Action {
    let mut last = Action::Nothing;
    for c in keys.chars() {
        last = s.handle_key(Key::Char(c));
    }
    last
}

#[test]
fn pdf_link_resolves_its_href() {
    let d = doc(
        "1",
        vec![
            link("https://x/abs/1", "alternate", None),
            link("https://x/pdf/1", "related", Some("pdf")),
            link("https://x/pdf/2", "related", Some("pdf")),
        ],
    );
    assert_eq!(d.pdf_href(), Some("https://x/pdf/1".to_string()));
    let mut s = Session::new(SeenSet::new());
    s.load_items(vec![d]);
    assert_eq!(s.handle_key(Key::Char('o')), Action::Open("https://x/pdf/1".to_string()));
}

#[test]
fn pdf_open_without_pdf_link_is_a_no_op() {
    let d = doc("1", vec![link("https://x/abs/1", "alternate", Some("doi"))]);
    assert_eq!(d.pdf_href(), None);
    let mut s = Session::new(SeenSet::new());
    s.load_items(vec![d]);
    assert_eq!(s.handle_key(Key::Char('o')), Action::Nothing);
}

#[test]
fn open_on_empty_page_is_a_no_op() {
    let mut s = Session::new(SeenSet::new());
    assert_eq!(s.handle_key(Key::Char('o')), Action::Nothing);
    assert_eq!(s.handle_key(Key::Char('t')), Action::Nothing);
    assert_eq!(s.handle_key(Key::Char('s')), Action::Nothing);
    assert_eq!(s.app().ids().len(), 0);
}

#[test]
fn alternate_link_rewrites_to_html_host() {
    assert_eq!(html_link("https://arxiv.org/abs/1234"), "https://ar5iv.org/abs/1234");
    let d = doc("1", vec![link("https://arxiv.org/abs/1234", "alternate", None)]);
    assert_eq!(d.html_href(), Some("https://ar5iv.org/abs/1234".to_string()));
    let mut s = Session::new(SeenSet::new());
    s.load_items(vec![d]);
    assert_eq!(
        s.handle_key(Key::Char('t')),
        Action::Open("https://ar5iv.org/abs/1234".to_string())
    );
}

#[test]
fn replace_all_matches_std_replace() {
    for t in ["", "arxiv", "arxivarxiv", "aarxiv", "arxi", "x arxiv y arxiv", "ärxiv arxiv"] {
        assert_eq!(replace_all(t, "arxiv", "ar5iv"), t.replace("arxiv", "ar5iv"));
    }
    assert_eq!(replace_all("aaa", "aa", "b"), "ba");
}

#[test]
fn count_then_step_moves_by_count_and_clears_it() {
    let mut s = session_with(20);
    press(&mut s, "j");
    assert_eq!(s.app().current(), Some(0));
    press(&mut s, "j");
    assert_eq!(s.app().current(), Some(1));
    press(&mut s, "5j");
    assert_eq!(s.app().current(), Some(6));
    press(&mut s, "j");
    assert_eq!(s.app().current(), Some(7));
    press(&mut s, "12j");
    assert_eq!(s.app().current(), Some(19));
    press(&mut s, "3k");
    assert_eq!(s.app().current(), Some(16));
    s.handle_key(Key::Up);
    assert_eq!(s.app().current(), Some(15));
    s.handle_key(Key::Down);
    assert_eq!(s.app().current(), Some(16));
}

#[test]
fn jump_keys_keep_the_count() {
    let mut s = session_with(10);
    press(&mut s, "3G");
    assert_eq!(s.app().current(), Some(9));
    press(&mut s, "k");
    assert_eq!(s.app().current(), Some(6));
    press(&mut s, "g");
    assert_eq!(s.app().current(), Some(0));
}

#[test]
fn page_keys_consume_count_and_fetch() {
    let mut s = Session::new(SeenSet::new());
    assert_eq!(press(&mut s, "5n"), Action::Fetch);
    assert_eq!(s.params().page, 6);
    assert_eq!(press(&mut s, "n"), Action::Fetch);
    assert_eq!(s.params().page, 7);
    assert_eq!(press(&mut s, "2p"), Action::Fetch);
    assert_eq!(s.params().page, 5);
    assert_eq!(press(&mut s, "99p"), Action::Fetch);
    assert_eq!(s.params().page, 0);
}

#[test]
fn oversized_count_falls_back_to_one() {
    let mut s = Session::new(SeenSet::new());
    press(&mut s, "70000n");
    assert_eq!(s.params().page, 2);
    assert_eq!(parse_amount(&vec![7, 0, 0, 0, 0], u16::MAX as u64), 1);
    assert_eq!(parse_amount(&vec![6, 5, 5, 3, 5], u16::MAX as u64), 65535);
    assert_eq!(parse_amount(&vec![], u16::MAX as u64), 1);
    assert_eq!(parse_amount(&vec![0], u16::MAX as u64), 0);
    assert_eq!(parse_amount(&vec![0, 4, 2], u64::MAX), 42);
}

#[test]
fn search_mode_edits_and_confirms_query() {
    let mut s = Session::new(SeenSet::new());
    assert_eq!(press(&mut s, "/"), Action::Nothing);
    assert_eq!(s.mode(), Mode::Search);
    press(&mut s, "graphz");
    assert_eq!(s.search_text(), "graphz");
    s.handle_key(Key::Backspace);
    press(&mut s, "s q");
    assert_eq!(s.search_text(), "graphs q");
    assert_eq!(s.params().query, "algorithms");
    assert_eq!(s.handle_key(Key::Enter), Action::Fetch);
    assert_eq!(s.mode(), Mode::Browse);
    assert_eq!(s.params().query, "graphs q");
    assert_eq!(s.params().page, 1);
    assert_eq!(s.search_text(), "");
}

#[test]
fn backspace_on_empty_query_is_harmless() {
    let mut s = Session::new(SeenSet::new());
    press(&mut s, "/");
    s.handle_key(Key::Backspace);
    assert_eq!(s.search_text(), "");
    assert_eq!(s.mode(), Mode::Search);
}

#[test]
fn browse_all_clears_query() {
    let mut s = Session::new(SeenSet::new());
    assert_eq!(press(&mut s, "b"), Action::Fetch);
    assert_eq!(s.params().query, "");
}

#[test]
fn help_overlay_swallows_next_key() {
    let mut s = session_with(5);
    press(&mut s, "h");
    assert_eq!(s.mode(), Mode::Help);
    assert_eq!(press(&mut s, "q"), Action::Nothing);
    assert_eq!(s.mode(), Mode::Browse);
    assert_eq!(press(&mut s, "q"), Action::Quit);
}

#[test]
fn mark_and_unmark_selected() {
    let mut s = session_with(3);
    press(&mut s, "jj");
    press(&mut s, "s");
    assert!(s.app().is_seen(&"id1".to_string()));
    press(&mut s, "d");
    assert!(!s.app().is_seen(&"id1".to_string()));
}

#[test]
fn unmapped_keys_are_ignored() {
    let mut s = session_with(3);
    assert_eq!(press(&mut s, "z"), Action::Nothing);
    assert_eq!(s.handle_key(Key::Other), Action::Nothing);
    assert_eq!(s.app().current(), None);
}

#[test]
fn loading_a_page_clears_the_selection() {
    let mut s = session_with(3);
    press(&mut s, "G");
    s.load_items(vec![doc("only", vec![])]);
    assert_eq!(s.app().current(), None);
}
