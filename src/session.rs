//! The keystroke state machine: one key in, the next state and the action
//! for the caller to perform out.

use vstd::prelude::*;
use crate::amount::{all_digits, amount_of, digit_of, digit_spec, lemma_decimal_single, parse_amount};
use crate::browser::{backward, forward, last_index, App};
use crate::params::{advance, retreat, Params};
use crate::results::{found_href, html_address, is_alternate, is_pdf, Link, Response};
use crate::seen::SeenSet;
use crate::text::string_of_chars;

verus! {

/// A key press as the state machine sees it.
#[derive(Clone, Copy, Debug, PartialEq, Eq, Structural)]
pub enum Key {
    Char(char),
    Up,
    Down,
    Enter,
    Backspace,
    Other,
}

/// Which keys the state machine is reading.
#[derive(Clone, Copy, Debug, PartialEq, Eq, Structural)]
pub enum Mode {
    /// Navigating the result page.
    Browse,
    /// Typing a new query.
    Search,
    /// Showing the help text until the next key.
    Help,
}

/// What the caller does after a key was handled.
#[derive(Clone, Debug, PartialEq, Eq)]
pub enum Action {
    /// Nothing beyond drawing the new state.
    Nothing,
    /// Fetch the page that the parameters name and load it.
    Fetch,
    /// Open this address in a browser.
    Open(String),
    /// Persist the seen-set and stop.
    Quit,
}

/// The whole interactive state: the page on screen, what to fetch, the
/// count being typed, the mode and the query being typed.
pub struct Session {
    app: App,
    params: Params,
    amount: Vec<u8>,
    mode: Mode,
    query: Vec<char>,
}

/// Row count that the typed digits give for a row step.
pub open spec fn row_amount(d: Seq<u8>) -> nat {
    amount_of(d, usize::MAX as nat)
}

/// Page count that the typed digits give for a page step.
pub open spec fn page_amount(d: Seq<u8>) -> u16 {
    amount_of(d, u16::MAX as nat) as u16
}

/// The document that commands act on: the selected row, or row 0 when
/// nothing is selected; `None` when the page has no such row.
pub open spec fn selected_doc(a: App) -> Option<Response> {
    let k = match a.current_spec() {
        Some(i) => i as int,
        None => 0,
    };
    if k < a.items_spec().len() {
        Some(a.items_spec()[k])
    } else {
        None
    }
}

/// `act` opens the address that `found_href` gives for `links`, or does
/// nothing when there is none.
pub open spec fn opens(
    links: Seq<Link>,
    p: spec_fn(Link) -> bool,
    f: spec_fn(Seq<char>) -> Seq<char>,
    act: Action,
) -> bool {
    match act {
        Action::Open(h) => found_href(links, p, f, Some(h)),
        Action::Nothing => found_href(links, p, f, None),
        _ => false,
    }
}

/// `t` equals `s` but for the selected row.
pub open spec fn moved_to(s: Session, t: Session, row: nat) -> bool {
    &&& t.app_spec().current_spec() == Some(row as usize)
    &&& t.app_spec().items_spec() == s.app_spec().items_spec()
    &&& t.app_spec().seen_spec() == s.app_spec().seen_spec()
    &&& t.params_spec() == s.params_spec()
    &&& t.mode_spec() == s.mode_spec()
    &&& t.query_spec() == s.query_spec()
}

/// `t` equals `s` but for the seen-set, which becomes `seen`.
pub open spec fn seen_becomes(s: Session, t: Session, seen: Set<Seq<char>>) -> bool {
    &&& t.app_spec().current_spec() == s.app_spec().current_spec()
    &&& t.app_spec().items_spec() == s.app_spec().items_spec()
    &&& t.app_spec().seen_spec() == seen
    &&& t.params_spec() == s.params_spec()
    &&& t.amount_spec() == s.amount_spec()
    &&& t.mode_spec() == s.mode_spec()
    &&& t.query_spec() == s.query_spec()
}

/// `t` equals `s` but for the mode, the typed count, the query being typed
/// and the parameters, which become the ones given.
pub open spec fn only_changes(
    s: Session,
    t: Session,
    mode: Mode,
    amount: Seq<u8>,
    query: Seq<char>,
    params: Params,
) -> bool {
    &&& t.app_spec() == s.app_spec()
    &&& t.mode_spec() == mode
    &&& t.amount_spec() == amount
    &&& t.query_spec() == query
    &&& t.params_spec() == params
}

/// One key handled in the help overlay: back to browsing, the key dropped.
pub open spec fn help_step(s: Session, t: Session, act: Action) -> bool {
    &&& act == Action::Nothing
    &&& only_changes(s, t, Mode::Browse, s.amount_spec(), s.query_spec(), s.params_spec())
}

/// One key handled while a query is typed.
pub open spec fn search_step(s: Session, key: Key, t: Session, act: Action) -> bool {
    let q = s.query_spec();
    let p = s.params_spec();
    let d = s.amount_spec();
    match key {
        Key::Enter => {
            &&& act == Action::Fetch
            &&& t.app_spec() == s.app_spec()
            &&& t.mode_spec() == Mode::Browse
            &&& t.amount_spec() == d
            &&& t.query_spec() == Seq::<char>::empty()
            &&& t.params_spec().query@ == q
            &&& t.params_spec().page == p.page
        },
        Key::Char(c) => act == Action::Nothing && only_changes(s, t, Mode::Search, d, q.push(c), p),
        Key::Backspace => {
            &&& act == Action::Nothing
            &&& only_changes(
                s,
                t,
                Mode::Search,
                d,
                if q.len() > 0 {
                    q.drop_last()
                } else {
                    q
                },
                p,
            )
        },
        _ => act == Action::Nothing && only_changes(s, t, Mode::Search, d, q, p),
    }
}

/// One key handled while browsing.
pub open spec fn browse_step(s: Session, key: Key, t: Session, act: Action) -> bool {
    let a = s.app_spec();
    let p = s.params_spec();
    let d = s.amount_spec();
    let q = s.query_spec();
    let len = a.items_spec().len();
    let c = match key {
        Key::Char(c) => Some(c),
        _ => None,
    };
    if c is Some && digit_spec(c->Some_0) is Some {
        act == Action::Nothing && only_changes(
            s,
            t,
            Mode::Browse,
            d.push(digit_spec(c->Some_0)->Some_0),
            q,
            p,
        )
    } else if key == Key::Char('q') {
        act == Action::Quit && only_changes(s, t, Mode::Browse, d, q, p)
    } else if key == Key::Down || key == Key::Char('j') {
        &&& act == Action::Nothing
        &&& moved_to(s, t, forward(a.current_spec(), row_amount(d), len))
        &&& t.amount_spec() == Seq::<u8>::empty()
    } else if key == Key::Up || key == Key::Char('k') {
        &&& act == Action::Nothing
        &&& moved_to(s, t, backward(a.current_spec(), row_amount(d)))
        &&& t.amount_spec() == Seq::<u8>::empty()
    } else if key == Key::Char('G') {
        act == Action::Nothing && moved_to(s, t, last_index(len)) && t.amount_spec() == d
    } else if key == Key::Char('g') {
        act == Action::Nothing && moved_to(s, t, 0) && t.amount_spec() == d
    } else if key == Key::Char('n') {
        act == Action::Fetch && only_changes(
            s,
            t,
            Mode::Browse,
            Seq::<u8>::empty(),
            q,
            Params { page: advance(p.page, page_amount(d)), ..p },
        )
    } else if key == Key::Char('p') {
        act == Action::Fetch && only_changes(
            s,
            t,
            Mode::Browse,
            Seq::<u8>::empty(),
            q,
            Params { page: retreat(p.page, page_amount(d)), ..p },
        )
    } else if key == Key::Char('/') {
        act == Action::Nothing && only_changes(s, t, Mode::Search, d, Seq::<char>::empty(), p)
    } else if key == Key::Char('b') {
        &&& act == Action::Fetch
        &&& t.app_spec() == a
        &&& t.mode_spec() == Mode::Browse
        &&& t.amount_spec() == d
        &&& t.query_spec() == q
        &&& t.params_spec().page == p.page
        &&& t.params_spec().query@ == Seq::<char>::empty()
    } else if key == Key::Char('h') {
        act == Action::Nothing && only_changes(s, t, Mode::Help, d, q, p)
    } else if key == Key::Char('o') {
        &&& only_changes(s, t, Mode::Browse, d, q, p)
        &&& match selected_doc(a) {
            Some(doc) => opens(doc.links@, |l: Link| is_pdf(l), |h: Seq<char>| h, act),
            None => act == Action::Nothing,
        }
    } else if key == Key::Char('t') {
        &&& only_changes(s, t, Mode::Browse, d, q, p)
        &&& match selected_doc(a) {
            Some(doc) => opens(
                doc.links@,
                |l: Link| is_alternate(l),
                |h: Seq<char>| html_address(h),
                act,
            ),
            None => act == Action::Nothing,
        }
    } else if key == Key::Char('s') {
        &&& act == Action::Nothing
        &&& seen_becomes(
            s,
            t,
            match selected_doc(a) {
                Some(doc) => a.seen_spec().insert(doc.id@),
                None => a.seen_spec(),
            },
        )
    } else if key == Key::Char('d') {
        &&& act == Action::Nothing
        &&& seen_becomes(
            s,
            t,
            match selected_doc(a) {
                Some(doc) => a.seen_spec().remove(doc.id@),
                None => a.seen_spec(),
            },
        )
    } else {
        act == Action::Nothing && only_changes(s, t, Mode::Browse, d, q, p)
    }
}

/// `t` and `act` are what handling `key` in state `s` gives.
pub open spec fn stepped(s: Session, key: Key, t: Session, act: Action) -> bool {
    match s.mode_spec() {
        Mode::Help => help_step(s, t, act),
        Mode::Search => search_step(s, key, t, act),
        Mode::Browse => browse_step(s, key, t, act),
    }
}

impl Session {
    /// The page on screen.
    pub closed spec fn app_spec(&self) -> App {
        self.app
    }

    /// What the next fetch asks for.
    pub closed spec fn params_spec(&self) -> Params {
        self.params
    }

    /// The digits typed so far, as values.
    pub closed spec fn amount_spec(&self) -> Seq<u8> {
        self.amount@
    }

    /// The mode.
    pub closed spec fn mode_spec(&self) -> Mode {
        self.mode
    }

    /// The query typed so far in search mode.
    pub closed spec fn query_spec(&self) -> Seq<char> {
        self.query@
    }

    /// The page state is well formed and the count holds digits only.
    pub open spec fn wf(&self) -> bool {
        self.app_spec().wf() && all_digits(self.amount_spec())
    }

    /// Browsing page 1 of the seed query, with `ids` as the seen-set and no
    /// documents loaded yet.
    pub fn new(ids: SeenSet) -> (r: Session)
        requires
            ids.wf(),
        ensures
            r.wf(),
            r.app_spec().items_spec().len() == 0,
            r.app_spec().current_spec() is None,
            r.app_spec().seen_spec() == ids@,
            r.params_spec().page == 1,
            r.params_spec().query@ == seq!['a', 'l', 'g', 'o', 'r', 'i', 't', 'h', 'm', 's'],
            r.mode_spec() == Mode::Browse,
            r.amount_spec().len() == 0,
            r.query_spec().len() == 0,
    {
        let mut app = App::new();
        app.set_ids(ids);
        Session {
            app,
            params: Params::new(),
            amount: Vec::new(),
            mode: Mode::Browse,
            query: Vec::new(),
        }
    }

    /// The page on screen.
    pub fn app(&self) -> (r: &App)
        ensures
            *r == self.app_spec(),
    {
        &self.app
    }

    /// What the next fetch asks for.
    pub fn params(&self) -> (r: &Params)
        ensures
            *r == self.params_spec(),
    {
        &self.params
    }

    /// The mode.
    pub fn mode(&self) -> (r: Mode)
        ensures
            r == self.mode_spec(),
    {
        self.mode
    }

    /// The query typed so far in search mode.
    pub fn search_text(&self) -> (r: String)
        ensures
            r@ == self.query_spec(),
    {
        string_of_chars(&self.query)
    }

    /// Loads a fetched page; the selection is cleared.
    pub fn load_items(&mut self, items: Vec<Response>)
        requires
            old(self).wf(),
        ensures
            final(self).wf(),
            final(self).app_spec().items_spec() == items@,
            final(self).app_spec().current_spec() is None,
            final(self).app_spec().seen_spec() == old(self).app_spec().seen_spec(),
            final(self).params_spec() == old(self).params_spec(),
            final(self).mode_spec() == old(self).mode_spec(),
            final(self).amount_spec() == old(self).amount_spec(),
            final(self).query_spec() == old(self).query_spec(),
    {
        self.app.update_items(items);
    }

    fn take_row_amount(&mut self) -> (r: usize)
        requires
            old(self).wf(),
        ensures
            final(self).wf(),
            r as nat == row_amount(old(self).amount_spec()),
            final(self).amount_spec() == Seq::<u8>::empty(),
            final(self).app == old(self).app,
            final(self).params == old(self).params,
            final(self).mode == old(self).mode,
            final(self).query == old(self).query,
    {
        let r = parse_amount(&self.amount, usize::MAX as u64) as usize;
        self.amount = Vec::new();
        r
    }

    fn take_page_amount(&mut self) -> (r: u16)
        requires
            old(self).wf(),
        ensures
            final(self).wf(),
            r == page_amount(old(self).amount_spec()),
            final(self).amount_spec() == Seq::<u8>::empty(),
            final(self).app == old(self).app,
            final(self).params == old(self).params,
            final(self).mode == old(self).mode,
            final(self).query == old(self).query,
    {
        let r = parse_amount(&self.amount, u16::MAX as u64) as u16;
        self.amount = Vec::new();
        r
    }

    fn handle_search(&mut self, key: Key) -> (r: Action)
        requires
            old(self).wf(),
            old(self).mode == Mode::Search,
        ensures
            final(self).wf(),
            search_step(*old(self), key, *final(self), r),
    {
        match key {
            Key::Enter => {
                let q = string_of_chars(&self.query);
                self.params.set_query(q);
                self.query = Vec::new();
                self.mode = Mode::Browse;
                Action::Fetch
            },
            Key::Char(c) => {
                self.query.push(c);
                Action::Nothing
            },
            Key::Backspace => {
                self.query.pop();
                Action::Nothing
            },
            _ => Action::Nothing,
        }
    }

    fn handle_browse(&mut self, key: Key) -> (r: Action)
        requires
            old(self).wf(),
            old(self).mode == Mode::Browse,
        ensures
            final(self).wf(),
            browse_step(*old(self), key, *final(self), r),
    {
        if let Key::Char(c) = key {
            if let Some(v) = digit_of(c) {
                self.amount.push(v);
                return Action::Nothing;
            }
        }
        match key {
            Key::Char('q') => Action::Quit,
            Key::Down | Key::Char('j') => {
                let n = self.take_row_amount();
                self.app.next_by(n);
                Action::Nothing
            },
            Key::Up | Key::Char('k') => {
                let n = self.take_row_amount();
                self.app.previous_by(n);
                Action::Nothing
            },
            Key::Char('G') => {
                self.app.last_item();
                Action::Nothing
            },
            Key::Char('g') => {
                self.app.first_item();
                Action::Nothing
            },
            Key::Char('n') => {
                let n = self.take_page_amount();
                self.params.next_page_by(n);
                Action::Fetch
            },
            Key::Char('p') => {
                let n = self.take_page_amount();
                self.params.prev_page_by(n);
                Action::Fetch
            },
            Key::Char('/') => {
                self.query = Vec::new();
                self.mode = Mode::Search;
                Action::Nothing
            },
            Key::Char('b') => {
                self.params.set_query(String::new());
                Action::Fetch
            },
            Key::Char('h') => {
                self.mode = Mode::Help;
                Action::Nothing
            },
            Key::Char('o') => match self.app.selected() {
                Some(doc) => match doc.pdf_href() {
                    Some(h) => Action::Open(h),
                    None => Action::Nothing,
                },
                None => Action::Nothing,
            },
            Key::Char('t') => match self.app.selected() {
                Some(doc) => match doc.html_href() {
                    Some(h) => Action::Open(h),
                    None => Action::Nothing,
                },
                None => Action::Nothing,
            },
            Key::Char('s') => {
                let id = match self.app.selected() {
                    Some(doc) => Some(doc.id.clone()),
                    None => None,
                };
                if let Some(id) = id {
                    self.app.add_id(id);
                }
                Action::Nothing
            },
            Key::Char('d') => {
                let id = match self.app.selected() {
                    Some(doc) => Some(doc.id.clone()),
                    None => None,
                };
                if let Some(id) = id {
                    self.app.remove_id(id);
                }
                Action::Nothing
            },
            _ => Action::Nothing,
        }
    }

    /// Handles one key press and says what the caller does next.
    pub fn handle_key(&mut self, key: Key) -> (r: Action)
        requires
            old(self).wf(),
        ensures
            final(self).wf(),
            stepped(*old(self), key, *final(self), r),
    {
        match self.mode {
            Mode::Help => {
                self.mode = Mode::Browse;
                Action::Nothing
            },
            Mode::Search => self.handle_search(key),
            Mode::Browse => self.handle_browse(key),
        }
    }
}

/// Typing one digit and then a row-down key moves the selection down by
/// exactly that digit's value, clamped to the last row, and uses the count
/// up: a second row-down key moves by one row.
pub proof fn lemma_count_then_step(
    s0: Session,
    c: char,
    s1: Session,
    a1: Action,
    s2: Session,
    a2: Action,
    s3: Session,
    a3: Action,
)
    requires
        s0.wf(),
        s0.mode_spec() == Mode::Browse,
        s0.amount_spec().len() == 0,
        digit_spec(c) is Some,
        stepped(s0, Key::Char(c), s1, a1),
        stepped(s1, Key::Char('j'), s2, a2),
        stepped(s2, Key::Char('j'), s3, a3),
    ensures
        s2.app_spec().current_spec() == Some(
            forward(
                s0.app_spec().current_spec(),
                digit_spec(c)->Some_0 as nat,
                s0.app_spec().items_spec().len(),
            ) as usize,
        ),
        s2.amount_spec().len() == 0,
        s3.app_spec().current_spec() == Some(
            forward(s2.app_spec().current_spec(), 1, s0.app_spec().items_spec().len()) as usize,
        ),
{
    let n = digit_spec(c)->Some_0;
    assert(s0.amount_spec().push(n) =~= seq![n]);
    lemma_decimal_single(n);
    assert(digit_spec('j') is None);
}

} // verus!
