//! Search results as the service returns them, and the links the browser
//! opens from them.

use vstd::prelude::*;
use crate::text::{replaced, replace_all};

verus! {

/// One document of a result page.
#[derive(Clone, Debug, PartialEq, Eq, Default)]
pub struct Response {
    pub id: String,
    pub title: String,
    pub summary: String,
    pub authors: Vec<Vec<String>>,
    pub links: Vec<Link>,
    pub published: String,
    pub updated: String,
    pub categories: Vec<Category>,
}

/// A link of a document: its target, its relation and optional media type
/// and title.
#[derive(Clone, Debug, PartialEq, Eq, Default)]
pub struct Link {
    pub href: String,
    pub rel: String,
    pub type_field: Option<String>,
    pub title: Option<String>,
}

/// A subject category of a document.
#[derive(Clone, Debug, PartialEq, Eq, Default)]
pub struct Category {
    pub term: String,
    pub scheme: String,
}

/// A link titled "pdf".
pub open spec fn is_pdf(l: Link) -> bool {
    l.title is Some && l.title->Some_0@ == seq!['p', 'd', 'f']
}

/// A link whose relation is "alternate".
pub open spec fn is_alternate(l: Link) -> bool {
    l.rel@ == seq!['a', 'l', 't', 'e', 'r', 'n', 'a', 't', 'e']
}

/// `j` is the first position of `links` whose link satisfies `p`.
pub open spec fn first_with(links: Seq<Link>, p: spec_fn(Link) -> bool, j: int) -> bool {
    &&& 0 <= j < links.len()
    &&& p(links[j])
    &&& forall|k: int| 0 <= k < j ==> !p(links[k])
}

/// `r` is the target of the first link satisfying `p` after `f` is applied
/// to it, or `None` when no link satisfies `p`.
pub open spec fn found_href(
    links: Seq<Link>,
    p: spec_fn(Link) -> bool,
    f: spec_fn(Seq<char>) -> Seq<char>,
    r: Option<String>,
) -> bool {
    match r {
        Some(h) => exists|j: int| first_with(links, p, j) && h@ == f(links[j].href@),
        None => forall|j: int| 0 <= j < links.len() ==> !p(links[j]),
    }
}

/// The HTML-rendering address for a document address: each "arxiv" becomes
/// "ar5iv".
pub open spec fn html_address(href: Seq<char>) -> Seq<char> {
    replaced(
        href,
        seq!['a', 'r', 'x', 'i', 'v'],
        seq!['a', 'r', '5', 'i', 'v'],
    )
}

fn same_text(s: &String, lit: &str) -> (r: bool)
    ensures
        r == (s@ == lit@),
{
    let l = String::from_str(lit);
    *s == l
}

/// Position of the first link titled "pdf", if any.
fn find_pdf(links: &Vec<Link>) -> (r: Option<usize>)
    ensures
        match r {
            Some(j) => first_with(links@, |l: Link| is_pdf(l), j as int),
            None => forall|j: int| 0 <= j < links@.len() ==> !is_pdf(links@[j]),
        },
{
    let mut i: usize = 0;
    while i < links.len()
        invariant
            i <= links.len(),
            forall|k: int| 0 <= k < i ==> !is_pdf(links@[k]),
        decreases links.len() - i,
    {
        proof {
            reveal_strlit("pdf");
            assert("pdf"@ =~= seq!['p', 'd', 'f']);
        }
        match &links[i].title {
            Some(t) => {
                if same_text(t, "pdf") {
                    return Some(i);
                }
            },
            None => {},
        }
        i = i + 1;
    }
    None
}

/// Position of the first link whose relation is "alternate", if any.
fn find_alternate(links: &Vec<Link>) -> (r: Option<usize>)
    ensures
        match r {
            Some(j) => first_with(links@, |l: Link| is_alternate(l), j as int),
            None => forall|j: int| 0 <= j < links@.len() ==> !is_alternate(links@[j]),
        },
{
    let mut i: usize = 0;
    while i < links.len()
        invariant
            i <= links.len(),
            forall|k: int| 0 <= k < i ==> !is_alternate(links@[k]),
        decreases links.len() - i,
    {
        proof {
            reveal_strlit("alternate");
            assert("alternate"@ =~= seq!['a', 'l', 't', 'e', 'r', 'n', 'a', 't', 'e']);
        }
        if same_text(&links[i].rel, "alternate") {
            return Some(i);
        }
        i = i + 1;
    }
    None
}

/// Rewrites a document address to its HTML-rendering counterpart.
pub fn html_link(href: &str) -> (r: String)
    ensures
        r@ == html_address(href@),
{
    proof {
        reveal_strlit("arxiv");
        reveal_strlit("ar5iv");
        assert("arxiv"@ =~= seq!['a', 'r', 'x', 'i', 'v']);
        assert("ar5iv"@ =~= seq!['a', 'r', '5', 'i', 'v']);
    }
    replace_all(href, "arxiv", "ar5iv")
}

impl Response {
    /// Target of the first link titled "pdf", or `None` when there is none.
    pub fn pdf_href(&self) -> (r: Option<String>)
        ensures
            found_href(self.links@, |l: Link| is_pdf(l), |h: Seq<char>| h, r),
    {
        match find_pdf(&self.links) {
            Some(j) => Some(self.links[j].href.clone()),
            None => None,
        }
    }

    /// HTML-rendering address of the first "alternate" link, or `None` when
    /// there is none.
    pub fn html_href(&self) -> (r: Option<String>)
        ensures
            found_href(
                self.links@,
                |l: Link| is_alternate(l),
                |h: Seq<char>| html_address(h),
                r,
            ),
    {
        match find_alternate(&self.links) {
            Some(j) => Some(html_link(self.links[j].href.as_str())),
            None => None,
        }
    }
}

} // verus!
