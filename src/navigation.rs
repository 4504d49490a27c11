use vstd::prelude::*;
use crate::storage::{opt_seq, views, BrowserInfo, BrowserInfoView, BrowserProfile, BrowserProfileView};

verus! {

/// A page of the picker window.
#[derive(Debug)]
pub enum MenuWindowPage {
    Home,
    ProfileSelector { browser: BrowserInfo, profiles: Vec<BrowserProfile>, profile_text: String },
    MatchContainEditor {
        match_container_text: String,
        browser_path: String,
        profile: Option<String>,
    },
}

pub enum PageView {
    Home,
    ProfileSelector {
        browser: BrowserInfoView,
        profiles: Seq<BrowserProfileView>,
        profile_text: Seq<char>,
    },
    MatchContainEditor { text: Seq<char>, browser_path: Seq<char>, profile: Option<Seq<char>> },
}

impl View for MenuWindowPage {
    type V = PageView;

    open spec fn view(&self) -> PageView {
        match self {
            MenuWindowPage::Home => PageView::Home,
            MenuWindowPage::ProfileSelector { browser, profiles, profile_text } => {
                PageView::ProfileSelector {
                    browser: browser@,
                    profiles: views(profiles@),
                    profile_text: profile_text@,
                }
            },
            MenuWindowPage::MatchContainEditor { match_container_text, browser_path, profile } => {
                PageView::MatchContainEditor {
                    text: match_container_text@,
                    browser_path: browser_path@,
                    profile: opt_seq(*profile),
                }
            },
        }
    }
}

/// The current page and the back-stack of earlier pages.
pub struct NavView {
    pub page: PageView,
    pub stack: Seq<PageView>,
}

impl NavView {
    /// The state a window starts in: `Home`, with nothing to go back to.
    pub open spec fn initial() -> NavView {
        NavView { page: PageView::Home, stack: Seq::empty() }
    }

    /// A forward transition: the current page goes on the stack.
    pub open spec fn forward(self, next: PageView) -> NavView {
        NavView { page: next, stack: self.stack.push(self.page) }
    }

    /// Back: the top of the stack becomes the page; with an empty stack
    /// nothing changes.
    pub open spec fn back(self) -> NavView {
        if self.stack.len() == 0 {
            self
        } else {
            NavView { page: self.stack.last(), stack: self.stack.drop_last() }
        }
    }

    /// Forward transitions to each page of `pages` in turn.
    pub open spec fn forward_all(self, pages: Seq<PageView>) -> NavView
        decreases pages.len(),
    {
        if pages.len() == 0 {
            self
        } else {
            self.forward_all(pages.drop_last()).forward(pages.last())
        }
    }

    /// `n` times back.
    pub open spec fn back_n(self, n: nat) -> NavView
        decreases n,
    {
        if n == 0 {
            self
        } else {
            self.back().back_n((n - 1) as nat)
        }
    }
}

/// The stack after forward transitions holds the old stack, the old page,
/// then all but the last of the new pages.
proof fn lemma_forward_all_stack(nav: NavView, pages: Seq<PageView>)
    requires
        pages.len() > 0,
    ensures
        nav.forward_all(pages).stack == nav.stack.push(nav.page) + pages.drop_last(),
        nav.forward_all(pages).page == pages.last(),
    decreases pages.len(),
{
    if pages.len() > 1 {
        lemma_forward_all_stack(nav, pages.drop_last());
        assert(nav.stack.push(nav.page) + pages.drop_last() =~= (nav.stack.push(nav.page)
            + pages.drop_last().drop_last()).push(pages.drop_last().last()));
    } else {
        assert(nav.forward_all(pages.drop_last()) == nav);
        assert(nav.stack.push(nav.page) + pages.drop_last() =~= nav.stack.push(nav.page));
    }
}

/// Going back `n` times from a stack `base + top` with `n == top.len()`
/// leaves `base`, with the first page of `top` as the current page.
proof fn lemma_back_n(nav: NavView, base: Seq<PageView>, top: Seq<PageView>, last: PageView)
    requires
        nav.stack == base + top,
        nav.page == last,
    ensures
        top.len() > 0 ==> nav.back_n(top.len()) == (NavView { page: top[0], stack: base }),
        top.len() == 0 ==> nav.back_n(0) == nav,
    decreases top.len(),
{
    if top.len() > 0 {
        assert(nav.stack.last() == top.last());
        assert(nav.stack.drop_last() =~= base + top.drop_last());
        let next = nav.back();
        lemma_back_n(next, base, top.drop_last(), top.last());
        if top.len() == 1 {
            assert(next.back_n(0) == next);
        }
    }
}

/// Any `n` forward transitions followed by `n` times back return to the
/// page and stack one started from; from the initial state that is `Home`
/// with an empty stack.
pub proof fn lemma_forward_then_back(nav: NavView, pages: Seq<PageView>)
    ensures
        nav.forward_all(pages).back_n(pages.len()) == nav,
        nav == NavView::initial() ==> nav.forward_all(pages).back_n(pages.len())
            == NavView::initial(),
{
    if pages.len() > 0 {
        lemma_forward_all_stack(nav, pages);
        let top = seq![nav.page] + pages.drop_last();
        assert(nav.stack.push(nav.page) + pages.drop_last() =~= nav.stack + top);
        lemma_back_n(nav.forward_all(pages), nav.stack, top, pages.last());
        assert(top.len() == pages.len());
    }
}

} // verus!
