use vstd::prelude::*;
use crate::storage::{views, BrowserInfo, BrowserInfoView, MatchItem, MatchItemView, MatchType};
use crate::text::truncate_string;

verus! {

/// How many characters of a rule's value the rule manager shows.
pub const MATCH_VALUE_WIDTH: usize = 80;

/// What the rule manager shows for one rule.
#[derive(Debug)]
pub struct RuleRow {
    /// The icon of the rule's browser, when that browser is stored.
    pub icon_data: Option<Vec<u8>>,
    pub match_value: String,
    /// The value cut to `MATCH_VALUE_WIDTH` characters.
    pub value_label: String,
    pub match_type: MatchType,
    /// The profile, or empty text for none.
    pub profile_label: String,
}

/// The first browser of `bs` with the given path.
pub open spec fn browser_at(bs: Seq<BrowserInfoView>, path: Seq<char>) -> Option<BrowserInfoView>
    decreases bs.len(),
{
    if bs.len() == 0 {
        None
    } else if bs[0].path == path {
        Some(bs[0])
    } else {
        browser_at(bs.drop_first(), path)
    }
}

pub open spec fn truncated(s: Seq<char>, n: nat) -> Seq<char> {
    if s.len() <= n {
        s
    } else {
        s.subrange(0, n as int) + "..."@
    }
}

/// The row shown for `rule` when `bs` are the known browsers.
pub open spec fn row_of(rule: MatchItemView, bs: Seq<BrowserInfoView>) -> (Option<Seq<u8>>, Seq<char>, Seq<char>, MatchType, Seq<char>) {
    (
        match browser_at(bs, rule.browser_path) {
            Some(b) => Some(b.icon_data),
            None => None,
        },
        rule.match_value,
        truncated(rule.match_value, MATCH_VALUE_WIDTH as nat),
        rule.match_type,
        match rule.profile {
            Some(p) => p,
            None => Seq::empty(),
        },
    )
}

impl RuleRow {
    pub open spec fn view_tuple(&self) -> (Option<Seq<u8>>, Seq<char>, Seq<char>, MatchType, Seq<char>) {
        (
            match self.icon_data {
                Some(v) => Some(v@),
                None => None,
            },
            self.match_value@,
            self.value_label@,
            self.match_type,
            self.profile_label@,
        )
    }
}

fn icon_for(browser_list: &Vec<BrowserInfo>, path: &String) -> (r: Option<Vec<u8>>)
    ensures
        r is None <==> browser_at(views(browser_list@), path@) is None,
        r is Some ==> browser_at(views(browser_list@), path@) is Some
            && r->0@ == browser_at(views(browser_list@), path@)->0.icon_data,
{
    let ghost bs = views(browser_list@);
    assert(bs.subrange(0, bs.len() as int) =~= bs);
    let mut i: usize = 0;
    while i < browser_list.len()
        invariant
            0 <= i <= browser_list@.len(),
            bs == views(browser_list@),
            browser_at(bs, path@) == browser_at(bs.subrange(i as int, bs.len() as int), path@),
        decreases browser_list@.len() - i,
    {
        proof {
            let rest = bs.subrange(i as int, bs.len() as int);
            assert(rest.drop_first() =~= bs.subrange(i as int + 1, bs.len() as int));
            assert(rest[0] == bs[i as int]);
        }
        if browser_list[i].path == *path {
            let icon = browser_list[i].icon_data.clone();
            assert(icon@ =~= browser_list@[i as int].icon_data@);
            return Some(icon);
        }
        i = i + 1;
    }
    assert(bs.subrange(i as int, bs.len() as int).len() == 0);
    None
}

/// The rows of the rule manager: one per rule, in order, each with the icon
/// of its browser looked up by path.
pub fn rule_rows(match_items: &Vec<MatchItem>, browser_list: &Vec<BrowserInfo>) -> (r: Vec<RuleRow>)
    ensures
        r@.len() == match_items@.len(),
        forall|i: int| 0 <= i < r@.len() ==> #[trigger] r@[i].view_tuple() == row_of(
            match_items@[i]@,
            views(browser_list@),
        ),
{
    let mut rows: Vec<RuleRow> = Vec::new();
    let mut i: usize = 0;
    while i < match_items.len()
        invariant
            0 <= i <= match_items@.len(),
            rows@.len() == i,
            forall|j: int| 0 <= j < i ==> #[trigger] rows@[j].view_tuple() == row_of(
                match_items@[j]@,
                views(browser_list@),
            ),
        decreases match_items@.len() - i,
    {
        let item = &match_items[i];
        let profile_label = match &item.profile {
            Some(p) => p.clone(),
            None => String::new(),
        };
        let row = RuleRow {
            icon_data: icon_for(browser_list, &item.browser_path),
            match_value: item.match_value.clone(),
            value_label: truncate_string(item.match_value.as_str(), MATCH_VALUE_WIDTH),
            match_type: item.match_type,
            profile_label,
        };
        rows.push(row);
        i = i + 1;
    }
    rows
}

} // verus!
