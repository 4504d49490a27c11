use vstd::prelude::*;
use crate::text::{str_contains, str_eq};

verus! {

/// The abstract value of a string held in an `Option`.
pub open spec fn opt_seq(o: Option<String>) -> Option<Seq<char>> {
    match o {
        Some(s) => Some(s@),
        None => None,
    }
}

/// The view of the value held in an `Option`.
pub open spec fn opt_view<T: View>(o: Option<T>) -> Option<T::V> {
    match o {
        Some(x) => Some(x@),
        None => None,
    }
}

/// Views of each element of a sequence of executable values.
pub open spec fn views<T: View>(s: Seq<T>) -> Seq<T::V> {
    s.map_values(|x: T| x@)
}

pub proof fn lemma_views_push<T: View>(s: Seq<T>, x: T)
    ensures
        views(s.push(x)) == views(s).push(x@),
{
    assert(views(s.push(x)) =~= views(s).push(x@));
}

/// A browser application that can open web URLs; `path` is its identity.
#[derive(Debug)]
pub struct BrowserInfo {
    pub name: String,
    pub path: String,
    pub icon_data: Vec<u8>,
}

pub struct BrowserInfoView {
    pub name: Seq<char>,
    pub path: Seq<char>,
    pub icon_data: Seq<u8>,
}

impl View for BrowserInfo {
    type V = BrowserInfoView;

    open spec fn view(&self) -> BrowserInfoView {
        BrowserInfoView { name: self.name@, path: self.path@, icon_data: self.icon_data@ }
    }
}

impl Clone for BrowserInfo {
    fn clone(&self) -> (r: Self)
        ensures
            r@ == self@,
    {
        let icon_data = self.icon_data.clone();
        assert(icon_data@ =~= self.icon_data@);
        BrowserInfo { name: self.name.clone(), path: self.path.clone(), icon_data }
    }
}

/// A named profile of one browser; `(browser_path, profile)` is its identity.
#[derive(Debug)]
pub struct BrowserProfile {
    pub browser_path: String,
    pub profile: String,
    pub description: Option<String>,
}

pub struct BrowserProfileView {
    pub browser_path: Seq<char>,
    pub profile: Seq<char>,
    pub description: Option<Seq<char>>,
}

impl View for BrowserProfile {
    type V = BrowserProfileView;

    open spec fn view(&self) -> BrowserProfileView {
        BrowserProfileView {
            browser_path: self.browser_path@,
            profile: self.profile@,
            description: opt_seq(self.description),
        }
    }
}

pub(crate) fn clone_opt_string(o: &Option<String>) -> (r: Option<String>)
    ensures
        opt_seq(r) == opt_seq(*o),
{
    match o {
        Some(s) => Some(s.clone()),
        None => None,
    }
}

impl Clone for BrowserProfile {
    fn clone(&self) -> (r: Self)
        ensures
            r@ == self@,
    {
        BrowserProfile {
            browser_path: self.browser_path.clone(),
            profile: self.profile.clone(),
            description: clone_opt_string(&self.description),
        }
    }
}

/// How a rule's value is compared with a URL.
#[derive(Debug, Clone, Copy, PartialEq, Eq, Structural)]
pub enum MatchType {
    /// The URL must equal the value.
    Equal,
    /// The value must occur somewhere in the URL.
    Contain,
}

impl MatchType {
    /// The name under which the rules table stores the type.
    pub fn name(&self) -> (r: &'static str)
        ensures
            *self == MatchType::Equal ==> r@ == "Equal"@,
            *self == MatchType::Contain ==> r@ == "Contain"@,
    {
        match self {
            MatchType::Equal => "Equal",
            MatchType::Contain => "Contain",
        }
    }

    /// The type stored under `name`, if `name` is one.
    pub fn from_name(name: &str) -> (r: Option<MatchType>)
        ensures
            name@ == "Equal"@ ==> r == Some(MatchType::Equal),
            name@ == "Contain"@ ==> r == Some(MatchType::Contain),
            name@ != "Equal"@ && name@ != "Contain"@ ==> r is None,
    {
        proof {
            reveal_strlit("Equal");
            reveal_strlit("Contain");
            assert("Equal"@.len() != "Contain"@.len());
        }
        if str_eq(name, "Equal") {
            Some(MatchType::Equal)
        } else if str_eq(name, "Contain") {
            Some(MatchType::Contain)
        } else {
            None
        }
    }

    /// The label the rule manager shows for the type.
    pub fn label(&self) -> (r: &'static str)
        ensures
            *self == MatchType::Equal ==> r@ == "equal"@,
            *self == MatchType::Contain ==> r@ == "contain"@,
    {
        match self {
            MatchType::Equal => "equal",
            MatchType::Contain => "contain",
        }
    }
}

/// A persisted rule sending URLs that match `match_value` to a browser and,
/// optionally, one of its profiles; `match_value` is its identity.
#[derive(Debug)]
pub struct MatchItem {
    pub browser_path: String,
    pub profile: Option<String>,
    pub match_type: MatchType,
    pub match_value: String,
}

pub struct MatchItemView {
    pub browser_path: Seq<char>,
    pub profile: Option<Seq<char>>,
    pub match_type: MatchType,
    pub match_value: Seq<char>,
}

impl View for MatchItem {
    type V = MatchItemView;

    open spec fn view(&self) -> MatchItemView {
        MatchItemView {
            browser_path: self.browser_path@,
            profile: opt_seq(self.profile),
            match_type: self.match_type,
            match_value: self.match_value@,
        }
    }
}

impl Clone for MatchItem {
    fn clone(&self) -> (r: Self)
        ensures
            r@ == self@,
    {
        MatchItem {
            browser_path: self.browser_path.clone(),
            profile: clone_opt_string(&self.profile),
            match_type: self.match_type,
            match_value: self.match_value.clone(),
        }
    }
}


/// Each element of `r` is one of the first `i` elements of `s`.
pub open spec fn drawn_from<A>(r: Seq<A>, s: Seq<A>, i: int) -> bool {
    forall|x: int| 0 <= x < r.len() ==> exists|j: int| 0 <= j < i && #[trigger] r[x] == s[j]
}

/// The abstract content of the store: its three tables, in storage order.
pub struct StorageView {
    pub browsers: Seq<BrowserInfoView>,
    pub profiles: Seq<BrowserProfileView>,
    pub rules: Seq<MatchItemView>,
}

pub open spec fn has_browser(bs: Seq<BrowserInfoView>, path: Seq<char>) -> bool {
    exists|i: int| 0 <= i < bs.len() && #[trigger] bs[i].path == path
}

/// Adds `b` unless a browser with its path is already there.
pub open spec fn upsert_browser(bs: Seq<BrowserInfoView>, b: BrowserInfoView) -> Seq<
    BrowserInfoView,
> {
    if has_browser(bs, b.path) {
        bs
    } else {
        bs.push(b)
    }
}

/// Adds each browser of `list` in turn; the first one stored for a path stays.
pub open spec fn upsert_browsers(bs: Seq<BrowserInfoView>, list: Seq<BrowserInfoView>) -> Seq<
    BrowserInfoView,
>
    decreases list.len(),
{
    if list.len() == 0 {
        bs
    } else {
        upsert_browser(upsert_browsers(bs, list.drop_last()), list.last())
    }
}

pub open spec fn has_profile(ps: Seq<BrowserProfileView>, browser_path: Seq<char>, profile: Seq<char>) -> bool {
    exists|i: int|
        0 <= i < ps.len() && #[trigger] ps[i].browser_path == browser_path && ps[i].profile
            == profile
}

/// Adds `p` unless its `(browser_path, profile)` pair is already there.
pub open spec fn upsert_profile(ps: Seq<BrowserProfileView>, p: BrowserProfileView) -> Seq<
    BrowserProfileView,
> {
    if has_profile(ps, p.browser_path, p.profile) {
        ps
    } else {
        ps.push(p)
    }
}

pub open spec fn has_rule(rs: Seq<MatchItemView>, value: Seq<char>) -> bool {
    exists|i: int| 0 <= i < rs.len() && #[trigger] rs[i].match_value == value
}

/// Adds `r` unless a rule with its value is already there.
pub open spec fn insert_rule(rs: Seq<MatchItemView>, r: MatchItemView) -> Seq<MatchItemView> {
    if has_rule(rs, r.match_value) {
        rs
    } else {
        rs.push(r)
    }
}

/// The first rule at index `i` or later that satisfies `pred`.
pub open spec fn first_from(rs: Seq<MatchItemView>, pred: spec_fn(MatchItemView) -> bool, i: int) -> Option<
    MatchItemView,
>
    decreases rs.len() - i,
{
    if i < 0 || i >= rs.len() {
        None
    } else if pred(rs[i]) {
        Some(rs[i])
    } else {
        first_from(rs, pred, i + 1)
    }
}

/// The first rule in storage order that satisfies `pred`.
pub open spec fn first_rule(rs: Seq<MatchItemView>, pred: spec_fn(MatchItemView) -> bool) -> Option<
    MatchItemView,
> {
    first_from(rs, pred, 0)
}

/// `needle` occurs as a contiguous part of `hay`.
pub open spec fn is_substring(needle: Seq<char>, hay: Seq<char>) -> bool {
    exists|i: int|
        0 <= i && i + needle.len() <= hay.len() && #[trigger] hay.subrange(i, i + needle.len())
            == needle
}

pub open spec fn equal_rule_for(url: Seq<char>) -> spec_fn(MatchItemView) -> bool {
    |r: MatchItemView| r.match_type == MatchType::Equal && r.match_value == url
}

pub open spec fn contain_rule_for(url: Seq<char>) -> spec_fn(MatchItemView) -> bool {
    |r: MatchItemView| r.match_type == MatchType::Contain && is_substring(r.match_value, url)
}

pub open spec fn profile_of(browser_path: Seq<char>) -> spec_fn(BrowserProfileView) -> bool {
    |p: BrowserProfileView| p.browser_path == browser_path
}

pub open spec fn not_profile(browser_path: Seq<char>, profile: Seq<char>) -> spec_fn(
    BrowserProfileView,
) -> bool {
    |p: BrowserProfileView| !(p.browser_path == browser_path && p.profile == profile)
}

pub open spec fn scoped_to(r: MatchItemView, browser_path: Seq<char>, profile: Seq<char>) -> bool {
    r.browser_path == browser_path && r.profile == Some(profile)
}

pub open spec fn not_scoped_to(browser_path: Seq<char>, profile: Seq<char>) -> spec_fn(
    MatchItemView,
) -> bool {
    |r: MatchItemView| !scoped_to(r, browser_path, profile)
}

pub open spec fn not_valued(value: Seq<char>) -> spec_fn(MatchItemView) -> bool {
    |r: MatchItemView| r.match_value != value
}

impl StorageView {
    /// Paths, profile pairs and rule values each identify one row.
    pub open spec fn wf(self) -> bool {
        &&& forall|i: int, j: int|
            0 <= i < j < self.browsers.len() ==> #[trigger] self.browsers[i].path
                != #[trigger] self.browsers[j].path
        &&& forall|i: int, j: int|
            0 <= i < j < self.profiles.len() ==> !(#[trigger] self.profiles[i].browser_path
                == #[trigger] self.profiles[j].browser_path && self.profiles[i].profile
                == self.profiles[j].profile)
        &&& forall|i: int, j: int|
            0 <= i < j < self.rules.len() ==> #[trigger] self.rules[i].match_value
                != #[trigger] self.rules[j].match_value
    }

    /// What `resolve` decides for `url`: an `Equal` rule first, then a `Contain` rule.
    pub open spec fn resolve(self, url: Seq<char>) -> Option<MatchItemView> {
        match first_rule(self.rules, equal_rule_for(url)) {
            Some(r) => Some(r),
            None => first_rule(self.rules, contain_rule_for(url)),
        }
    }
}

/// The persistent store of browsers, browser profiles and match rules.
pub struct Storage {
    browsers: Vec<BrowserInfo>,
    profiles: Vec<BrowserProfile>,
    rules: Vec<MatchItem>,
}

impl View for Storage {
    type V = StorageView;

    closed spec fn view(&self) -> StorageView {
        StorageView {
            browsers: views(self.browsers@),
            profiles: views(self.profiles@),
            rules: views(self.rules@),
        }
    }
}

impl Storage {
    #[verifier::type_invariant]
    closed spec fn inv(&self) -> bool {
        self@.wf()
    }

    /// The store's tables satisfy their uniqueness invariants: paths,
    /// profile pairs and rule values each identify one row.
    pub fn establish_wf(&self)
        ensures
            self@.wf(),
    {
        proof { use_type_invariant(self); }
    }

    /// An empty store.
    pub fn new() -> (r: Storage)
        ensures
            r@.browsers.len() == 0,
            r@.profiles.len() == 0,
            r@.rules.len() == 0,
    {
        let r = Storage { browsers: Vec::new(), profiles: Vec::new(), rules: Vec::new() };
        assert(views(r.rules@) =~= Seq::<MatchItemView>::empty());
        assert(views(r.profiles@) =~= Seq::<BrowserProfileView>::empty());
        assert(views(r.browsers@) =~= Seq::<BrowserInfoView>::empty());
        r
    }

    fn set_browsers(&mut self, browsers: Vec<BrowserInfo>)
        requires
            (StorageView { browsers: views(browsers@), ..old(self)@ }).wf(),
        ensures
            final(self)@ == (StorageView { browsers: views(browsers@), ..old(self)@ }),
    {
        self.browsers = browsers;
    }

    fn set_profiles(&mut self, profiles: Vec<BrowserProfile>)
        requires
            (StorageView { profiles: views(profiles@), ..old(self)@ }).wf(),
        ensures
            final(self)@ == (StorageView { profiles: views(profiles@), ..old(self)@ }),
    {
        self.profiles = profiles;
    }

    fn set_rules(&mut self, rules: Vec<MatchItem>)
        requires
            (StorageView { rules: views(rules@), ..old(self)@ }).wf(),
        ensures
            final(self)@ == (StorageView { rules: views(rules@), ..old(self)@ }),
    {
        self.rules = rules;
    }

    /// Adds the rule unless one with the same value is stored; the first one stays.
    pub fn insert_match(&mut self, match_item: MatchItem)
        ensures
            final(self)@.rules == insert_rule(old(self)@.rules, match_item@),
            final(self)@.browsers == old(self)@.browsers,
            final(self)@.profiles == old(self)@.profiles,
    {
        proof { use_type_invariant(&*self); }
        let mut i: usize = 0;
        while i < self.rules.len()
            invariant
                0 <= i <= self.rules@.len(),
                self@.wf(),
                self == old(self),
                forall|j: int| 0 <= j < i ==> self@.rules[j].match_value != match_item@.match_value,
            decreases self.rules@.len() - i,
        {
            if self.rules[i].match_value == match_item.match_value {
                assert(self@.rules[i as int].match_value == match_item@.match_value);
                return;
            }
            i = i + 1;
        }
        let mut rules = self.rules.clone();
        assert(views(rules@) =~= views(self.rules@));
        proof {
            lemma_views_push(rules@, match_item);
        }
        rules.push(match_item);
        self.set_rules(rules);
    }

    /// The `Equal` rule whose value is `url`, if one is stored.
    pub fn find_equal_matches_by_url(&self, url: String) -> (r: Option<MatchItem>)
        ensures
            opt_view(r) == first_rule(self@.rules, equal_rule_for(url@)),
    {
        let mut i: usize = 0;
        while i < self.rules.len()
            invariant
                0 <= i <= self.rules@.len(),
                first_rule(self@.rules, equal_rule_for(url@)) == first_from(self@.rules, equal_rule_for(url@), i as int),
            decreases self.rules@.len() - i,
        {
            let r = &self.rules[i];
            if r.match_type == MatchType::Equal && r.match_value == url {
                return Some(r.clone());
            }
            i = i + 1;
        }
        None
    }
}


impl Storage {
    /// Adds each browser whose path is not stored yet, in list order; stored
    /// browsers are left as they are.
    pub fn batch_insert_browsers(&mut self, browsers: Vec<BrowserInfo>)
        ensures
            final(self)@.browsers == upsert_browsers(old(self)@.browsers, views(browsers@)),
            final(self)@.profiles == old(self)@.profiles,
            final(self)@.rules == old(self)@.rules,
    {
        proof { use_type_invariant(&*self); }
        let mut table = self.browsers.clone();
        assert(views(table@) =~= views(self.browsers@));
        assert((StorageView { browsers: views(table@), ..self@ }) == self@);
        let mut k: usize = 0;
        while k < browsers.len()
            invariant
                0 <= k <= browsers@.len(),
                self == old(self),
                self@.wf(),
                views(table@) == upsert_browsers(self@.browsers, views(browsers@.subrange(0, k as int))),
                (StorageView { browsers: views(table@), ..self@ }).wf(),
            decreases browsers@.len() - k,
        {
            let b = &browsers[k];
            let mut found = false;
            let mut i: usize = 0;
            while i < table.len()
                invariant
                    0 <= i <= table@.len(),
                    !found ==> forall|j: int| 0 <= j < i ==> views(table@)[j].path != b@.path,
                    found ==> has_browser(views(table@), b@.path),
                    (StorageView { browsers: views(table@), ..self@ }).wf(),
                decreases table@.len() - i,
            {
                if table[i].path == b.path {
                    assert(views(table@)[i as int].path == b@.path);
                    found = true;
                }
                i = i + 1;
            }
            proof {
                let pre = views(browsers@.subrange(0, k as int));
                let post = views(browsers@.subrange(0, k as int + 1));
                assert(post.drop_last() =~= pre);
                assert(post.last() == b@);
                if !found {
                    assert(!has_browser(views(table@), b@.path));
                }
            }
            if !found {
                let c = b.clone();
                proof {
                    lemma_views_push(table@, c);
                    let t = views(table@).push(c@);
                    assert forall|x: int, y: int| 0 <= x < y < t.len() implies #[trigger] t[x].path != #[trigger] t[y].path by {
                        if y < t.len() - 1 {
                            let w = StorageView { browsers: views(table@), ..self@ };
                            assert(w.browsers[x].path != w.browsers[y].path);
                            assert(t[x] == views(table@)[x] && t[y] == views(table@)[y]);
                        } else {
                            assert(t[y] == b@);
                            assert(t[x] == views(table@)[x]);
                            assert(views(table@)[x].path != b@.path);
                        }
                    }
                }
                table.push(c);
            }
            k = k + 1;
        }
        assert(browsers@.subrange(0, browsers@.len() as int) =~= browsers@);
        self.set_browsers(table);
    }
}


impl Storage {
    /// Clears the browser table, then adds `browsers` as `batch_insert_browsers` does.
    pub fn replace_all_browsers(&mut self, browsers: Vec<BrowserInfo>)
        ensures
            final(self)@.browsers == upsert_browsers(Seq::empty(), views(browsers@)),
            final(self)@.profiles == old(self)@.profiles,
            final(self)@.rules == old(self)@.rules,
    {
        proof { use_type_invariant(&*self); }
        let empty: Vec<BrowserInfo> = Vec::new();
        assert(views(empty@) =~= Seq::<BrowserInfoView>::empty());
        self.set_browsers(empty);
        self.batch_insert_browsers(browsers);
    }

    /// All stored browsers, in storage order.
    pub fn get_browsers(&self) -> (r: Vec<BrowserInfo>)
        ensures
            views(r@) == self@.browsers,
    {
        let r = self.browsers.clone();
        assert(views(r@) =~= views(self.browsers@));
        r
    }

    /// All stored profiles, in storage order.
    pub fn all_browser_profiles(&self) -> (r: Vec<BrowserProfile>)
        ensures
            views(r@) == self@.profiles,
    {
        let r = self.profiles.clone();
        assert(views(r@) =~= views(self.profiles@));
        r
    }

    /// All stored rules, in storage order.
    pub fn find_all_match_items(&self) -> (r: Vec<MatchItem>)
        ensures
            views(r@) == self@.rules,
    {
        let r = self.rules.clone();
        assert(views(r@) =~= views(self.rules@));
        r
    }

    /// The first `Contain` rule, in storage order, whose value occurs in `url`.
    pub fn find_contain_matches_by_url(&self, url: String) -> (r: Option<MatchItem>)
        ensures
            opt_view(r) == first_rule(self@.rules, contain_rule_for(url@)),
    {
        let mut i: usize = 0;
        while i < self.rules.len()
            invariant
                0 <= i <= self.rules@.len(),
                first_rule(self@.rules, contain_rule_for(url@)) == first_from(self@.rules, contain_rule_for(url@), i as int),
            decreases self.rules@.len() - i,
        {
            let r = &self.rules[i];
            if r.match_type == MatchType::Contain && str_contains(url.as_str(), r.match_value.as_str()) {
                return Some(r.clone());
            }
            i = i + 1;
        }
        None
    }

    /// Adds the profile unless its `(browser_path, profile)` pair is stored.
    pub fn insert_browser_profile(&mut self, browser_profile: BrowserProfile)
        ensures
            final(self)@.profiles == upsert_profile(old(self)@.profiles, browser_profile@),
            final(self)@.browsers == old(self)@.browsers,
            final(self)@.rules == old(self)@.rules,
    {
        proof { use_type_invariant(&*self); }
        let mut i: usize = 0;
        while i < self.profiles.len()
            invariant
                0 <= i <= self.profiles@.len(),
                self@.wf(),
                self == old(self),
                forall|j: int| 0 <= j < i ==> !(self@.profiles[j].browser_path == browser_profile@.browser_path
                    && self@.profiles[j].profile == browser_profile@.profile),
            decreases self.profiles@.len() - i,
        {
            if self.profiles[i].browser_path == browser_profile.browser_path
                && self.profiles[i].profile == browser_profile.profile {
                assert(self@.profiles[i as int].browser_path == browser_profile@.browser_path);
                return;
            }
            i = i + 1;
        }
        let mut table = self.profiles.clone();
        assert(views(table@) =~= views(self.profiles@));
        proof {
            lemma_views_push(table@, browser_profile);
            let t = views(table@).push(browser_profile@);
            assert forall|x: int, y: int| 0 <= x < y < t.len() implies !(#[trigger] t[x].browser_path == #[trigger] t[y].browser_path && t[x].profile == t[y].profile) by {
                assert(t[x] == self@.profiles[x]);
                if y < t.len() - 1 {
                    assert(t[y] == self@.profiles[y]);
                }
            }
        }
        table.push(browser_profile);
        self.set_profiles(table);
    }

    /// The stored profiles of the browser at `browser_path`, in storage order.
    pub fn get_browser_profiles(&self, browser_path: String) -> (r: Vec<BrowserProfile>)
        ensures
            views(r@) == self@.profiles.filter(profile_of(browser_path@)),
    {
        let mut r: Vec<BrowserProfile> = Vec::new();
        let mut i: usize = 0;
        while i < self.profiles.len()
            invariant
                0 <= i <= self.profiles@.len(),
                views(r@) == self@.profiles.subrange(0, i as int).filter(profile_of(browser_path@)),
            decreases self.profiles@.len() - i,
        {
            proof {
                assert(self@.profiles.subrange(0, i as int + 1) =~= self@.profiles.subrange(0, i as int).push(self@.profiles[i as int]));
                self@.profiles.subrange(0, i as int).lemma_filter_push(self@.profiles[i as int], profile_of(browser_path@));
            }
            if self.profiles[i].browser_path == browser_path {
                let c = self.profiles[i].clone();
                proof { lemma_views_push(r@, c); }
                r.push(c);
            }
            i = i + 1;
        }
        assert(self@.profiles.subrange(0, self@.profiles.len() as int) =~= self@.profiles);
        r
    }
}


impl Storage {
    /// Removes the profile row of `(browser_path, profile)`; rules are left alone.
    pub fn delete_browser_profile(&mut self, browser_path: String, profile: String)
        ensures
            final(self)@.profiles == old(self)@.profiles.filter(not_profile(browser_path@, profile@)),
            final(self)@.browsers == old(self)@.browsers,
            final(self)@.rules == old(self)@.rules,
    {
        proof { use_type_invariant(&*self); }
        let ghost s = self@.profiles;
        let mut r: Vec<BrowserProfile> = Vec::new();
        let mut i: usize = 0;
        while i < self.profiles.len()
            invariant
                0 <= i <= self.profiles@.len(),
                self == old(self),
                self@.wf(),
                s == self@.profiles,
                views(r@) == s.subrange(0, i as int).filter(not_profile(browser_path@, profile@)),
                drawn_from(views(r@), s, i as int),
                (StorageView { profiles: views(r@), ..self@ }).wf(),
            decreases self.profiles@.len() - i,
        {
            proof {
                assert(s.subrange(0, i as int + 1) =~= s.subrange(0, i as int).push(s[i as int]));
                s.subrange(0, i as int).lemma_filter_push(s[i as int], not_profile(browser_path@, profile@));
            }
            if !(self.profiles[i].browser_path == browser_path && self.profiles[i].profile == profile) {
                let c = self.profiles[i].clone();
                proof {
                    lemma_views_push(r@, c);
                    let t = views(r@).push(c@);
                    assert forall|x: int, y: int| 0 <= x < y < t.len() implies !(#[trigger] t[x].browser_path == #[trigger] t[y].browser_path && t[x].profile == t[y].profile) by {
                        let w = StorageView { profiles: views(r@), ..self@ };
                        assert(t[x] == views(r@)[x]);
                        if y < t.len() - 1 {
                            assert(t[y] == views(r@)[y]);
                            assert(!(w.profiles[x].browser_path == w.profiles[y].browser_path && w.profiles[x].profile == w.profiles[y].profile));
                        } else {
                            let j = choose|j: int| 0 <= j < i && views(r@)[x] == s[j];
                            assert(t[y] == s[i as int]);
                            assert(!(s[j].browser_path == s[i as int].browser_path && s[j].profile == s[i as int].profile));
                        }
                    }
                    assert forall|x: int| 0 <= x < t.len() implies exists|j: int| 0 <= j < i + 1 && #[trigger] t[x] == #[trigger] s[j] by {
                        if x < t.len() - 1 {
                            let j = choose|j: int| 0 <= j < i && views(r@)[x] == s[j];
                            assert(t[x] == s[j]);
                        } else {
                            assert(t[x] == s[i as int]);
                        }
                    }
                }
                r.push(c);
            }
            i = i + 1;
        }
        assert(s.subrange(0, s.len() as int) =~= s);
        self.set_profiles(r);
    }

    /// Removes every rule scoped to `(browser_path, profile)`; rules without a
    /// profile are never removed here.
    pub fn delete_match_by_profile_and_browser_path(&mut self, browser_path: String, profile: String)
        ensures
            final(self)@.rules == old(self)@.rules.filter(not_scoped_to(browser_path@, profile@)),
            final(self)@.browsers == old(self)@.browsers,
            final(self)@.profiles == old(self)@.profiles,
    {
        proof { use_type_invariant(&*self); }
        let ghost s = self@.rules;
        let mut r: Vec<MatchItem> = Vec::new();
        let mut i: usize = 0;
        while i < self.rules.len()
            invariant
                0 <= i <= self.rules@.len(),
                self == old(self),
                self@.wf(),
                s == self@.rules,
                views(r@) == s.subrange(0, i as int).filter(not_scoped_to(browser_path@, profile@)),
                drawn_from(views(r@), s, i as int),
                (StorageView { rules: views(r@), ..self@ }).wf(),
            decreases self.rules@.len() - i,
        {
            proof {
                assert(s.subrange(0, i as int + 1) =~= s.subrange(0, i as int).push(s[i as int]));
                s.subrange(0, i as int).lemma_filter_push(s[i as int], not_scoped_to(browser_path@, profile@));
            }
            let scoped = match &self.rules[i].profile {
                Some(p) => self.rules[i].browser_path == browser_path && *p == profile,
                None => false,
            };
            if !scoped {
                let c = self.rules[i].clone();
                proof { self.lemma_keep_rule(r@, c, s, i as int); }
                r.push(c);
            }
            i = i + 1;
        }
        assert(s.subrange(0, s.len() as int) =~= s);
        self.set_rules(r);
    }

    /// Removes the rule whose value is `match_value`, if there is one.
    pub fn delete_match_by_match_value(&mut self, match_value: String)
        ensures
            final(self)@.rules == old(self)@.rules.filter(not_valued(match_value@)),
            final(self)@.browsers == old(self)@.browsers,
            final(self)@.profiles == old(self)@.profiles,
    {
        proof { use_type_invariant(&*self); }
        let ghost s = self@.rules;
        let mut r: Vec<MatchItem> = Vec::new();
        let mut i: usize = 0;
        while i < self.rules.len()
            invariant
                0 <= i <= self.rules@.len(),
                self == old(self),
                self@.wf(),
                s == self@.rules,
                views(r@) == s.subrange(0, i as int).filter(not_valued(match_value@)),
                drawn_from(views(r@), s, i as int),
                (StorageView { rules: views(r@), ..self@ }).wf(),
            decreases self.rules@.len() - i,
        {
            proof {
                assert(s.subrange(0, i as int + 1) =~= s.subrange(0, i as int).push(s[i as int]));
                s.subrange(0, i as int).lemma_filter_push(s[i as int], not_valued(match_value@));
            }
            if !(self.rules[i].match_value == match_value) {
                let c = self.rules[i].clone();
                proof { self.lemma_keep_rule(r@, c, s, i as int); }
                r.push(c);
            }
            i = i + 1;
        }
        assert(s.subrange(0, s.len() as int) =~= s);
        self.set_rules(r);
    }

    /// Appending the rule at index `i` to rules drawn from indexes before `i`
    /// keeps rule values unique.
    proof fn lemma_keep_rule(&self, r: Seq<MatchItem>, c: MatchItem, s: Seq<MatchItemView>, i: int)
        requires
            self@.wf(),
            s == self@.rules,
            0 <= i < s.len(),
            c@ == s[i],
            drawn_from(views(r), s, i),
            (StorageView { rules: views(r), ..self@ }).wf(),
        ensures
            views(r.push(c)) == views(r).push(c@),
            drawn_from(views(r.push(c)), s, i + 1),
            (StorageView { rules: views(r.push(c)), ..self@ }).wf(),
    {
        lemma_views_push(r, c);
        let t = views(r).push(c@);
        assert forall|x: int, y: int| 0 <= x < y < t.len() implies #[trigger] t[x].match_value != #[trigger] t[y].match_value by {
            let w = StorageView { rules: views(r), ..self@ };
            assert(t[x] == views(r)[x]);
            if y < t.len() - 1 {
                assert(t[y] == views(r)[y]);
                assert(w.rules[x].match_value != w.rules[y].match_value);
            } else {
                let j = choose|j: int| 0 <= j < i && views(r)[x] == s[j];
                assert(t[y] == s[i]);
                assert(s[j].match_value != s[i].match_value);
            }
        }
        assert forall|x: int| 0 <= x < t.len() implies exists|j: int| 0 <= j < i + 1 && #[trigger] t[x] == #[trigger] s[j] by {
            if x < t.len() - 1 {
                let j = choose|j: int| 0 <= j < i && views(r)[x] == s[j];
                assert(t[x] == s[j]);
            } else {
                assert(t[x] == s[i]);
            }
        }
    }
}


/// Every browser of `list` has its path stored after `upsert_browsers`.
pub proof fn lemma_upsert_covers(bs: Seq<BrowserInfoView>, list: Seq<BrowserInfoView>)
    ensures
        forall|i: int| 0 <= i < list.len() ==> has_browser(upsert_browsers(bs, list), #[trigger] list[i].path),
        forall|p: Seq<char>| has_browser(bs, p) ==> has_browser(upsert_browsers(bs, list), p),
    decreases list.len(),
{
    if list.len() > 0 {
        let prev = upsert_browsers(bs, list.drop_last());
        lemma_upsert_covers(bs, list.drop_last());
        let last = list.last();
        assert forall|p: Seq<char>| has_browser(prev, p) implies has_browser(upsert_browser(prev, last), p) by {
            let k = choose|k: int| 0 <= k < prev.len() && #[trigger] prev[k].path == p;
            if !has_browser(prev, last.path) {
                assert(prev.push(last)[k].path == p);
            }
        }
        assert forall|i: int| 0 <= i < list.len() implies has_browser(upsert_browsers(bs, list), #[trigger] list[i].path) by {
            if i < list.len() - 1 {
                assert(list.drop_last()[i] == list[i]);
            } else if !has_browser(prev, last.path) {
                assert(prev.push(last)[prev.len() as int].path == last.path);
            }
        }
    }
}

/// Upserting browsers whose paths are all stored changes nothing.
pub proof fn lemma_upsert_present(bs: Seq<BrowserInfoView>, list: Seq<BrowserInfoView>)
    requires
        forall|i: int| 0 <= i < list.len() ==> has_browser(bs, #[trigger] list[i].path),
    ensures
        upsert_browsers(bs, list) == bs,
    decreases list.len(),
{
    if list.len() > 0 {
        assert forall|i: int| 0 <= i < list.drop_last().len() implies has_browser(bs, #[trigger] list.drop_last()[i].path) by {
            assert(list.drop_last()[i] == list[i]);
        }
        lemma_upsert_present(bs, list.drop_last());
        assert(has_browser(bs, list[list.len() - 1].path));
    }
}

/// Inserting the same list of browsers a second time leaves the browser table,
/// and so its size, as the first insertion left it.
pub proof fn lemma_upsert_browsers_idempotent(bs: Seq<BrowserInfoView>, list: Seq<BrowserInfoView>)
    requires
        list.len() > 0,
    ensures
        upsert_browsers(upsert_browsers(bs, list), list) == upsert_browsers(bs, list),
        upsert_browsers(upsert_browsers(bs, list), list).len() == upsert_browsers(bs, list).len(),
{
    lemma_upsert_covers(bs, list);
    lemma_upsert_present(upsert_browsers(bs, list), list);
}

/// Of two rules with the same value, only the one inserted first is ever
/// stored: the second insertion changes nothing, and into a table without that
/// value the first one is appended.
pub proof fn lemma_first_rule_insert_wins(rs: Seq<MatchItemView>, first: MatchItemView, second: MatchItemView)
    requires
        first.match_value == second.match_value,
    ensures
        insert_rule(insert_rule(rs, first), second) == insert_rule(rs, first),
        !has_rule(rs, first.match_value) ==> insert_rule(insert_rule(rs, first), second) == rs.push(first),
{
    let once = insert_rule(rs, first);
    if !has_rule(rs, first.match_value) {
        assert(once[rs.len() as int].match_value == second.match_value);
    }
}

/// After the rules of `(browser_path, profile)` are deleted, a rule is stored
/// exactly when it was stored before and is not scoped to that pair.
pub proof fn lemma_delete_profile_rules_exact(rs: Seq<MatchItemView>, browser_path: Seq<char>, profile: Seq<char>)
    ensures
        forall|r: MatchItemView| #[trigger] rs.filter(not_scoped_to(browser_path, profile)).contains(r)
            <==> rs.contains(r) && !scoped_to(r, browser_path, profile),
{
    let pred = not_scoped_to(browser_path, profile);
    assert forall|r: MatchItemView| #[trigger] rs.filter(pred).contains(r)
        <==> rs.contains(r) && !scoped_to(r, browser_path, profile) by {
        if rs.filter(pred).contains(r) {
            rs.lemma_filter_contains_rev(pred, r);
            let k = choose|k: int| 0 <= k < rs.filter(pred).len() && rs.filter(pred)[k] == r;
            rs.lemma_filter_pred(pred, k);
        }
        if rs.contains(r) && pred(r) {
            let k = choose|k: int| 0 <= k < rs.len() && rs[k] == r;
            rs.lemma_filter_contains(pred, k);
        }
    }
}

} // verus!
