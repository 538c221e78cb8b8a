//! The terminal interface's state and how it answers keys: tabs, list
//! navigation, the article view, search, and the requests a key asks for.
//!
//! A key changes the state and names at most one effect (a request to the
//! server, opening a link); the runner performs the effect and hands the
//! result back to one of the `on_*` functions.
use vstd::prelude::*;
use crate::api_client::{ApiCall, Article, JobInfo, Subscription};
use crate::num::{dec_spec, u64_to_dec};
use crate::ui_text::{format_utc, formatted_time};
use crate::text::{extend_chars, extend_str, from_chars, join_chars, join_spec, push_char, split_chars, split_spec, to_chars, trim_end_chars, trim_end_spec};

verus! {

// ---------------------------------------------------------------------------
// Tabs
// ---------------------------------------------------------------------------

#[derive(Clone, Copy, PartialEq, Eq, Structural)]
pub enum Tab {
    Articles,
    Subscriptions,
    Jobs,
    Api,
    Settings,
}

/// The position of a tab in the tab bar.
pub open spec fn tab_index(t: Tab) -> usize {
    match t {
        Tab::Articles => 0,
        Tab::Subscriptions => 1,
        Tab::Jobs => 2,
        Tab::Api => 3,
        Tab::Settings => 4,
    }
}

/// The tab at a position; the articles tab past the end.
pub open spec fn tab_at(i: usize) -> Tab {
    if i == 0 {
        Tab::Articles
    } else if i == 1 {
        Tab::Subscriptions
    } else if i == 2 {
        Tab::Jobs
    } else if i == 3 {
        Tab::Api
    } else if i == 4 {
        Tab::Settings
    } else {
        Tab::Articles
    }
}

/// The label of a tab.
pub open spec fn tab_title(t: Tab) -> Seq<char> {
    match t {
        Tab::Articles => "1:文章"@,
        Tab::Subscriptions => "2:订阅"@,
        Tab::Jobs => "3:队列"@,
        Tab::Api => "4:API"@,
        Tab::Settings => "5:设置"@,
    }
}

impl Tab {
    /// The tabs in bar order.
    pub fn all() -> (r: [Tab; 5])
        ensures
            forall|i: int| 0 <= i < 5 ==> #[trigger] r@[i] == tab_at(i as usize),
    {
        [Tab::Articles, Tab::Subscriptions, Tab::Jobs, Tab::Api, Tab::Settings]
    }

    /// The label shown in the tab bar.
    pub fn title(&self) -> (r: &'static str)
        ensures
            r@ == tab_title(*self),
    {
        match self {
            Tab::Articles => "1:文章",
            Tab::Subscriptions => "2:订阅",
            Tab::Jobs => "3:队列",
            Tab::Api => "4:API",
            Tab::Settings => "5:设置",
        }
    }

    /// The position in the tab bar.
    pub fn index(&self) -> (r: usize)
        ensures
            r == tab_index(*self),
    {
        match self {
            Tab::Articles => 0,
            Tab::Subscriptions => 1,
            Tab::Jobs => 2,
            Tab::Api => 3,
            Tab::Settings => 4,
        }
    }

    /// The tab at a position; the articles tab for positions past the end.
    pub fn from_index(i: usize) -> (t: Tab)
        ensures
            t == tab_at(i),
    {
        match i {
            0 => Tab::Articles,
            1 => Tab::Subscriptions,
            2 => Tab::Jobs,
            3 => Tab::Api,
            4 => Tab::Settings,
            _ => Tab::Articles,
        }
    }
}

/// A tab's position leads back to the tab, positions in range lead back to
/// themselves, and the bar lists every tab at its position.
pub proof fn lemma_tab_index_roundtrip(t: Tab, i: usize)
    ensures
        tab_at(tab_index(t)) == t,
        i < 5 ==> tab_index(tab_at(i)) == i,
        i >= 5 ==> tab_at(i) == Tab::Articles,
        tab_index(t) < 5,
{
}

// ---------------------------------------------------------------------------
// List navigation
// ---------------------------------------------------------------------------

/// The next position in a list of `len`, wrapping to the top.
pub open spec fn next_index(i: usize, len: usize) -> usize {
    if len == 0 {
        i
    } else {
        ((i + 1) % (len as int)) as usize
    }
}

/// The previous position in a list of `len`, wrapping to the bottom.
pub open spec fn prev_index(i: usize, len: usize) -> usize {
    if len == 0 {
        i
    } else if i == 0 {
        (len - 1) as usize
    } else {
        (i - 1) as usize
    }
}

/// Moves down a list.
pub fn move_down(i: usize, len: usize) -> (r: usize)
    requires
        len > 0 ==> i < usize::MAX,
    ensures
        r == next_index(i, len),
{
    if len == 0 {
        i
    } else {
        (i + 1) % len
    }
}

/// Moves up a list.
pub fn move_up(i: usize, len: usize) -> (r: usize)
    ensures
        r == prev_index(i, len),
{
    if len == 0 {
        i
    } else if i == 0 {
        len - 1
    } else {
        i - 1
    }
}

/// Moving keeps a selection inside its list, and moving down then up (or up
/// then down) comes back to where it started.
pub proof fn lemma_navigation(i: usize, len: usize)
    requires
        i < len,
    ensures
        next_index(i, len) < len,
        prev_index(i, len) < len,
        prev_index(next_index(i, len), len) == i,
        next_index(prev_index(i, len), len) == i,
{
    let l = len as int;
    if i + 1 < l {
        assert((i + 1) % l == i + 1) by (nonlinear_arith)
            requires
                0 <= i + 1 < l,
        ;
    } else {
        assert((i + 1) % l == 0) by (nonlinear_arith)
            requires
                i + 1 == l,
                l > 0,
        ;
    }
    if i == 0 {
        assert((l - 1 + 1) % l == 0) by (nonlinear_arith)
            requires
                l > 0,
        ;
    } else {
        assert((i - 1 + 1) % l == i) by (nonlinear_arith)
            requires
                0 < i < l,
        ;
    }
}

// ---------------------------------------------------------------------------
// State
// ---------------------------------------------------------------------------

/// Keys the interface reads.
pub enum Key {
    Char(char),
    Enter,
    Esc,
    Backspace,
    Up,
    Down,
    Other,
}

#[derive(PartialEq, Eq, Structural)]
pub enum ArticleView {
    List,
    Detail,
}

/// Everything the interface shows and remembers.
pub struct TuiState {
    pub tab: Tab,
    pub should_quit: bool,
    pub message: Option<String>,
    pub loading: bool,
    pub subscriptions: Vec<Subscription>,
    pub articles: Vec<Article>,
    pub sub_index: usize,
    pub article_index: usize,
    pub article_view: ArticleView,
    pub article_content: Option<String>,
    pub article_detail_id: Option<i64>,
    pub sub_list_index: usize,
    pub jobs: Vec<JobInfo>,
    pub job_index: usize,
    pub search_query: String,
    pub search_mode: bool,
}

/// What the runner does after a key or a result.
pub enum Effect {
    Nothing,
    /// Load the tab's data (articles, subscriptions or jobs; nothing for the others).
    Load(Tab),
    /// Fetch an article and show it.
    OpenDetail(i64),
    /// Load a feed's articles, then show them.
    ShowFeed(i64),
    /// Make a request; its success is reported to `on_call_result`.
    Call(ApiCall),
    /// Open a link in the browser.
    OpenLink(String),
}

/// The message is exactly `text`.
pub open spec fn msg_is(m: Option<String>, text: Seq<char>) -> bool {
    m is Some && m->0@ == text
}

/// The help line.
pub open spec fn help_text() -> Seq<char> {
    "1-5:切换标签 j/k:导航 Enter:选择 t:翻译 s:摘要空格:已读 *:收藏 o:浏览器 /:搜索 r:刷新 q:退出"@
}

/// A message for the user.
fn message(text: &str) -> (m: Option<String>)
    ensures
        msg_is(m, text@),
{
    Some(String::from_str(text))
}

/// The keys that act the same on every tab.
pub open spec fn is_global_key(k: Key) -> bool {
    k matches Key::Char(c) && (c == 'q' || c == '?' || c == '/' || c == 'r' || c == '1' || c == '2'
        || c == '3' || c == '4' || c == '5')
}

/// The key moves down / up a list.
pub open spec fn is_down(k: Key) -> bool {
    k is Down || k == Key::Char('j')
}

pub open spec fn is_up(k: Key) -> bool {
    k is Up || k == Key::Char('k')
}

/// The selections that a key reads lie inside their lists, and one it moves
/// down can be stepped.
pub open spec fn key_in_bounds(s: TuiState, k: Key) -> bool {
    s.search_mode || is_global_key(k) || match s.tab {
        Tab::Articles => s.article_view == ArticleView::List && s.articles.len() > 0 ==> ((k is Enter
            || k == Key::Char(' ') || k == Key::Char('*') || k == Key::Char('t') || k == Key::Char('s')
            || k == Key::Char('o')) ==> s.article_index < s.articles.len()) && (is_down(k) ==> s.article_index < usize::MAX),
        Tab::Subscriptions => s.subscriptions.len() > 0 ==> ((k is Enter || k == Key::Char('s'))
            ==> s.sub_list_index < s.subscriptions.len()) && (is_down(k) ==> s.sub_list_index < usize::MAX),
        Tab::Jobs => s.jobs.len() > 0 ==> (k == Key::Char('r') ==> s.job_index < s.jobs.len())
            && (is_down(k) ==> s.job_index < usize::MAX),
        _ => true,
    }
}

/// Every selection lies inside its list (or the list is empty).
pub open spec fn selections_in_bounds(s: TuiState) -> bool {
    &&& (s.articles.len() > 0 ==> s.article_index < s.articles.len())
    &&& (s.subscriptions.len() > 0 ==> s.sub_list_index < s.subscriptions.len())
    &&& (s.jobs.len() > 0 ==> s.job_index < s.jobs.len())
}

/// An article with its read flag set.
pub open spec fn with_read(a: Article, read: bool) -> Article {
    Article { is_read: read, ..a }
}

/// An article with its starred flag set.
pub open spec fn with_starred(a: Article, starred: bool) -> Article {
    Article { is_starred: starred, ..a }
}

/// What a key does in search mode.
pub open spec fn search_key_spec(s: TuiState, k: Key, t: TuiState) -> bool {
    match k {
        Key::Esc => t == (TuiState { search_mode: false, search_query: t.search_query, ..s }) && t.search_query@.len() == 0,
        Key::Enter => t == (TuiState { search_mode: false, ..s }),
        Key::Char(c) => t == (TuiState { search_query: t.search_query, ..s }) && t.search_query@ == s.search_query@.push(c),
        Key::Backspace => t == (TuiState { search_query: t.search_query, ..s }) && t.search_query@ == if s.search_query@.len() > 0 {
            s.search_query@.drop_last()
        } else {
            s.search_query@
        },
        _ => t == s,
    }
}

/// What a global key does.
pub open spec fn global_key_spec(s: TuiState, c: char, t: TuiState, e: Effect) -> bool {
    if c == 'q' {
        t == (TuiState { should_quit: true, ..s }) && e is Nothing
    } else if c == '?' {
        t == (TuiState { message: t.message, ..s }) && msg_is(t.message, help_text()) && e is Nothing
    } else if c == '/' {
        t == (TuiState { search_mode: true, search_query: t.search_query, ..s }) && t.search_query@.len() == 0 && e is Nothing
    } else if c == 'r' {
        t == (TuiState { message: None, loading: true, ..s }) && e == Effect::Load(s.tab)
    } else {
        let tab = if c == '1' {
            Tab::Articles
        } else if c == '2' {
            Tab::Subscriptions
        } else if c == '3' {
            Tab::Jobs
        } else if c == '4' {
            Tab::Api
        } else {
            Tab::Settings
        };
        t == (TuiState { tab, ..s }) && e is Nothing
    }
}

/// What a key does on the article list.
pub open spec fn article_list_key_spec(s: TuiState, k: Key, t: TuiState, e: Effect) -> bool {
    let n = s.articles.len();
    let i = s.article_index;
    if n == 0 {
        t == s && e is Nothing
    } else if is_down(k) {
        t == (TuiState { article_index: next_index(i, n), ..s }) && e is Nothing
    } else if is_up(k) {
        t == (TuiState { article_index: prev_index(i, n), ..s }) && e is Nothing
    } else if k is Enter {
        t == (TuiState { loading: true, ..s }) && e == Effect::OpenDetail(s.articles@[i as int].id)
    } else if k == Key::Char(' ') {
        t == s && e == Effect::Call(ApiCall::MarkRead { id: s.articles@[i as int].id, read: !s.articles@[i as int].is_read })
    } else if k == Key::Char('*') {
        t == s && e == Effect::Call(ApiCall::MarkStarred { id: s.articles@[i as int].id, starred: !s.articles@[i as int].is_starred })
    } else if k == Key::Char('t') {
        t == s && e == Effect::Call(ApiCall::Translate(s.articles@[i as int].id))
    } else if k == Key::Char('s') {
        t == s && e == Effect::Call(ApiCall::Summarize(s.articles@[i as int].id))
    } else if k == Key::Char('o') {
        t == s && match s.articles@[i as int].link {
            Some(l) => (e matches Effect::OpenLink(x) && x@ == l@),
            None => e is Nothing,
        }
    } else {
        t == s && e is Nothing
    }
}

/// What a key does in the article view.
pub open spec fn article_detail_key_spec(s: TuiState, k: Key, t: TuiState, e: Effect) -> bool {
    if k is Esc || k == Key::Char('q') {
        t == (TuiState { article_view: ArticleView::List, article_content: None, ..s }) && e is Nothing
    } else if k == Key::Char('t') && s.article_detail_id is Some {
        t == s && e == Effect::Call(ApiCall::Translate(s.article_detail_id->0))
    } else if k == Key::Char('s') && s.article_detail_id is Some {
        t == s && e == Effect::Call(ApiCall::Summarize(s.article_detail_id->0))
    } else {
        t == s && e is Nothing
    }
}

/// What a key does on the subscription list.
pub open spec fn subscriptions_key_spec(s: TuiState, k: Key, t: TuiState, e: Effect) -> bool {
    let n = s.subscriptions.len();
    let i = s.sub_list_index;
    if k == Key::Char('S') {
        t == s && e == Effect::Call(ApiCall::SyncAll)
    } else if n == 0 {
        t == s && e is Nothing
    } else if is_down(k) {
        t == (TuiState { sub_list_index: next_index(i, n), ..s }) && e is Nothing
    } else if is_up(k) {
        t == (TuiState { sub_list_index: prev_index(i, n), ..s }) && e is Nothing
    } else if k is Enter {
        t == (TuiState { loading: true, ..s }) && e == Effect::ShowFeed(s.subscriptions@[i as int].feed_id)
    } else if k == Key::Char('s') {
        t == s && e == Effect::Call(ApiCall::SyncSubscription(s.subscriptions@[i as int].id))
    } else {
        t == s && e is Nothing
    }
}

/// What a key does on the job list.
pub open spec fn jobs_key_spec(s: TuiState, k: Key, t: TuiState, e: Effect) -> bool {
    let n = s.jobs.len();
    let i = s.job_index;
    if k == Key::Char('c') {
        t == s && e == Effect::Call(ApiCall::ClearCompleted)
    } else if n == 0 {
        t == s && e is Nothing
    } else if is_down(k) {
        t == (TuiState { job_index: next_index(i, n), ..s }) && e is Nothing
    } else if is_up(k) {
        t == (TuiState { job_index: prev_index(i, n), ..s }) && e is Nothing
    } else if k == Key::Char('r') {
        t == s && (e matches Effect::Call(ApiCall::RetryJob(id)) && id@ == s.jobs@[i as int].id@)
    } else {
        t == s && e is Nothing
    }
}

/// What any key does.
pub open spec fn key_spec(s: TuiState, k: Key, t: TuiState, e: Effect) -> bool {
    if s.search_mode {
        search_key_spec(s, k, t) && e is Nothing
    } else if is_global_key(k) {
        global_key_spec(s, k->Char_0, t, e)
    } else {
        match s.tab {
            Tab::Articles => if s.article_view == ArticleView::List {
                article_list_key_spec(s, k, t, e)
            } else {
                article_detail_key_spec(s, k, t, e)
            },
            Tab::Subscriptions => subscriptions_key_spec(s, k, t, e),
            Tab::Jobs => jobs_key_spec(s, k, t, e),
            _ => t == s && e is Nothing,
        }
    }
}

impl TuiState {
    /// The starting state: the article list of the first tab, nothing loaded.
    pub fn new() -> (s: TuiState)
        ensures
            s.tab == Tab::Articles,
            !s.should_quit,
            s.message is None,
            !s.loading,
            s.subscriptions@.len() == 0,
            s.articles@.len() == 0,
            s.sub_index == 0,
            s.article_index == 0,
            s.article_view == ArticleView::List,
            s.article_content is None,
            s.article_detail_id is None,
            s.sub_list_index == 0,
            s.jobs@.len() == 0,
            s.job_index == 0,
            s.search_query@.len() == 0,
            !s.search_mode,
    {
        TuiState {
            tab: Tab::Articles,
            should_quit: false,
            message: None,
            loading: false,
            subscriptions: Vec::new(),
            articles: Vec::new(),
            sub_index: 0,
            article_index: 0,
            article_view: ArticleView::List,
            article_content: None,
            article_detail_id: None,
            sub_list_index: 0,
            jobs: Vec::new(),
            job_index: 0,
            search_query: String::new(),
            search_mode: false,
        }
    }

    fn handle_search_key(&mut self, code: Key)
        requires
            old(self).search_mode,
        ensures
            search_key_spec(*old(self), code, *final(self)),
    {
        match code {
            Key::Esc => {
                self.search_mode = false;
                self.search_query = String::new();
            },
            Key::Enter => {
                self.search_mode = false;
            },
            Key::Char(c) => {
                let mut q = String::new();
                std::mem::swap(&mut q, &mut self.search_query);
                push_char(&mut q, c);
                self.search_query = q;
            },
            Key::Backspace => {
                let v = to_chars(self.search_query.as_str());
                if v.len() > 0 {
                    let w = crate::text::sub_chars(&v, 0, v.len() - 1);
                    assert(w@ =~= v@.drop_last());
                    self.search_query = from_chars(&w);
                }
            },
            _ => {},
        }
    }

    fn handle_global_key(&mut self, c: char) -> (e: Effect)
        requires
            is_global_key(Key::Char(c)),
        ensures
            global_key_spec(*old(self), c, *final(self), e),
    {
        if c == 'q' {
            self.should_quit = true;
        } else if c == '?' {
            self.message = message("1-5:切换标签 j/k:导航 Enter:选择 t:翻译 s:摘要空格:已读 *:收藏 o:浏览器 /:搜索 r:刷新 q:退出");
        } else if c == '/' {
            self.search_mode = true;
            self.search_query = String::new();
        } else if c == 'r' {
            self.message = None;
            self.loading = true;
            return Effect::Load(self.tab);
        } else if c == '1' {
            self.tab = Tab::Articles;
        } else if c == '2' {
            self.tab = Tab::Subscriptions;
        } else if c == '3' {
            self.tab = Tab::Jobs;
        } else if c == '4' {
            self.tab = Tab::Api;
        } else {
            self.tab = Tab::Settings;
        }
        Effect::Nothing
    }

    fn handle_articles_key(&mut self, code: Key) -> (e: Effect)
        requires
            old(self).article_view == ArticleView::List ==> (old(self).articles.len() > 0 && (code is Enter
                || code == Key::Char(' ') || code == Key::Char('*') || code == Key::Char('t')
                || code == Key::Char('s') || code == Key::Char('o'))
                ==> old(self).article_index < old(self).articles.len()),
            old(self).articles.len() > 0 && old(self).article_view == ArticleView::List && is_down(code)
                ==> old(self).article_index < usize::MAX,
        ensures
            old(self).article_view == ArticleView::List ==> article_list_key_spec(*old(self), code, *final(self), e),
            old(self).article_view == ArticleView::Detail ==> article_detail_key_spec(*old(self), code, *final(self), e),
    {
        match self.article_view {
            ArticleView::List => {
                let n = self.articles.len();
                if n == 0 {
                    return Effect::Nothing;
                }
                let i = self.article_index;
                match code {
                    Key::Down => {
                        self.article_index = move_down(i, n);
                        Effect::Nothing
                    },
                    Key::Up => {
                        self.article_index = move_up(i, n);
                        Effect::Nothing
                    },
                    Key::Enter => {
                        self.loading = true;
                        Effect::OpenDetail(self.articles[i].id)
                    },
                    Key::Char(c) => {
                        if c == 'j' {
                            self.article_index = move_down(i, n);
                            Effect::Nothing
                        } else if c == 'k' {
                            self.article_index = move_up(i, n);
                            Effect::Nothing
                        } else if c == ' ' {
                            let a = &self.articles[i];
                            Effect::Call(ApiCall::MarkRead { id: a.id, read: !a.is_read })
                        } else if c == '*' {
                            let a = &self.articles[i];
                            Effect::Call(ApiCall::MarkStarred { id: a.id, starred: !a.is_starred })
                        } else if c == 't' {
                            Effect::Call(ApiCall::Translate(self.articles[i].id))
                        } else if c == 's' {
                            Effect::Call(ApiCall::Summarize(self.articles[i].id))
                        } else if c == 'o' {
                            match &self.articles[i].link {
                                Some(l) => Effect::OpenLink(l.clone()),
                                None => Effect::Nothing,
                            }
                        } else {
                            Effect::Nothing
                        }
                    },
                    _ => Effect::Nothing,
                }
            },
            ArticleView::Detail => {
                match code {
                    Key::Esc => {
                        self.article_view = ArticleView::List;
                        self.article_content = None;
                        Effect::Nothing
                    },
                    Key::Char(c) => {
                        if c == 'q' {
                            self.article_view = ArticleView::List;
                            self.article_content = None;
                            Effect::Nothing
                        } else if c == 't' {
                            match self.article_detail_id {
                                Some(id) => Effect::Call(ApiCall::Translate(id)),
                                None => Effect::Nothing,
                            }
                        } else if c == 's' {
                            match self.article_detail_id {
                                Some(id) => Effect::Call(ApiCall::Summarize(id)),
                                None => Effect::Nothing,
                            }
                        } else {
                            Effect::Nothing
                        }
                    },
                    _ => Effect::Nothing,
                }
            },
        }
    }

    fn handle_subscriptions_key(&mut self, code: Key) -> (e: Effect)
        requires
            old(self).subscriptions.len() > 0 && (code is Enter || code == Key::Char('s'))
                ==> old(self).sub_list_index < old(self).subscriptions.len(),
            old(self).subscriptions.len() > 0 && is_down(code) ==> old(self).sub_list_index < usize::MAX,
        ensures
            subscriptions_key_spec(*old(self), code, *final(self), e),
    {
        if let Key::Char(c) = code {
            if c == 'S' {
                return Effect::Call(ApiCall::SyncAll);
            }
        }
        let n = self.subscriptions.len();
        if n == 0 {
            return Effect::Nothing;
        }
        let i = self.sub_list_index;
        match code {
            Key::Down => {
                self.sub_list_index = move_down(i, n);
                Effect::Nothing
            },
            Key::Up => {
                self.sub_list_index = move_up(i, n);
                Effect::Nothing
            },
            Key::Enter => {
                self.loading = true;
                Effect::ShowFeed(self.subscriptions[i].feed_id)
            },
            Key::Char(c) => {
                if c == 'j' {
                    self.sub_list_index = move_down(i, n);
                    Effect::Nothing
                } else if c == 'k' {
                    self.sub_list_index = move_up(i, n);
                    Effect::Nothing
                } else if c == 's' {
                    Effect::Call(ApiCall::SyncSubscription(self.subscriptions[i].id))
                } else {
                    Effect::Nothing
                }
            },
            _ => Effect::Nothing,
        }
    }

    fn handle_jobs_key(&mut self, code: Key) -> (e: Effect)
        requires
            old(self).jobs.len() > 0 && code == Key::Char('r') ==> old(self).job_index < old(self).jobs.len(),
            old(self).jobs.len() > 0 && is_down(code) ==> old(self).job_index < usize::MAX,
        ensures
            jobs_key_spec(*old(self), code, *final(self), e),
    {
        if let Key::Char(c) = code {
            if c == 'c' {
                return Effect::Call(ApiCall::ClearCompleted);
            }
        }
        let n = self.jobs.len();
        if n == 0 {
            return Effect::Nothing;
        }
        let i = self.job_index;
        match code {
            Key::Down => {
                self.job_index = move_down(i, n);
                Effect::Nothing
            },
            Key::Up => {
                self.job_index = move_up(i, n);
                Effect::Nothing
            },
            Key::Char(c) => {
                if c == 'j' {
                    self.job_index = move_down(i, n);
                    Effect::Nothing
                } else if c == 'k' {
                    self.job_index = move_up(i, n);
                    Effect::Nothing
                } else if c == 'r' {
                    Effect::Call(ApiCall::RetryJob(self.jobs[i].id.clone()))
                } else {
                    Effect::Nothing
                }
            },
            _ => Effect::Nothing,
        }
    }

    /// Answers a key: search mode takes every key; then the keys of every
    /// tab (quit, help, search, reload, tab switch); then those of the tab.
    pub fn handle_key(&mut self, code: Key) -> (e: Effect)
        requires
            key_in_bounds(*old(self), code),
        ensures
            key_spec(*old(self), code, *final(self), e),
            selections_in_bounds(*old(self)) ==> selections_in_bounds(*final(self)),
    {
        if self.search_mode {
            self.handle_search_key(code);
            return Effect::Nothing;
        }
        if let Key::Char(c) = code {
            if c == 'q' || c == '?' || c == '/' || c == 'r' || c == '1' || c == '2' || c == '3' || c == '4' || c == '5' {
                return self.handle_global_key(c);
            }
        }
        match self.tab {
            Tab::Articles => self.handle_articles_key(code),
            Tab::Subscriptions => self.handle_subscriptions_key(code),
            Tab::Jobs => self.handle_jobs_key(code),
            _ => Effect::Nothing,
        }
    }

    /// Whether the selections a key reads are inside their lists.
    pub fn key_in_bounds(&self, code: &Key) -> (b: bool)
        ensures
            b == key_in_bounds(*self, *code),
    {
        if self.search_mode {
            return true;
        }
        match code {
            Key::Char(c) => {
                let c = *c;
                if c == 'q' || c == '?' || c == '/' || c == 'r' || c == '1' || c == '2' || c == '3' || c == '4' || c == '5' {
                    return true;
                }
            },
            _ => {},
        }
        let reads = match self.tab {
            Tab::Articles => self.article_view == ArticleView::List && match code {
                Key::Enter => true,
                Key::Char(c) => *c == ' ' || *c == '*' || *c == 't' || *c == 's' || *c == 'o',
                _ => false,
            },
            Tab::Subscriptions => match code {
                Key::Enter => true,
                Key::Char(c) => *c == 's',
                _ => false,
            },
            Tab::Jobs => match code {
                Key::Char(c) => *c == 'r',
                _ => false,
            },
            _ => false,
        };
        let down = match code {
            Key::Down => true,
            Key::Char(c) => *c == 'j',
            _ => false,
        };
        match self.tab {
            Tab::Articles => !(self.article_view == ArticleView::List && self.articles.len() > 0)
                || ((!reads || self.article_index < self.articles.len()) && (!down || self.article_index < usize::MAX)),
            Tab::Subscriptions => !(self.subscriptions.len() > 0)
                || ((!reads || self.sub_list_index < self.subscriptions.len()) && (!down || self.sub_list_index < usize::MAX)),
            Tab::Jobs => !(self.jobs.len() > 0)
                || ((!reads || self.job_index < self.jobs.len()) && (!down || self.job_index < usize::MAX)),
            _ => true,
        }
    }
}

/// Appends `head`, then `tail` when there is one.
fn text_with(head: &str, tail: &str) -> (r: Option<String>)
    ensures
        msg_is(r, head@ + tail@),
{
    let mut v = to_chars(head);
    extend_str(&mut v, tail);
    Some(from_chars(&v))
}

/// The message shown when a request succeeded.
pub open spec fn call_message(c: ApiCall) -> Option<Seq<char>> {
    match c {
        ApiCall::MarkRead { read, .. } => Some(if read { "已标记为已读"@ } else { "已标记为未读"@ }),
        ApiCall::MarkStarred { starred, .. } => Some(if starred { "已收藏"@ } else { "已取消收藏"@ }),
        ApiCall::Translate(_) => Some("翻译任务已提交"@),
        ApiCall::Summarize(_) => Some("摘要任务已提交"@),
        ApiCall::SyncSubscription(_) => Some("同步任务已提交"@),
        ApiCall::SyncAll => Some("全部同步任务已提交"@),
        ApiCall::RetryJob(_) => Some("重试任务已提交"@),
        ApiCall::ClearCompleted => Some("已清除完成的任务"@),
        _ => None,
    }
}

/// The lines of a text as `str::lines` splits it: at each `\n`, without an
/// empty line after a final `\n`.
pub open spec fn lines_of(s: Seq<char>) -> Seq<Seq<char>> {
    let parts = split_spec(s, seq!['\n']);
    if parts.len() > 0 && parts.last().len() == 0 {
        parts.drop_last()
    } else {
        parts
    }
}

/// Every line without its trailing whitespace, joined with `\n`.
pub open spec fn trim_lines(s: Seq<char>) -> Seq<char> {
    join_spec(lines_of(s).map_values(|l: Seq<char>| trim_end_spec(l)), seq!['\n'])
}

/// What `html2text` renders an HTML text as at a width.
pub uninterp spec fn html_rendered(html: Seq<char>, width: usize) -> Option<Seq<char>>;

/// `html2text::from_read` on the text's bytes: the named rendering, `None`
/// when the renderer reports an error.
#[verifier::external_body]
fn html2text_render(html: &str, width: usize) -> (r: Option<String>)
    ensures
        r is Some ==> html_rendered(html@, width) == Some(r->0@),
        r is None ==> html_rendered(html@, width) is None,
{
    html2text::from_read(html.as_bytes(), width).ok()
}

/// Every line without trailing whitespace.
pub fn trim_lines_exec(s: &[char]) -> (r: Vec<char>)
    ensures
        r@ == trim_lines(s@),
{
    let nl = vec!['\n'];
    assert(nl@ =~= seq!['\n']);
    let mut parts = split_chars(s, &nl);
    let ghost ps = split_spec(s@, seq!['\n']);
    if parts.len() > 0 && parts[parts.len() - 1].len() == 0 {
        parts.pop();
        assert(parts@.map_values(|p: Vec<char>| p@) =~= ps.drop_last());
    }
    let ghost ls = lines_of(s@);
    assert(parts@.map_values(|p: Vec<char>| p@) == ls);
    let mut trimmed: Vec<Vec<char>> = Vec::new();
    let mut i: usize = 0;
    while i < parts.len()
        invariant
            i <= parts.len(),
            parts@.map_values(|p: Vec<char>| p@) == ls,
            trimmed@.map_values(|p: Vec<char>| p@) =~= ls.take(i as int).map_values(|l: Seq<char>| trim_end_spec(l)),
        decreases parts.len() - i,
    {
        assert(parts@[i as int]@ == ls[i as int]);
        trimmed.push(trim_end_chars(&parts[i]));
        assert(ls.take(i + 1).map_values(|l: Seq<char>| trim_end_spec(l)) =~= ls.take(i as int).map_values(
            |l: Seq<char>| trim_end_spec(l),
        ).push(trim_end_spec(ls[i as int])));
        i += 1;
    }
    assert(ls.take(parts.len() as int) =~= ls);
    join_chars(&trimmed, &nl)
}

/// The plain text of an article's HTML, 80 columns wide, lines trimmed at the
/// end; the HTML itself when it cannot be rendered.
pub fn html_to_text(html: &str) -> (r: String)
    ensures
        r@ == trim_lines(match html_rendered(html@, 80) {
            Some(t) => t,
            None => html@,
        }),
{
    let rendered = match html2text_render(html, 80) {
        Some(t) => to_chars(t.as_str()),
        None => to_chars(html),
    };
    from_chars(&trim_lines_exec(&rendered))
}

impl TuiState {
    /// Takes the subscriptions a load returned, or reports the failure.
    pub fn on_subscriptions_loaded(&mut self, r: Result<Vec<Subscription>, String>)
        ensures
            match r {
                Ok(v) => *final(self) == (TuiState { subscriptions: v, loading: false, ..*old(self) }),
                Err(e) => *final(self) == (TuiState { message: final(self).message, loading: false, ..*old(self) })
                    && msg_is(final(self).message, "加载订阅失败: "@ + e@),
            },
    {
        match r {
            Ok(v) => {
                self.subscriptions = v;
            },
            Err(e) => {
                self.message = text_with("加载订阅失败: ", e.as_str());
            },
        }
        self.loading = false;
    }

    /// Takes the articles a load returned (selecting the first), or reports
    /// the failure.
    pub fn on_articles_loaded(&mut self, r: Result<Vec<Article>, String>)
        ensures
            match r {
                Ok(v) => *final(self) == (TuiState { articles: v, article_index: 0, loading: false, ..*old(self) }),
                Err(e) => *final(self) == (TuiState { message: final(self).message, loading: false, ..*old(self) })
                    && msg_is(final(self).message, "加载文章失败: "@ + e@),
            },
    {
        match r {
            Ok(v) => {
                self.articles = v;
                self.article_index = 0;
            },
            Err(e) => {
                self.message = text_with("加载文章失败: ", e.as_str());
            },
        }
        self.loading = false;
    }

    /// Takes the jobs a load returned (selecting the first), or reports the
    /// failure.
    pub fn on_jobs_loaded(&mut self, r: Result<Vec<JobInfo>, String>)
        ensures
            match r {
                Ok(v) => *final(self) == (TuiState { jobs: v, job_index: 0, loading: false, ..*old(self) }),
                Err(e) => *final(self) == (TuiState { message: final(self).message, loading: false, ..*old(self) })
                    && msg_is(final(self).message, "加载任务失败: "@ + e@),
            },
    {
        match r {
            Ok(v) => {
                self.jobs = v;
                self.job_index = 0;
            },
            Err(e) => {
                self.message = text_with("加载任务失败: ", e.as_str());
            },
        }
        self.loading = false;
    }

    /// After a feed's articles were loaded: the articles tab, first article.
    pub fn on_feed_shown(&mut self)
        ensures
            *final(self) == (TuiState { tab: Tab::Articles, article_index: 0, ..*old(self) }),
    {
        self.tab = Tab::Articles;
        self.article_index = 0;
    }

    /// Shows a fetched article (its HTML as text), or reports the failure. An
    /// unread selected article is marked read, and the request that marks it
    /// is returned.
    pub fn on_detail_loaded(&mut self, id: i64, r: Result<String, String>) -> (mark: Option<ApiCall>)
        requires
            r is Ok ==> old(self).article_index < old(self).articles.len(),
        ensures
            match r {
                Ok(html) => {
                    let i = old(self).article_index as int;
                    let a = old(self).articles@[i];
                    &&& final(self).article_content is Some
                    &&& final(self).article_content->0@ == trim_lines(match html_rendered(html@, 80) {
                        Some(t) => t,
                        None => html@,
                    })
                    &&& *final(self) == (TuiState {
                        article_content: final(self).article_content,
                        article_detail_id: Some(id),
                        articles: final(self).articles,
                        loading: false,
                        article_view: ArticleView::Detail,
                        ..*old(self)
                    })
                    &&& final(self).articles@ == old(self).articles@.update(i, with_read(a, true))
                    &&& if a.is_read {
                        mark is None
                    } else {
                        mark == Some(ApiCall::MarkRead { id, read: true })
                    }
                },
                Err(e) => *final(self) == (TuiState {
                    message: final(self).message,
                    loading: false,
                    article_view: ArticleView::Detail,
                    ..*old(self)
                }) && msg_is(final(self).message, "加载文章详情失败: "@ + e@) && mark is None,
            },
    {
        let mut mark = None;
        match r {
            Ok(html) => {
                self.article_content = Some(html_to_text(html.as_str()));
                self.article_detail_id = Some(id);
                let i = self.article_index;
                if !self.articles[i].is_read {
                    mark = Some(ApiCall::MarkRead { id, read: true });
                    self.articles[i].is_read = true;
                }
            },
            Err(e) => {
                self.message = text_with("加载文章详情失败: ", e.as_str());
            },
        }
        self.loading = false;
        self.article_view = ArticleView::Detail;
        mark
    }

    /// Reports a request's success: the flag change on the selected article,
    /// and a message; clearing finished jobs also reloads the jobs. A failed
    /// request changes nothing.
    pub fn on_call_result(&mut self, call: &ApiCall, ok: bool) -> (e: Effect)
        requires
            ok && (call is MarkRead || call is MarkStarred) ==> old(self).article_index < old(self).articles.len(),
        ensures
            !ok ==> *final(self) == *old(self) && e is Nothing,
            ok ==> match *call {
                ApiCall::MarkRead { read, .. } => {
                    let i = old(self).article_index as int;
                    &&& *final(self) == (TuiState { articles: final(self).articles, message: final(self).message, ..*old(self) })
                    &&& final(self).articles@ == old(self).articles@.update(i, with_read(old(self).articles@[i], read))
                    &&& msg_is(final(self).message, call_message(*call)->0)
                    &&& e is Nothing
                },
                ApiCall::MarkStarred { starred, .. } => {
                    let i = old(self).article_index as int;
                    &&& *final(self) == (TuiState { articles: final(self).articles, message: final(self).message, ..*old(self) })
                    &&& final(self).articles@ == old(self).articles@.update(i, with_starred(old(self).articles@[i], starred))
                    &&& msg_is(final(self).message, call_message(*call)->0)
                    &&& e is Nothing
                },
                ApiCall::ClearCompleted => *final(self) == (TuiState { message: final(self).message, loading: true, ..*old(self) })
                    && msg_is(final(self).message, call_message(*call)->0) && e == Effect::Load(Tab::Jobs),
                _ => if call_message(*call) is Some {
                    *final(self) == (TuiState { message: final(self).message, ..*old(self) })
                        && msg_is(final(self).message, call_message(*call)->0) && e is Nothing
                } else {
                    *final(self) == *old(self) && e is Nothing
                },
            },
    {
        if !ok {
            return Effect::Nothing;
        }
        match call {
            ApiCall::MarkRead { read, .. } => {
                let i = self.article_index;
                self.articles[i].is_read = *read;
                self.message = if *read { message("已标记为已读") } else { message("已标记为未读") };
                Effect::Nothing
            },
            ApiCall::MarkStarred { starred, .. } => {
                let i = self.article_index;
                self.articles[i].is_starred = *starred;
                self.message = if *starred { message("已收藏") } else { message("已取消收藏") };
                Effect::Nothing
            },
            ApiCall::Translate(_) => {
                self.message = message("翻译任务已提交");
                Effect::Nothing
            },
            ApiCall::Summarize(_) => {
                self.message = message("摘要任务已提交");
                Effect::Nothing
            },
            ApiCall::SyncSubscription(_) => {
                self.message = message("同步任务已提交");
                Effect::Nothing
            },
            ApiCall::SyncAll => {
                self.message = message("全部同步任务已提交");
                Effect::Nothing
            },
            ApiCall::RetryJob(_) => {
                self.message = message("重试任务已提交");
                Effect::Nothing
            },
            ApiCall::ClearCompleted => {
                self.message = message("已清除完成的任务");
                self.loading = true;
                Effect::Load(Tab::Jobs)
            },
            _ => Effect::Nothing,
        }
    }

    /// The status bar: loading, else the message, else the search being
    /// typed, else the size of the tab's list.
    pub fn status_text(&self) -> (r: String)
        requires
            self.articles.len() <= u64::MAX,
            self.subscriptions.len() <= u64::MAX,
            self.jobs.len() <= u64::MAX,
        ensures
            r@ == if self.loading {
                "加载中..."@
            } else if self.message is Some {
                self.message->0@
            } else if self.search_mode {
                seq!['/'] + self.search_query@
            } else {
                match self.tab {
                    Tab::Articles => "共 "@ + dec_spec(self.articles.len() as int) + " 篇文章"@,
                    Tab::Subscriptions => "共 "@ + dec_spec(self.subscriptions.len() as int) + " 个订阅"@,
                    Tab::Jobs => "共 "@ + dec_spec(self.jobs.len() as int) + " 个任务"@,
                    _ => Seq::<char>::empty(),
                }
            },
    {
        if self.loading {
            return String::from_str("加载中...");
        }
        if let Some(m) = &self.message {
            return m.clone();
        }
        if self.search_mode {
            let mut v = vec!['/'];
            extend_str(&mut v, self.search_query.as_str());
            return from_chars(&v);
        }
        let (n, tail) = match self.tab {
            Tab::Articles => (self.articles.len(), " 篇文章"),
            Tab::Subscriptions => (self.subscriptions.len(), " 个订阅"),
            Tab::Jobs => (self.jobs.len(), " 个任务"),
            _ => {
                return String::new();
            },
        };
        let mut v = to_chars("共 ");
        extend_chars(&mut v, &u64_to_dec(n as u64));
        extend_str(&mut v, tail);
        from_chars(&v)
    }
}

/// The icon of a job status.
pub open spec fn status_icon(status: Seq<char>) -> Seq<char> {
    if status == "Running"@ {
        "⏳"@
    } else if status == "Pending"@ {
        "🕐"@
    } else if status == "Done"@ {
        "✅"@
    } else if status == "Failed"@ {
        "❌"@
    } else {
        "❓"@
    }
}

/// A job's line in the queue: icon, label (or id), type and status.
pub fn job_line(job: &JobInfo) -> (r: String)
    ensures
        r@ == status_icon(job.status@) + seq![' '] + (match job.title_label {
            Some(l) => l@,
            None => job.id@,
        }) + " ["@ + job.job_type@ + "] "@ + job.status@,
{
    let st = to_chars(job.status.as_str());
    let icon = if crate::text::chars_eq(&st, &to_chars("Running")) {
        "⏳"
    } else if crate::text::chars_eq(&st, &to_chars("Pending")) {
        "🕐"
    } else if crate::text::chars_eq(&st, &to_chars("Done")) {
        "✅"
    } else if crate::text::chars_eq(&st, &to_chars("Failed")) {
        "❌"
    } else {
        "❓"
    };
    let mut v = to_chars(icon);
    v.push(' ');
    match &job.title_label {
        Some(l) => extend_str(&mut v, l.as_str()),
        None => extend_str(&mut v, job.id.as_str()),
    }
    extend_str(&mut v, " [");
    extend_str(&mut v, job.job_type.as_str());
    extend_str(&mut v, "] ");
    extend_str(&mut v, job.status.as_str());
    from_chars(&v)
}

/// A subscription's line: title, category, and whether it is translated and
/// summarised.
pub fn subscription_line(sub: &Subscription) -> (r: String)
    ensures
        r@ == seq![' '] + sub.title@ + " ["@ + sub.category@ + "] "@
            + (if sub.need_translate == Some(true) { "翻译"@ } else { Seq::<char>::empty() }) + seq![' ']
            + (if sub.need_summary == Some(true) { "摘要"@ } else { Seq::<char>::empty() }),
{
    let mut v = vec![' '];
    extend_str(&mut v, sub.title.as_str());
    extend_str(&mut v, " [");
    extend_str(&mut v, sub.category.as_str());
    extend_str(&mut v, "] ");
    let t = match sub.need_translate {
        Some(b) => b,
        None => false,
    };
    let ghost v1 = v@;
    if t {
        extend_str(&mut v, "翻译");
    }
    v.push(' ');
    let m = match sub.need_summary {
        Some(b) => b,
        None => false,
    };
    if m {
        extend_str(&mut v, "摘要");
    }
    from_chars(&v)
}

/// A subscription in the tree beside the articles.
pub fn sub_tree_line(sub: &Subscription) -> (r: String)
    ensures
        r@ == seq![' '] + sub.title@ + " ["@ + sub.category@ + "]"@,
{
    let mut v = vec![' '];
    extend_str(&mut v, sub.title.as_str());
    extend_str(&mut v, " [");
    extend_str(&mut v, sub.category.as_str());
    extend_str(&mut v, "]");
    from_chars(&v)
}

/// A date formatted with a pattern, empty when unknown or not representable.
pub open spec fn date_or_empty(ts: Option<i64>, pattern: Seq<char>) -> Seq<char> {
    match ts {
        Some(t) => match formatted_time(t, pattern) {
            Some(d) => d,
            None => Seq::<char>::empty(),
        },
        None => Seq::<char>::empty(),
    }
}

fn date_text(ts: Option<i64>, pattern: &str) -> (r: Vec<char>)
    requires
        crate::ui_text::date_pattern(pattern@),
    ensures
        r@ == date_or_empty(ts, pattern@),
{
    match ts {
        Some(t) => match format_utc(t, pattern) {
            Some(d) => to_chars(d.as_str()),
            None => Vec::new(),
        },
        None => Vec::new(),
    }
}

/// An article in the list: a star when starred, a dot when unread, its title
/// and its month and day.
pub fn article_list_line(a: &Article) -> (r: String)
    ensures
        r@ == (if a.is_starred {
            "★"@
        } else {
            " "@
        }) + (if a.is_read {
            " "@
        } else {
            "●"@
        }) + " "@ + a.title@ + " "@ + date_or_empty(a.published_at, "%m-%d"@),
{
    let mut v = if a.is_starred {
        to_chars("★")
    } else {
        to_chars(" ")
    };
    if a.is_read {
        extend_str(&mut v, " ");
    } else {
        extend_str(&mut v, "●");
    }
    extend_str(&mut v, " ");
    extend_str(&mut v, a.title.as_str());
    extend_str(&mut v, " ");
    extend_chars(&mut v, &date_text(a.published_at, "%m-%d"));
    from_chars(&v)
}

/// The header lines of an article's page: its title; its source and date;
/// its read and starred state.
pub fn article_meta_lines(a: &Article) -> (r: (String, String, String))
    ensures
        r.0@ == "标题: "@ + a.title@,
        r.1@ == "来源: "@ + (match a.feed_title {
            Some(f) => f@,
            None => Seq::<char>::empty(),
        }) + "  日期: "@ + date_or_empty(a.published_at, "%Y-%m-%d %H:%M"@),
        r.2@ == "状态: "@ + (if a.is_read {
            "已读"@
        } else {
            "未读"@
        }) + (if a.is_starred {
            " ★已收藏"@
        } else {
            Seq::<char>::empty()
        }),
{
    let mut t = to_chars("标题: ");
    extend_str(&mut t, a.title.as_str());
    let mut m = to_chars("来源: ");
    match &a.feed_title {
        Some(f) => extend_str(&mut m, f.as_str()),
        None => {},
    }
    extend_str(&mut m, "  日期: ");
    extend_chars(&mut m, &date_text(a.published_at, "%Y-%m-%d %H:%M"));
    let mut st = to_chars("状态: ");
    if a.is_read {
        extend_str(&mut st, "已读");
    } else {
        extend_str(&mut st, "未读");
    }
    if a.is_starred {
        extend_str(&mut st, " ★已收藏");
    }
    (from_chars(&t), from_chars(&m), from_chars(&st))
}

} // verus!
