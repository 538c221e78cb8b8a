//! The first terminal interface: a subscription list and an article list, and
//! how it answers keys. A key changes the state and names at most one effect;
//! the runner performs it and hands the result back.
use vstd::prelude::*;
use crate::api::{Article, Subscription};
use crate::text::{extend_str, from_chars, to_chars};
use crate::tui_app::{Key, is_down, is_up, move_down, move_up, msg_is, next_index, prev_index};

verus! {

/// Which list is shown.
#[derive(PartialEq, Eq, Structural)]
pub enum AppState {
    Subscriptions,
    Articles,
}

/// The interface's state.
pub struct App {
    pub state: AppState,
    pub subscriptions: Vec<Subscription>,
    pub articles: Vec<Article>,
    pub sub_index: usize,
    pub article_index: usize,
    pub loading: bool,
    pub message: Option<String>,
    pub should_quit: bool,
}

/// What the runner does after a key.
pub enum AppEffect {
    Nothing,
    /// Load the subscriptions.
    LoadSubscriptions,
    /// Load the articles of a feed (of all feeds for `None`), then show them.
    ShowArticles(Option<i64>),
    /// Set an article's read flag; success is reported to `on_mark_result`.
    MarkRead { id: i64, read: bool },
    /// Set an article's starred flag; success is reported to `on_mark_result`.
    MarkStarred { id: i64, starred: bool },
    OpenLink(String),
}

/// The selections a key reads lie inside their lists, and one it moves down
/// can be stepped.
pub open spec fn app_key_in_bounds(s: App, k: Key) -> bool {
    match s.state {
        AppState::Subscriptions => s.subscriptions.len() > 0 ==> (k is Enter ==> s.sub_index < s.subscriptions.len())
            && (is_down(k) ==> s.sub_index < usize::MAX),
        AppState::Articles => s.articles.len() > 0 ==> ((k == Key::Char(' ') || k == Key::Char('s') || k == Key::Char('o'))
            ==> s.article_index < s.articles.len()) && (is_down(k) ==> s.article_index < usize::MAX),
    }
}

/// What a key does.
pub open spec fn app_key_spec(s: App, k: Key, t: App, e: AppEffect) -> bool {
    match s.state {
        AppState::Subscriptions => {
            let n = s.subscriptions.len();
            if k == Key::Char('q') || k is Esc {
                t == (App { should_quit: true, ..s }) && e is Nothing
            } else if k == Key::Char('a') {
                t == (App { loading: true, message: None, ..s }) && e == AppEffect::ShowArticles(None)
            } else if k == Key::Char('r') {
                t == (App { loading: true, message: None, ..s }) && e is LoadSubscriptions
            } else if n == 0 {
                t == s && e is Nothing
            } else if is_down(k) {
                t == (App { sub_index: next_index(s.sub_index, n), ..s }) && e is Nothing
            } else if is_up(k) {
                t == (App { sub_index: prev_index(s.sub_index, n), ..s }) && e is Nothing
            } else if k is Enter {
                t == (App { loading: true, message: None, ..s })
                    && e == AppEffect::ShowArticles(Some(s.subscriptions@[s.sub_index as int].feed_id))
            } else {
                t == s && e is Nothing
            }
        },
        AppState::Articles => {
            let n = s.articles.len();
            let i = s.article_index;
            if k == Key::Char('q') || k is Esc {
                t == (App { state: AppState::Subscriptions, articles: t.articles, ..s }) && t.articles@.len() == 0
                    && e is Nothing
            } else if n == 0 {
                t == s && e is Nothing
            } else if is_down(k) {
                t == (App { article_index: next_index(i, n), ..s }) && e is Nothing
            } else if is_up(k) {
                t == (App { article_index: prev_index(i, n), ..s }) && e is Nothing
            } else if k == Key::Char(' ') {
                t == s && e == AppEffect::MarkRead { id: s.articles@[i as int].id, read: !s.articles@[i as int].is_read }
            } else if k == Key::Char('s') {
                t == s && e == AppEffect::MarkStarred { id: s.articles@[i as int].id, starred: !s.articles@[i as int].is_starred }
            } else if k == Key::Char('o') {
                t == s && match s.articles@[i as int].link {
                    Some(l) => (e matches AppEffect::OpenLink(x) && x@ == l@),
                    None => e is Nothing,
                }
            } else {
                t == s && e is Nothing
            }
        },
    }
}

/// `with_read` for the records of this interface.
pub open spec fn article_with_read(a: Article, read: bool) -> Article {
    Article { is_read: read, ..a }
}

/// `with_starred` for the records of this interface.
pub open spec fn article_with_starred(a: Article, starred: bool) -> Article {
    Article { is_starred: starred, ..a }
}

impl App {
    /// The subscription list, nothing loaded.
    pub fn new() -> (a: App)
        ensures
            a.state == AppState::Subscriptions,
            a.subscriptions@.len() == 0,
            a.articles@.len() == 0,
            a.sub_index == 0,
            a.article_index == 0,
            !a.loading,
            a.message is None,
            !a.should_quit,
    {
        App {
            state: AppState::Subscriptions,
            subscriptions: Vec::new(),
            articles: Vec::new(),
            sub_index: 0,
            article_index: 0,
            loading: false,
            message: None,
            should_quit: false,
        }
    }

    /// Whether the selections a key reads lie inside their lists.
    pub fn key_in_bounds(&self, k: &Key) -> (b: bool)
        ensures
            b == app_key_in_bounds(*self, *k),
    {
        let down = match k {
            Key::Down => true,
            Key::Char(c) => *c == 'j',
            _ => false,
        };
        match self.state {
            AppState::Subscriptions => {
                if self.subscriptions.len() == 0 {
                    return true;
                }
                let enter_ok = match k {
                    Key::Enter => self.sub_index < self.subscriptions.len(),
                    _ => true,
                };
                enter_ok && (!down || self.sub_index < usize::MAX)
            },
            AppState::Articles => {
                if self.articles.len() == 0 {
                    return true;
                }
                let reads = match k {
                    Key::Char(c) => *c == ' ' || *c == 's' || *c == 'o',
                    _ => false,
                };
                (!reads || self.article_index < self.articles.len()) && (!down || self.article_index < usize::MAX)
            },
        }
    }

    /// Answers a key: on the subscription list, quit, move, open a feed's
    /// articles or all articles, reload; on the article list, go back, move,
    /// toggle read or starred, open the link.
    pub fn handle_key(&mut self, code: Key) -> (e: AppEffect)
        requires
            app_key_in_bounds(*old(self), code),
        ensures
            app_key_spec(*old(self), code, *final(self), e),
    {
        match self.state {
            AppState::Subscriptions => {
                let quit = match code {
                    Key::Char(c) => c == 'q',
                    Key::Esc => true,
                    _ => false,
                };
                if quit {
                    self.should_quit = true;
                    return AppEffect::Nothing;
                }
                if let Key::Char(c) = code {
                    if c == 'a' {
                        self.loading = true;
                        self.message = None;
                        return AppEffect::ShowArticles(None);
                    }
                    if c == 'r' {
                        self.loading = true;
                        self.message = None;
                        return AppEffect::LoadSubscriptions;
                    }
                }
                let n = self.subscriptions.len();
                if n == 0 {
                    return AppEffect::Nothing;
                }
                let down = match code {
                    Key::Down => true,
                    Key::Char(c) => c == 'j',
                    _ => false,
                };
                let up = match code {
                    Key::Up => true,
                    Key::Char(c) => c == 'k',
                    _ => false,
                };
                if down {
                    self.sub_index = move_down(self.sub_index, n);
                    AppEffect::Nothing
                } else if up {
                    self.sub_index = move_up(self.sub_index, n);
                    AppEffect::Nothing
                } else if let Key::Enter = code {
                    self.loading = true;
                    self.message = None;
                    AppEffect::ShowArticles(Some(self.subscriptions[self.sub_index].feed_id))
                } else {
                    AppEffect::Nothing
                }
            },
            AppState::Articles => {
                let back = match code {
                    Key::Char(c) => c == 'q',
                    Key::Esc => true,
                    _ => false,
                };
                if back {
                    self.state = AppState::Subscriptions;
                    self.articles = Vec::new();
                    return AppEffect::Nothing;
                }
                let n = self.articles.len();
                if n == 0 {
                    return AppEffect::Nothing;
                }
                let i = self.article_index;
                match code {
                    Key::Down => {
                        self.article_index = move_down(i, n);
                        AppEffect::Nothing
                    },
                    Key::Up => {
                        self.article_index = move_up(i, n);
                        AppEffect::Nothing
                    },
                    Key::Char(c) => {
                        if c == 'j' {
                            self.article_index = move_down(i, n);
                            AppEffect::Nothing
                        } else if c == 'k' {
                            self.article_index = move_up(i, n);
                            AppEffect::Nothing
                        } else if c == ' ' {
                            AppEffect::MarkRead { id: self.articles[i].id, read: !self.articles[i].is_read }
                        } else if c == 's' {
                            AppEffect::MarkStarred { id: self.articles[i].id, starred: !self.articles[i].is_starred }
                        } else if c == 'o' {
                            match &self.articles[i].link {
                                Some(l) => AppEffect::OpenLink(l.clone()),
                                None => AppEffect::Nothing,
                            }
                        } else {
                            AppEffect::Nothing
                        }
                    },
                    _ => AppEffect::Nothing,
                }
            },
        }
    }

    /// Takes the subscriptions a load returned (selecting the first), or
    /// reports the failure.
    pub fn on_subscriptions_loaded(&mut self, r: Result<Vec<Subscription>, String>)
        ensures
            match r {
                Ok(v) => *final(self) == (App { subscriptions: v, sub_index: 0, message: None, loading: false, ..*old(self) }),
                Err(e) => *final(self) == (App { message: final(self).message, loading: false, ..*old(self) })
                    && msg_is(final(self).message, "加载失败: "@ + e@),
            },
    {
        match r {
            Ok(v) => {
                self.subscriptions = v;
                self.sub_index = 0;
                self.message = None;
            },
            Err(e) => {
                let mut m = to_chars("加载失败: ");
                extend_str(&mut m, e.as_str());
                self.message = Some(from_chars(&m));
            },
        }
        self.loading = false;
    }

    /// Takes the articles a load returned (selecting the first), or reports the
    /// failure; then shows the article list from its first article.
    pub fn on_articles_loaded(&mut self, r: Result<Vec<Article>, String>)
        ensures
            match r {
                Ok(v) => *final(self) == (App {
                    articles: v,
                    article_index: 0,
                    message: None,
                    loading: false,
                    state: AppState::Articles,
                    ..*old(self)
                }),
                Err(e) => *final(self) == (App {
                    message: final(self).message,
                    loading: false,
                    state: AppState::Articles,
                    article_index: 0,
                    ..*old(self)
                }) && msg_is(final(self).message, "加载失败: "@ + e@),
            },
    {
        match r {
            Ok(v) => {
                self.articles = v;
                self.message = None;
            },
            Err(e) => {
                let mut m = to_chars("加载失败: ");
                extend_str(&mut m, e.as_str());
                self.message = Some(from_chars(&m));
            },
        }
        self.loading = false;
        self.state = AppState::Articles;
        self.article_index = 0;
    }

    /// Reports a flag change: on success the selected article takes the new
    /// flag and a message says so; a failure changes nothing.
    pub fn on_mark_result(&mut self, effect: &AppEffect, ok: bool)
        requires
            ok && (effect is MarkRead || effect is MarkStarred) ==> old(self).article_index < old(self).articles.len(),
        ensures
            !ok ==> *final(self) == *old(self),
            ok ==> match *effect {
                AppEffect::MarkRead { read, .. } => *final(self) == (App { articles: final(self).articles, message: final(self).message, ..*old(self) })
                    && final(self).articles@ == old(self).articles@.update(
                        old(self).article_index as int,
                        article_with_read(old(self).articles@[old(self).article_index as int], read),
                    ) && msg_is(final(self).message, if read { "已标记为已读"@ } else { "已标记为未读"@ }),
                AppEffect::MarkStarred { starred, .. } => *final(self) == (App { articles: final(self).articles, message: final(self).message, ..*old(self) })
                    && final(self).articles@ == old(self).articles@.update(
                        old(self).article_index as int,
                        article_with_starred(old(self).articles@[old(self).article_index as int], starred),
                    ) && msg_is(final(self).message, if starred { "已收藏"@ } else { "已取消收藏"@ }),
                _ => *final(self) == *old(self),
            },
    {
        if !ok {
            return;
        }
        match effect {
            AppEffect::MarkRead { read, .. } => {
                let i = self.article_index;
                self.articles[i].is_read = *read;
                self.message = if *read {
                    Some(String::from_str("已标记为已读"))
                } else {
                    Some(String::from_str("已标记为未读"))
                };
            },
            AppEffect::MarkStarred { starred, .. } => {
                let i = self.article_index;
                self.articles[i].is_starred = *starred;
                self.message = if *starred {
                    Some(String::from_str("已收藏"))
                } else {
                    Some(String::from_str("已取消收藏"))
                };
            },
            _ => {},
        }
    }
}

} // verus!
