//! The search for a local node when none is named. Every default RPC address
//! is tried with every cookie file, address by address and cookie file by
//! cookie file; a cookie file that does not exist is skipped, and the search
//! stops at the first node that answers.

use vstd::prelude::*;
use crate::chain::NetworkKind;

verus! {

/// What the search asks for next.
#[derive(Debug, Clone, PartialEq, Eq)]
pub enum AutoDetectAction {
    /// Check whether the cookie file with this index exists.
    CheckCookie { url: usize, cookie: usize },
    /// Connect to the address with this index using the cookie file with this
    /// index, and ask the node which chain it runs.
    Query { url: usize, cookie: usize },
    /// A node answered: it runs this network.
    Found(NetworkKind),
    /// Every pair was tried and no node answered.
    GiveUp,
}

/// What came of the last action.
#[derive(Debug, Clone, PartialEq, Eq)]
pub enum AutoDetectEvent {
    /// Whether the cookie file exists.
    CookieExists(bool),
    /// What the node answered, or nothing where no connection or no answer
    /// could be had.
    Answer(Option<NetworkKind>),
}

/// The state of the search among the pairs of addresses and cookie files.
#[derive(Debug)]
pub struct AutoDetectSearch {
    n_urls: usize,
    n_cookies: usize,
    url: usize,
    cookie: usize,
    querying: bool,
    done: bool,
}

/// The pair after `(u, c)`: the next cookie file for the same address, or the
/// first cookie file for the next address.
pub open spec fn successor(u: int, c: int, n_cookies: int) -> (int, int) {
    if c + 1 < n_cookies {
        (u, c + 1)
    } else {
        (u + 1, 0)
    }
}

/// Whether pair `(u1, c1)` comes no later than pair `(u2, c2)`, addresses first.
pub open spec fn pair_le(u1: int, c1: int, u2: int, c2: int) -> bool {
    u1 < u2 || (u1 == u2 && c1 <= c2)
}

impl AutoDetectSearch {
    #[verifier::type_invariant]
    spec fn wf(self) -> bool {
        &&& self.url <= self.n_urls
        &&& self.url < self.n_urls ==> self.cookie < self.n_cookies
        &&& self.querying ==> self.url < self.n_urls
    }

    /// The number of addresses.
    pub closed spec fn urls(self) -> int {
        self.n_urls as int
    }

    /// The number of cookie files.
    pub closed spec fn cookies(self) -> int {
        self.n_cookies as int
    }

    /// The address index of the current pair.
    pub closed spec fn next_url(self) -> int {
        self.url as int
    }

    /// The cookie index of the current pair.
    pub closed spec fn next_cookie(self) -> int {
        self.cookie as int
    }

    /// Whether the current pair's cookie file exists and its node is to be
    /// asked.
    pub closed spec fn querying(self) -> bool {
        self.querying
    }

    /// Whether a node has answered.
    pub closed spec fn done(self) -> bool {
        self.done
    }

    /// What the search asks for now.
    pub open spec fn pending(self) -> AutoDetectAction {
        if self.done() || self.next_url() >= self.urls() {
            AutoDetectAction::GiveUp
        } else if self.querying() {
            AutoDetectAction::Query { url: self.next_url() as usize, cookie: self.next_cookie() as usize }
        } else {
            AutoDetectAction::CheckCookie {
                url: self.next_url() as usize,
                cookie: self.next_cookie() as usize,
            }
        }
    }

    /// A search over `n_urls` addresses and `n_cookies` cookie files, at the
    /// first cookie file of the first address.
    pub fn new(n_urls: usize, n_cookies: usize) -> (s: Self)
        ensures
            s.urls() == n_urls,
            s.cookies() == n_cookies,
            !s.done(),
            !s.querying(),
            n_cookies > 0 ==> s.next_url() == 0 && s.next_cookie() == 0,
            n_urls > 0 && n_cookies > 0 ==> s.pending() == (AutoDetectAction::CheckCookie {
                url: 0,
                cookie: 0,
            }),
            n_urls == 0 || n_cookies == 0 ==> s.pending() == AutoDetectAction::GiveUp,
    {
        if n_cookies == 0 {
            AutoDetectSearch { n_urls, n_cookies, url: n_urls, cookie: 0, querying: false, done: false }
        } else {
            AutoDetectSearch { n_urls, n_cookies, url: 0, cookie: 0, querying: false, done: false }
        }
    }

    /// What the search asks for now.
    pub fn action(&self) -> (a: AutoDetectAction)
        ensures
            a == self.pending(),
    {
        proof {
            use_type_invariant(self);
        }
        if self.done || self.url >= self.n_urls {
            AutoDetectAction::GiveUp
        } else if self.querying {
            AutoDetectAction::Query { url: self.url, cookie: self.cookie }
        } else {
            AutoDetectAction::CheckCookie { url: self.url, cookie: self.cookie }
        }
    }

    /// Takes what came of the pending action and says what to do next. A
    /// cookie file that exists is queried; one that does not is skipped. A
    /// node that answers ends the search with its network; one that does not
    /// moves the search on. Moving on goes to the next cookie file of the
    /// same address, else to the first one of the next address, else gives
    /// up. An event that does not answer the pending action changes nothing.
    pub fn advance(&mut self, event: AutoDetectEvent) -> (a: AutoDetectAction)
        ensures
            final(self).urls() == old(self).urls(),
            final(self).cookies() == old(self).cookies(),
            match (old(self).pending(), event) {
                (AutoDetectAction::CheckCookie { .. }, AutoDetectEvent::CookieExists(true)) => {
                    &&& final(self).next_url() == old(self).next_url()
                    &&& final(self).next_cookie() == old(self).next_cookie()
                    &&& final(self).querying()
                    &&& !final(self).done()
                    &&& a == final(self).pending()
                },
                (AutoDetectAction::CheckCookie { .. }, AutoDetectEvent::CookieExists(false))
                | (AutoDetectAction::Query { .. }, AutoDetectEvent::Answer(None)) => {
                    &&& (final(self).next_url(), final(self).next_cookie()) == successor(
                        old(self).next_url(),
                        old(self).next_cookie(),
                        old(self).cookies(),
                    )
                    &&& !final(self).querying()
                    &&& !final(self).done()
                    &&& a == final(self).pending()
                },
                (AutoDetectAction::Query { .. }, AutoDetectEvent::Answer(Some(k))) => {
                    &&& a == AutoDetectAction::Found(k)
                    &&& final(self).done()
                    &&& final(self).pending() == AutoDetectAction::GiveUp
                },
                _ => {
                    &&& final(self).next_url() == old(self).next_url()
                    &&& final(self).next_cookie() == old(self).next_cookie()
                    &&& final(self).querying() == old(self).querying()
                    &&& final(self).done() == old(self).done()
                    &&& a == old(self).pending()
                },
            },
    {
        proof {
            use_type_invariant(&*self);
        }
        let active = !self.done && self.url < self.n_urls;
        match event {
            AutoDetectEvent::CookieExists(exists) => {
                if active && !self.querying {
                    if exists {
                        *self = AutoDetectSearch {
                            n_urls: self.n_urls,
                            n_cookies: self.n_cookies,
                            url: self.url,
                            cookie: self.cookie,
                            querying: true,
                            done: false,
                        };
                    } else {
                        self.move_on();
                    }
                }
            },
            AutoDetectEvent::Answer(answer) => {
                if active && self.querying {
                    match answer {
                        Some(k) => {
                            *self = AutoDetectSearch {
                                n_urls: self.n_urls,
                                n_cookies: self.n_cookies,
                                url: self.url,
                                cookie: self.cookie,
                                querying: false,
                                done: true,
                            };
                            return AutoDetectAction::Found(k);
                        },
                        None => {
                            self.move_on();
                        },
                    }
                }
            },
        }
        self.action()
    }

    fn move_on(&mut self)
        requires
            !old(self).done(),
            old(self).next_url() < old(self).urls(),
        ensures
            final(self).urls() == old(self).urls(),
            final(self).cookies() == old(self).cookies(),
            (final(self).next_url(), final(self).next_cookie()) == successor(
                old(self).next_url(),
                old(self).next_cookie(),
                old(self).cookies(),
            ),
            !final(self).querying(),
            !final(self).done(),
    {
        proof {
            use_type_invariant(&*self);
        }
        if self.cookie + 1 < self.n_cookies {
            *self = AutoDetectSearch {
                n_urls: self.n_urls,
                n_cookies: self.n_cookies,
                url: self.url,
                cookie: self.cookie + 1,
                querying: false,
                done: false,
            };
        } else {
            *self = AutoDetectSearch {
                n_urls: self.n_urls,
                n_cookies: self.n_cookies,
                url: self.url + 1,
                cookie: 0,
                querying: false,
                done: false,
            };
        }
    }
}

/// The search skips no pair: moving on from the current pair leaves every
/// later pair still ahead.
pub proof fn lemma_search_skips_nothing(u0: int, c0: int, n_cookies: int, u: int, c: int)
    requires
        0 <= c0 < n_cookies,
        0 <= c < n_cookies,
        pair_le(u0, c0, u, c),
    ensures
        (u == u0 && c == c0) || pair_le(
            successor(u0, c0, n_cookies).0,
            successor(u0, c0, n_cookies).1,
            u,
            c,
        ),
{
}

/// Moving on always goes strictly forward, so no pair is tried twice.
pub proof fn lemma_search_moves_forward(u0: int, c0: int, n_cookies: int)
    requires
        0 <= c0 < n_cookies,
    ensures
        pair_le(u0, c0, successor(u0, c0, n_cookies).0, successor(u0, c0, n_cookies).1),
        successor(u0, c0, n_cookies) != (u0, c0),
{
}

} // verus!
