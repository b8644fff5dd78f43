//! The decisions that the site's pages take on their query parameters.
use vstd::prelude::*;
use vstd::string::{StrSliceExecFns, StringExecFns};

verus! {

/// Articles shown on one page of the index.
pub const INDEX_PAGE_SIZE: i32 = 10;

/// The query of the index page: the page asked for, if any.
#[derive(Debug, Clone, Copy, PartialEq, Eq)]
pub struct IndexQuery {
    pub p: Option<i32>,
}

/// The number of index pages for `row_count` articles.
pub open spec fn page_count(row_count: int) -> int {
    if row_count % 10 == 0 {
        row_count / 10
    } else {
        row_count / 10 + 1
    }
}

/// The rows of the index page asked for by `p` (the first page when none is
/// asked for), as offset and limit: a page past the last one shows the last
/// one. `None` when the page asked for is below 1.
pub open spec fn page_window(p: Option<i32>, row_count: int) -> Option<(int, int)> {
    let page: int = match p {
        Some(n) => n as int,
        None => 1,
    };
    if page < 1 {
        None
    } else {
        let current = if page > page_count(row_count) { page_count(row_count) } else { page };
        Some(((current - 1) * 10, 10))
    }
}

impl IndexQuery {
    /// The offset and limit of the rows to show, among `row_count` articles.
    pub fn page_window(&self, row_count: u32) -> (r: Option<(i64, i64)>)
        ensures
            match r {
                Some((offset, limit)) => page_window(self.p, row_count as int) == Some((offset as int, limit as int)),
                None => page_window(self.p, row_count as int) is None,
            },
    {
        let page: i64 = match self.p {
            Some(n) => n as i64,
            None => 1,
        };
        if page < 1 {
            return None;
        }
        let size = INDEX_PAGE_SIZE as i64;
        let rows = row_count as i64;
        let mut max_page: i64 = rows / size;
        if rows % size != 0 {
            max_page = max_page + 1;
        }
        let current = if page > max_page { max_page } else { page };
        Some(((current - 1) * size, size))
    }
}

/// The rows of an article listing asked for with `offset` and `limit`: a
/// negative offset starts at 0, a limit outside 4 to 64 is 8.
pub fn articles_window(offset: i32, limit: i32) -> (r: (i64, i64))
    ensures
        r.0 == (if offset < 0 { 0 } else { offset as int }),
        r.1 == (if limit < 4 || limit > 64 { 8 } else { limit as int }),
{
    let offset_value: i64 = if offset < 0 { 0 } else { offset as i64 };
    let limit_value: i64 = if limit < 4 || limit > 64 { 8 } else { limit as i64 };
    (offset_value, limit_value)
}

/// The query of the registration page: the account to register, if any.
#[derive(Debug, Clone, PartialEq, Eq)]
pub struct RegisterQuery {
    pub account: Option<String>,
}

impl RegisterQuery {
    /// The account to register: only a debug build registers accounts, and
    /// only a non-empty account name. `None` means missing credentials.
    pub fn account_to_register(&self, debug_build: bool) -> (r: Option<String>)
        ensures
            match r {
                Some(a) => debug_build && (self.account matches Some(x) && x@.len() > 0 && a@ == x@),
                None => !debug_build || !(self.account matches Some(x) && x@.len() > 0),
            },
    {
        if !debug_build {
            return None;
        }
        match &self.account {
            Some(account) => if account.as_str().unicode_len() == 0 {
                None
            } else {
                Some(account.clone())
            },
            None => None,
        }
    }
}

/// The template helper that gives the address of a static resource.
#[derive(Debug, Clone, Copy, PartialEq, Eq)]
pub struct SimpleHelper;

/// The address of a static resource: under the local server in a debug build,
/// under the resource server otherwise, where `release_path` replaces `path`
/// when it is given.
pub open spec fn resource_url(debug_build: bool, path: Seq<char>, release_path: Seq<char>) -> Seq<char> {
    (if debug_build { "http://127.0.0.1:3000"@ } else { "https://res.sfx.xyz"@ }) + (if debug_build
        || release_path.len() == 0 {
        path
    } else {
        release_path
    })
}

impl SimpleHelper {
    /// The address of the resource at `path`, or at `release_path` in a
    /// release build when that is not empty.
    pub fn resource_url(&self, debug_build: bool, path: &str, release_path: &str) -> (r: String)
        ensures
            r@ == resource_url(debug_build, path@, release_path@),
    {
        let res_url = if debug_build { "http://127.0.0.1:3000" } else { "https://res.sfx.xyz" };
        let mut out = String::from_str(res_url);
        if debug_build || release_path.unicode_len() == 0 {
            out.append(path);
        } else {
            out.append(release_path);
        }
        out
    }
}

} // verus!
