//! Static dispatch from request method and path to an operation.
//!
//! The route table is the union of the service's two entry points,
//! deduplicated: the article collection and element routes, the greeting
//! at the root, and the placeholder endpoints. A path parameter (the
//! article identifier) is parsed positionally as a decimal number;
//! anything that does not match the table, including a malformed
//! identifier, routes nowhere.

use vstd::prelude::*;
use vstd::string::StrSliceExecFns;

verus! {

/// The request methods the table dispatches on.
#[derive(Clone, Copy, Debug, PartialEq, Eq, Structural)]
pub enum Method {
    Get,
    Post,
    Put,
    Delete,
}

/// The operations a request can be dispatched to.
#[derive(Clone, Copy, Debug, PartialEq, Eq, Structural)]
pub enum Route {
    /// `GET /`: the fixed greeting.
    Root,
    /// `GET /articles`: every persisted article.
    ListArticles,
    /// `POST /articles`: insert a new article.
    CreateArticle,
    /// `GET /articles/{id}`: fetch one article.
    GetArticle(u64),
    /// `PUT /articles/{id}`: full-replace one article.
    UpdateArticle(u64),
    /// `DELETE /articles/{id}`: remove one article.
    DeleteArticle(u64),
    /// `GET /login`: placeholder acknowledgement.
    Login,
    /// `GET /register`: placeholder acknowledgement.
    Register,
    /// `GET /categories`: placeholder acknowledgement.
    ListCategories,
}

/// Is `c` a decimal digit?
pub open spec fn is_ascii_digit(c: char) -> bool {
    48 <= c as u32 <= 57
}

/// The numeric value of the digit `c`; meaningful only when
/// `is_ascii_digit(c)` holds.
pub open spec fn digit_value(c: char) -> int {
    c as u32 - 48
}

/// Is every character of `s` a decimal digit?
pub open spec fn all_digits(s: Seq<char>) -> bool {
    forall|i: int| 0 <= i < s.len() ==> is_ascii_digit(#[trigger] s[i])
}

/// The number the digit string `s` denotes, most significant digit
/// first; meaningful only when `all_digits(s)` holds.
pub open spec fn digits_value(s: Seq<char>) -> int
    decreases s.len(),
{
    if s.len() == 0 {
        0
    } else {
        digits_value(s.drop_last()) * 10 + digit_value(s.last())
    }
}

/// What parsing `s` as an article identifier yields: the denoted number,
/// provided `s` is a non-empty digit string whose value fits the
/// identifier type.
pub open spec fn spec_parse_id(s: Seq<char>) -> Option<u64> {
    if s.len() > 0 && all_digits(s) && digits_value(s) <= u64::MAX {
        Some(digits_value(s) as u64)
    } else {
        None
    }
}

/// A digit string denotes a non-negative number.
pub proof fn lemma_digits_value_nonneg(s: Seq<char>)
    requires
        all_digits(s),
    ensures
        digits_value(s) >= 0,
    decreases s.len(),
{
    if s.len() > 0 {
        assert(all_digits(s.drop_last()));
        lemma_digits_value_nonneg(s.drop_last());
    }
}

/// Reading further digits never shrinks the denoted number: the value of
/// a prefix bounds the value of the whole digit string.
pub proof fn lemma_digits_value_prefix_bound(s: Seq<char>, i: int)
    requires
        all_digits(s),
        0 <= i <= s.len(),
    ensures
        digits_value(s.subrange(0, i)) <= digits_value(s),
    decreases s.len() - i,
{
    if i == s.len() {
        assert(s.subrange(0, i) =~= s);
    } else {
        let shorter = s.subrange(0, i);
        let longer = s.subrange(0, i + 1);
        assert(longer.drop_last() =~= shorter);
        assert(all_digits(shorter));
        lemma_digits_value_nonneg(shorter);
        assert(is_ascii_digit(s[i]));
        assert(digits_value(longer) == digits_value(shorter) * 10 + digit_value(s[i]));
        assert(digits_value(shorter) <= digits_value(longer));
        lemma_digits_value_prefix_bound(s, i + 1);
    }
}

/// Parses `s` as an article identifier: succeeds exactly on non-empty
/// digit strings whose value fits the identifier type.
pub fn parse_id(s: &str) -> (r: Option<u64>)
    ensures
        r == spec_parse_id(s@),
{
    let n = s.unicode_len();
    if n == 0 {
        return None;
    }
    let mut acc: u64 = 0;
    let mut i: usize = 0;
    while i < n
        invariant
            0 < n == s@.len(),
            i <= n,
            all_digits(s@.subrange(0, i as int)),
            acc as int == digits_value(s@.subrange(0, i as int)),
        decreases n - i,
    {
        let c = s.get_char(i);
        let u = c as u32;
        if u < 48 || u > 57 {
            proof {
                assert(!is_ascii_digit(s@[i as int]));
            }
            return None;
        }
        let d: u64 = (u - 48) as u64;
        proof {
            assert(s@.subrange(0, i + 1).drop_last() =~= s@.subrange(0, i as int));
            assert(s@.subrange(0, i + 1).last() == s@[i as int]);
            assert(all_digits(s@.subrange(0, i + 1)));
            assert(digits_value(s@.subrange(0, i + 1)) == acc * 10 + d);
        }
        if acc > (u64::MAX - d) / 10 {
            proof {
                assert(acc * 10 + d > u64::MAX) by {
                    let z = (u64::MAX - d) as int;
                    assert(z == (z / 10) * 10 + z % 10) by {
                        vstd::arithmetic::div_mod::lemma_fundamental_div_mod(z, 10);
                    }
                    assert(acc as int >= z / 10 + 1);
                }
                if all_digits(s@) {
                    lemma_digits_value_prefix_bound(s@, i + 1);
                    assert(digits_value(s@) > u64::MAX);
                }
            }
            return None;
        }
        acc = acc * 10 + d;
        i += 1;
    }
    proof {
        assert(s@.subrange(0, n as int) =~= s@);
    }
    Some(acc)
}

/// Do `s` and `t` hold the same characters?
fn chars_eq(s: &str, t: &str) -> (r: bool)
    ensures
        r == (s@ == t@),
{
    let n = s.unicode_len();
    let m = t.unicode_len();
    if n != m {
        return false;
    }
    let mut i: usize = 0;
    while i < n
        invariant
            i <= n,
            n == s@.len(),
            n == t@.len(),
            forall|j: int| 0 <= j < i ==> s@[j] == t@[j],
        decreases n - i,
    {
        if s.get_char(i) != t.get_char(i) {
            return false;
        }
        i += 1;
    }
    proof {
        assert(s@ =~= t@);
    }
    true
}

/// Does `s` start with the characters of `p`?
fn has_prefix(s: &str, p: &str) -> (r: bool)
    ensures
        r == p@.is_prefix_of(s@),
{
    let n = s.unicode_len();
    let m = p.unicode_len();
    if m > n {
        return false;
    }
    let mut i: usize = 0;
    while i < m
        invariant
            i <= m <= n,
            n == s@.len(),
            m == p@.len(),
            forall|j: int| 0 <= j < i ==> s@[j] == p@[j],
        decreases m - i,
    {
        if s.get_char(i) != p.get_char(i) {
            proof {
                assert(s@.subrange(0, m as int)[i as int] != p@[i as int]);
            }
            return false;
        }
        i += 1;
    }
    proof {
        assert(p@ =~= s@.subrange(0, m as int));
    }
    true
}

/// The dispatch table: which operation, if any, serves a request with
/// the given method and path.
pub open spec fn spec_route(m: Method, p: Seq<char>) -> Option<Route> {
    if p == "/"@ {
        if m is Get {
            Some(Route::Root)
        } else {
            None
        }
    } else if p == "/articles"@ {
        match m {
            Method::Get => Some(Route::ListArticles),
            Method::Post => Some(Route::CreateArticle),
            _ => None,
        }
    } else if "/articles/"@.is_prefix_of(p) {
        match spec_parse_id(p.skip(10)) {
            Some(id) => match m {
                Method::Get => Some(Route::GetArticle(id)),
                Method::Put => Some(Route::UpdateArticle(id)),
                Method::Delete => Some(Route::DeleteArticle(id)),
                _ => None,
            },
            None => None,
        }
    } else if p == "/login"@ {
        if m is Get {
            Some(Route::Login)
        } else {
            None
        }
    } else if p == "/register"@ {
        if m is Get {
            Some(Route::Register)
        } else {
            None
        }
    } else if p == "/categories"@ {
        if m is Get {
            Some(Route::ListCategories)
        } else {
            None
        }
    } else {
        None
    }
}

/// Dispatches a request: exact match on the method and path, with the
/// article identifier parsed out of the element path.
pub fn route(method: Method, path: &str) -> (r: Option<Route>)
    ensures
        r == spec_route(method, path@),
{
    proof {
        reveal_strlit("/");
        reveal_strlit("/articles");
        reveal_strlit("/articles/");
        reveal_strlit("/login");
        reveal_strlit("/register");
        reveal_strlit("/categories");
    }
    if chars_eq(path, "/") {
        match method {
            Method::Get => Some(Route::Root),
            _ => None,
        }
    } else if chars_eq(path, "/articles") {
        match method {
            Method::Get => Some(Route::ListArticles),
            Method::Post => Some(Route::CreateArticle),
            _ => None,
        }
    } else if has_prefix(path, "/articles/") {
        let n = path.unicode_len();
        let rest = path.substring_char(10, n);
        proof {
            assert(rest@ =~= path@.skip(10));
        }
        match parse_id(rest) {
            Some(id) => match method {
                Method::Get => Some(Route::GetArticle(id)),
                Method::Put => Some(Route::UpdateArticle(id)),
                Method::Delete => Some(Route::DeleteArticle(id)),
                _ => None,
            },
            None => None,
        }
    } else if chars_eq(path, "/login") {
        match method {
            Method::Get => Some(Route::Login),
            _ => None,
        }
    } else if chars_eq(path, "/register") {
        match method {
            Method::Get => Some(Route::Register),
            _ => None,
        }
    } else if chars_eq(path, "/categories") {
        match method {
            Method::Get => Some(Route::ListCategories),
            _ => None,
        }
    } else {
        None
    }
}

} // verus!
