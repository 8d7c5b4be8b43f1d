//! Docstring extraction: the leading string-literal statement of a body,
//! whitespace/quote cleaning, and the split into a summary and the
//! description that follows the first blank line.

use vstd::prelude::*;
use vstd::string::*;

use crate::ast::{Expr, Stmt, TopStmt};

verus! {

/// The whitespace characters the docstring cleaner strips: ASCII space,
/// tab, newline, carriage return, vertical tab and form feed.
pub open spec fn is_doc_space(c: char) -> bool {
    c == ' ' || c == '\t' || c == '\n' || c == '\r' || c == '\x0b' || c == '\x0c'
}

/// What a trim pass strips: a specific character, or (with `None`)
/// whitespace.
pub open spec fn trim_pred(q: Option<char>, c: char) -> bool {
    match q {
        Option::Some(x) => c == x,
        Option::None => is_doc_space(c),
    }
}

/// First index at or after `i` whose character is not stripped; the length
/// when every remaining character is stripped.
pub open spec fn trim_start_idx(s: Seq<char>, q: Option<char>, i: int) -> int
    decreases s.len() - i,
{
    if i < 0 || i >= s.len() {
        s.len() as int
    } else if trim_pred(q, s[i]) {
        trim_start_idx(s, q, i + 1)
    } else {
        i
    }
}

/// Scanning left from `e`, the end (exclusive) of the last non-stripped
/// character, but never below `low`.
pub open spec fn trim_end_idx(s: Seq<char>, q: Option<char>, e: int, low: int) -> int
    decreases e - low,
{
    if e <= low {
        low
    } else if trim_pred(q, s[e - 1]) {
        trim_end_idx(s, q, e - 1, low)
    } else {
        e
    }
}

/// `s` with every leading and trailing stripped character removed.
pub open spec fn trim_spec(s: Seq<char>, q: Option<char>) -> Seq<char> {
    let a = trim_start_idx(s, q, 0);
    let b = trim_end_idx(s, q, s.len() as int, a);
    s.subrange(a, b)
}

/// A docstring cleaned the way the renderer shows it: surrounding
/// whitespace removed, then surrounding double quotes, then surrounding
/// single quotes.
pub open spec fn clean_doc_spec(s: Seq<char>) -> Seq<char> {
    trim_spec(trim_spec(trim_spec(s, Option::None), Option::Some('"')), Option::Some('\''))
}

/// Index of the first blank-line separator (two consecutive newlines) at or
/// after `i`, or `-1` when there is none.
pub open spec fn doc_find_blank(s: Seq<char>, i: int) -> int
    decreases s.len() - i,
{
    if i < 0 || i + 2 > s.len() {
        -1
    } else if s[i] == '\n' && s[i + 1] == '\n' {
        i
    } else {
        doc_find_blank(s, i + 1)
    }
}

/// The summary half of a docstring: everything before the first blank-line
/// separator, or the whole text when there is none.
pub open spec fn doc_summary_spec(s: Seq<char>) -> Seq<char> {
    let k = doc_find_blank(s, 0);
    if k < 0 {
        s
    } else {
        s.subrange(0, k)
    }
}

/// The description half of a docstring: everything after the first
/// blank-line separator, or empty when there is none.
pub open spec fn doc_description_spec(s: Seq<char>) -> Seq<char> {
    let k = doc_find_blank(s, 0);
    if k < 0 {
        Seq::<char>::empty()
    } else {
        s.subrange(k + 2, s.len() as int)
    }
}

/// The docstring of a statement body: the text of its first statement when
/// that is a bare string-literal expression.
pub open spec fn body_docstring(body: Seq<Stmt>) -> Option<Seq<char>> {
    if body.len() > 0 && (body[0] matches Stmt::ExprStmt {
        value: Expr::StrLit { value: _, dump: _ },
    }) {
        match body[0] {
            Stmt::ExprStmt { value: Expr::StrLit { value, dump: _ } } => Option::Some(value@),
            _ => Option::None,
        }
    } else {
        Option::None
    }
}

/// The docstring of a module or class body, read the same way from its
/// first top-level statement.
pub open spec fn tops_docstring(body: Seq<TopStmt>) -> Option<Seq<char>> {
    if body.len() > 0 && (body[0] matches TopStmt::Simple(Stmt::ExprStmt {
        value: Expr::StrLit { value: _, dump: _ },
    })) {
        match body[0] {
            TopStmt::Simple(
                Stmt::ExprStmt { value: Expr::StrLit { value, dump: _ } },
            ) => Option::Some(value@),
            _ => Option::None,
        }
    } else {
        Option::None
    }
}

/// Whether `c` is one of the whitespace characters a trim pass strips.
pub fn is_space_char(c: char) -> (res: bool)
    ensures
        res == is_doc_space(c),
{
    c == ' ' || c == '\t' || c == '\n' || c == '\r' || c == '\x0b' || c == '\x0c'
}

fn trim_matches_here(q: &Option<char>, c: char) -> (res: bool)
    ensures
        res == trim_pred(*q, c),
{
    match q {
        Option::Some(x) => c == *x,
        Option::None => is_space_char(c),
    }
}

/// Removes every leading and trailing stripped character: whitespace when
/// `q` is `None`, the character `q` holds otherwise.
pub fn trim_by(s: &str, q: Option<char>) -> (res: String)
    ensures
        res@ == trim_spec(s@, q),
{
    let n = s.unicode_len();
    let mut a: usize = 0;
    while a < n && trim_matches_here(&q, s.get_char(a))
        invariant
            n == s@.len(),
            a <= n,
            trim_start_idx(s@, q, 0) == trim_start_idx(s@, q, a as int),
        decreases n - a,
    {
        a = a + 1;
    }
    let mut b: usize = n;
    while b > a && trim_matches_here(&q, s.get_char(b - 1))
        invariant
            n == s@.len(),
            a <= b <= n,
            trim_start_idx(s@, q, 0) == a as int,
            trim_end_idx(s@, q, n as int, a as int) == trim_end_idx(s@, q, b as int, a as int),
        decreases b,
    {
        b = b - 1;
    }
    let piece = s.substring_char(a, b);
    String::from_str(piece)
}

/// Cleans a docstring for display: trims whitespace, then surrounding
/// double quotes, then surrounding single quotes.
pub fn clean_docstring(s: &str) -> (res: String)
    ensures
        res@ == clean_doc_spec(s@),
{
    let t1 = trim_by(s, Option::None);
    let t2 = trim_by(t1.as_str(), Option::Some('"'));
    trim_by(t2.as_str(), Option::Some('\''))
}

fn find_blank_line(s: &str) -> (res: Option<usize>)
    ensures
        match res {
            Option::Some(k) => doc_find_blank(s@, 0) == k as int && k + 2 <= s@.len(),
            Option::None => doc_find_blank(s@, 0) == -1,
        },
{
    let n = s.unicode_len();
    let mut i: usize = 0;
    while i < n && i + 1 < n
        invariant
            n == s@.len(),
            i <= n,
            doc_find_blank(s@, 0) == doc_find_blank(s@, i as int),
        decreases n - i,
    {
        if s.get_char(i) == '\n' && s.get_char(i + 1) == '\n' {
            return Option::Some(i);
        }
        i = i + 1;
    }
    Option::None
}

/// The summary half: the docstring up to the first blank line.
pub fn doc_summary(s: &str) -> (res: String)
    ensures
        res@ == doc_summary_spec(s@),
{
    match find_blank_line(s) {
        Option::Some(k) => {
            let piece = s.substring_char(0, k);
            String::from_str(piece)
        },
        Option::None => String::from_str(s),
    }
}

/// The description half: the docstring after the first blank line, or
/// empty when it has none.
pub fn doc_description(s: &str) -> (res: String)
    ensures
        res@ == doc_description_spec(s@),
{
    match find_blank_line(s) {
        Option::Some(k) => {
            let n = s.unicode_len();
            let piece = s.substring_char(k + 2, n);
            String::from_str(piece)
        },
        Option::None => String::new(),
    }
}

/// The docstring of a function body, when its first statement is a bare
/// string literal.
pub fn first_docstring(body: &Vec<Stmt>) -> (res: Option<String>)
    ensures
        match res {
            Option::Some(d) => body_docstring(body@) == Option::Some(d@),
            Option::None => body_docstring(body@) is None,
        },
{
    if body.len() > 0 {
        if let Stmt::ExprStmt { value: Expr::StrLit { value, dump: _ } } = &body[0] {
            return Option::Some(value.clone());
        }
    }
    Option::None
}

/// The docstring of a module or class body, when its first statement is a
/// bare string literal.
pub fn first_top_docstring(body: &Vec<TopStmt>) -> (res: Option<String>)
    ensures
        match res {
            Option::Some(d) => tops_docstring(body@) == Option::Some(d@),
            Option::None => tops_docstring(body@) is None,
        },
{
    if body.len() > 0 {
        if let TopStmt::Simple(Stmt::ExprStmt { value: Expr::StrLit { value, dump: _ } }) = &body[0] {
            return Option::Some(value.clone());
        }
    }
    Option::None
}

} // verus!
