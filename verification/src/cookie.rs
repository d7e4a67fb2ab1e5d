//! The cookie in which the client keeps the end of the session.

use crate::session::{parse_instant, parsed_instant};
use crate::text::{decimal, push_i64};
use vstd::prelude::*;

verus! {

/// The name of the cookie.
pub open spec fn cookie_name() -> Seq<char> {
    "session_expiry"@
}

/// The cookie that makes the browser forget the session: one that ended
/// long ago.
pub open spec fn removal_cookie() -> Seq<char> {
    cookie_name() + "=0; path=/; SameSite=Strict; expires=Thu, 01 Jan 1970 00:00:00 UTC; Secure"@
}

/// Builds the cookie that makes the browser forget the session.
pub fn remove_session_cookie() -> (cookie: String)
    ensures
        cookie@ == removal_cookie(),
{
    let mut cookie = String::new();
    cookie.append("session_expiry");
    cookie.append("=0; path=/; SameSite=Strict; expires=Thu, 01 Jan 1970 00:00:00 UTC; Secure");
    assert(cookie@ =~= removal_cookie());
    cookie
}

/// The whole seconds from `now` until `expiry`, both in milliseconds. The
/// part of a second is dropped, and a span of more than `i32::MAX`
/// milliseconds in either direction counts as none.
pub open spec fn max_age(expiry: int, now: int) -> int {
    let span = expiry - now;
    if 0 <= span <= i32::MAX {
        span / 1000
    } else if i32::MIN <= span < 0 {
        -((-span) / 1000)
    } else {
        0
    }
}

/// The cookie that keeps the end of the session: its value is the text
/// `expires_at`, and the browser drops it when the session has ended.
pub open spec fn expiry_cookie(expires_at: Seq<char>, expiry: int, now: int) -> Seq<char> {
    cookie_name() + "="@ + expires_at + "; path=/; SameSite=Strict; max-age="@ + decimal(
        max_age(expiry, now),
    ) + "; Secure"@
}

/// The whole seconds from `now` until `expiry`.
pub fn seconds_left(expiry: i64, now: i64) -> (r: i32)
    ensures
        r == max_age(expiry as int, now as int),
{
    let span: i128 = expiry as i128 - now as i128;
    if 0 <= span && span <= 0x7FFF_FFFF {
        (span / 1000) as i32
    } else if -0x8000_0000 <= span && span < 0 {
        let back: i128 = -span;
        let whole: i128 = back / 1000;
        (-whole) as i32
    } else {
        0
    }
}

/// Builds the cookie that keeps the end of the session, from the text that
/// names the end and the instant that the text stands for.
pub fn session_cookie_text(expires_at: &str, expiry: i64, now: i64) -> (cookie: String)
    ensures
        cookie@ == expiry_cookie(expires_at@, expiry as int, now as int),
{
    let mut cookie = String::new();
    cookie.append("session_expiry");
    cookie.append("=");
    cookie.append(expires_at);
    cookie.append("; path=/; SameSite=Strict; max-age=");
    push_i64(&mut cookie, seconds_left(expiry, now) as i64);
    cookie.append("; Secure");
    assert(cookie@ =~= expiry_cookie(expires_at@, expiry as int, now as int));
    cookie
}

/// The cookie for a session that ends at `expires_at`, or none where that
/// text names no instant.
pub open spec fn cookie_for(expires_at: Seq<char>, now: int) -> Option<Seq<char>> {
    match parsed_instant(expires_at) {
        Some(expiry) => Some(expiry_cookie(expires_at, expiry as int, now)),
        None => None,
    }
}

/// Builds the cookie that keeps the end of the session. There is none
/// where `expires_at` is not a date and time in the format of RFC 3339.
pub fn set_session_cookie(expires_at: &str, now: i64) -> (cookie: Option<String>)
    ensures
        cookie.deep_view() == cookie_for(expires_at@, now as int),
{
    match parse_instant(expires_at) {
        Some(expiry) => Some(session_cookie_text(expires_at, expiry, now)),
        None => None,
    }
}

/// Whether `needle` stands somewhere in `text`.
pub open spec fn contains_text(text: Seq<char>, needle: Seq<char>) -> bool {
    exists|i: int| 0 <= i <= text.len() - needle.len() && #[trigger] text.subrange(
        i,
        i + needle.len(),
    ) == needle
}

/// The place after the last `mark` in `text`, or the start of `text` where
/// it holds no `mark`.
pub open spec fn after_last_mark(text: Seq<char>, mark: char) -> int
    decreases text.len(),
{
    if text.len() == 0 {
        0
    } else if text.last() == mark {
        text.len() as int
    } else {
        after_last_mark(text.drop_last(), mark)
    }
}

/// The part of `text` after its last `mark`: all of it where it holds no
/// `mark`.
pub open spec fn tail_after(text: Seq<char>, mark: char) -> Seq<char> {
    text.skip(after_last_mark(text, mark))
}

/// The place after the last mark is a place in the text, the mark stands
/// right before it, and no mark stands after it.
pub proof fn lemma_after_last_mark(text: Seq<char>, mark: char)
    ensures
        0 <= after_last_mark(text, mark) <= text.len(),
        after_last_mark(text, mark) > 0 ==> text[after_last_mark(text, mark) - 1] == mark,
        forall|j: int| after_last_mark(text, mark) <= j < text.len() ==> text[j] != mark,
    decreases text.len(),
{
    if text.len() > 0 && text.last() != mark {
        lemma_after_last_mark(text.drop_last(), mark);
        assert forall|j: int| after_last_mark(text, mark) <= j < text.len() implies text[j]
            != mark by {
            if j < text.len() - 1 {
                assert(text[j] == text.drop_last()[j]);
            }
        }
    }
}

fn chars_of(text: &str) -> (list: Vec<char>)
    ensures
        list@ == text@,
{
    let n = text.unicode_len();
    let mut list: Vec<char> = Vec::new();
    let mut i: usize = 0;
    while i < n
        invariant
            n == text@.len(),
            i <= n,
            list@ == text@.take(i as int),
        decreases n - i,
    {
        list.push(text.get_char(i));
        assert(list@ =~= text@.take(i as int + 1));
        i = i + 1;
    }
    assert(text@.take(n as int) =~= text@);
    list
}

fn stands_at(text: &Vec<char>, needle: &Vec<char>, at: usize) -> (r: bool)
    requires
        at + needle.len() <= text.len(),
    ensures
        r == (text@.subrange(at as int, at + needle.len()) == needle@),
{
    let mut j: usize = 0;
    while j < needle.len()
        invariant
            at + needle.len() <= text.len(),
            j <= needle.len(),
            forall|k: int| 0 <= k < j ==> text@[at + k] == needle@[k],
        decreases needle.len() - j,
    {
        if text[at + j] != needle[j] {
            assert(text@.subrange(at as int, at + needle.len())[j as int] != needle@[j as int]);
            return false;
        }
        j = j + 1;
    }
    assert(text@.subrange(at as int, at + needle.len()) =~= needle@);
    true
}

/// Whether `needle` stands somewhere in `text`.
pub fn text_contains(text: &str, needle: &str) -> (r: bool)
    ensures
        r == contains_text(text@, needle@),
{
    let hay = chars_of(text);
    let pin = chars_of(needle);
    if pin.len() == 0 {
        assert(text@.subrange(0int, 0int + needle@.len()) =~= needle@);
        return true;
    }
    if pin.len() > hay.len() {
        return false;
    }
    let last = hay.len() - pin.len();
    let mut i: usize = 0;
    while i <= last
        invariant
            0 < pin.len() <= hay.len(),
            last == hay.len() - pin.len(),
            i <= last + 1,
            hay@ == text@,
            pin@ == needle@,
            forall|k: int| 0 <= k < i ==> #[trigger] hay@.subrange(k, k + pin.len()) != pin@,
        decreases last + 1 - i,
    {
        if stands_at(&hay, &pin, i) {
            return true;
        }
        i = i + 1;
    }
    false
}

/// The part of `text` after its last `mark`.
pub fn text_after_last<'a>(text: &'a str, mark: char) -> (tail: &'a str)
    ensures
        tail@ == tail_after(text@, mark),
{
    let chars = chars_of(text);
    let mut i: usize = chars.len();
    assert(text@.take(i as int) =~= text@);
    while i > 0 && chars[i - 1] != mark
        invariant
            i <= chars.len(),
            chars@ == text@,
            after_last_mark(text@, mark) == after_last_mark(text@.take(i as int), mark),
        decreases i,
    {
        proof {
            assert(text@.take(i as int).drop_last() =~= text@.take(i as int - 1));
        }
        i = i - 1;
    }
    proof {
        assert(text@.take(chars.len() as int) =~= text@);
        if i > 0 {
            assert(text@.take(i as int).last() == mark);
        }
        assert(after_last_mark(text@, mark) == i);
    }
    text.substring_char(i, chars.len())
}

/// Whether the cookies of the page say that the session lasts beyond
/// `now`, where `expiry` is the instant that the text after the last `=`
/// of the cookies names. They say so where they hold the name of the
/// session's cookie and that instant is later than `now`.
pub open spec fn cookie_valid_until(cookies: Seq<char>, expiry: Option<i64>, now: int) -> bool {
    &&& contains_text(cookies, cookie_name())
    &&& expiry matches Some(e)
    &&& now < e
}

/// Whether the cookies of the page say that the session lasts beyond
/// `now`.
pub open spec fn cookie_valid(cookies: Seq<char>, now: int) -> bool {
    cookie_valid_until(cookies, parsed_instant(tail_after(cookies, '=')), now)
}

/// Whether the cookies say that the session lasts beyond `now`, from the
/// instant that their last value names.
pub fn cookie_valid_at(cookies: &str, expiry: Option<i64>, now: i64) -> (r: bool)
    ensures
        r == cookie_valid_until(cookies@, expiry, now as int),
{
    if !text_contains(cookies, "session_expiry") {
        return false;
    }
    match expiry {
        Some(e) => now < e,
        None => false,
    }
}

/// Whether the cookies of the page, as the browser hands them out in one
/// text, say that the session lasts beyond `now`.
pub fn session_cookie_valid(cookies: &str, now: i64) -> (r: bool)
    ensures
        r == cookie_valid(cookies@, now as int),
{
    let expiry = parse_instant(text_after_last(cookies, '='));
    cookie_valid_at(cookies, expiry, now)
}

} // verus!
