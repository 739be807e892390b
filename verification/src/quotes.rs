//! Quotes shown on the break screen: a built-in list chosen by the date, or
//! one fetched online and kept for a day.

use crate::clock::{hours_since_rfc3339, is_date_text, now_rfc3339, rfc3339_accepts, today_string};
use vstd::prelude::*;
use vstd::string::StringSliceAdditionalSpecFns;

verus! {

/// A quote with where it came from.
#[derive(Debug)]
pub struct Quote {
    pub text: String,
    pub author: Option<String>,
    /// `local` for the built-in list, `online` for a fetched one.
    pub source: String,
    /// When an online quote was fetched, as an RFC 3339 timestamp.
    pub fetched_at: Option<String>,
}

/// The mathematical content of [`Quote`].
pub struct QuoteView {
    pub text: Seq<char>,
    pub author: Option<Seq<char>>,
    pub source: Seq<char>,
    pub fetched_at: Option<Seq<char>>,
}

/// The view of an optional text.
pub open spec fn opt_text(o: Option<String>) -> Option<Seq<char>> {
    match o {
        Some(s) => Some(s@),
        None => None,
    }
}

impl View for Quote {
    type V = QuoteView;

    open spec fn view(&self) -> QuoteView {
        QuoteView {
            text: self.text@,
            author: opt_text(self.author),
            source: self.source@,
            fetched_at: opt_text(self.fetched_at),
        }
    }
}

/// A copy of an optional text.
pub fn clone_opt_text(o: &Option<String>) -> (r: Option<String>)
    ensures
        opt_text(r) == opt_text(*o),
{
    match o {
        Some(s) => Some(s.clone()),
        None => None,
    }
}

impl Clone for Quote {
    fn clone(&self) -> (r: Quote)
        ensures
            r@ == self@,
    {
        Quote {
            text: self.text.clone(),
            author: clone_opt_text(&self.author),
            source: self.source.clone(),
            fetched_at: clone_opt_text(&self.fetched_at),
        }
    }
}

/// The view of an optional quote.
pub open spec fn opt_quote(o: Option<Quote>) -> Option<QuoteView> {
    match o {
        Some(q) => Some(q@),
        None => None,
    }
}

/// The built-in quotes, each with its author, in order.
pub open spec fn local_quote_table() -> Seq<(Seq<char>, Seq<char>)> {
    seq![
        ("先完成最重要的一件事，剩下的噪音会自己退后。"@, "Focus Lock"@),
        ("专注不是压榨自己，而是替注意力清场。"@, "Focus Lock"@),
        ("屏幕之外的几分钟休息，会换回来更长的稳定输出。"@, "Focus Lock"@),
        ("不要把休息当中断，它是下一段专注的准备动作。"@, "Focus Lock"@),
        ("今天真正重要的事情，通常不会超过三件。"@, "Focus Lock"@),
        ("把目光从像素里拔出来，身体才会跟上你的节奏。"@, "Focus Lock"@),
        ("好的节奏不是一直冲刺，而是知道什么时候停下来。"@, "Focus Lock"@),
    ]
}

/// The view of a list of text pairs.
pub open spec fn pairs_view(s: Seq<(&str, &str)>) -> Seq<(Seq<char>, Seq<char>)> {
    s.map_values(|p: (&str, &str)| (p.0@, p.1@))
}

/// The built-in quotes, each with its author.
pub fn local_quotes() -> (r: &'static [(&'static str, &'static str)])
    ensures
        pairs_view(r@) == local_quote_table(),
{
    let quotes: &'static [(&'static str, &'static str)] = &[
        ("先完成最重要的一件事，剩下的噪音会自己退后。", "Focus Lock"),
        ("专注不是压榨自己，而是替注意力清场。", "Focus Lock"),
        ("屏幕之外的几分钟休息，会换回来更长的稳定输出。", "Focus Lock"),
        ("不要把休息当中断，它是下一段专注的准备动作。", "Focus Lock"),
        ("今天真正重要的事情，通常不会超过三件。", "Focus Lock"),
        ("把目光从像素里拔出来，身体才会跟上你的节奏。", "Focus Lock"),
        ("好的节奏不是一直冲刺，而是知道什么时候停下来。", "Focus Lock"),
    ];
    assert(pairs_view(quotes@) =~= local_quote_table());
    quotes
}


/// The number of built-in quotes.
pub open spec fn local_quote_count() -> nat {
    local_quote_table().len()
}

/// The built-in quote that `seed` selects: entry `seed % 7` of the list,
/// marked `local`, with no fetch time.
pub open spec fn local_quote_view(seed: nat) -> QuoteView {
    let entry = local_quote_table()[(seed % local_quote_count()) as int];
    QuoteView { text: entry.0, author: Some(entry.1), source: "local"@, fetched_at: None }
}

/// The built-in quote that `seed` selects.
pub fn local_quote_for_seed(seed: usize) -> (r: Quote)
    ensures
        r@ == local_quote_view(seed as nat),
{
    let quotes = local_quotes();
    assert(quotes@.len() == local_quote_count());
    let (text, author) = quotes[seed % quotes.len()];
    Quote {
        text: String::from_str(text),
        author: Some(String::from_str(author)),
        source: String::from_str("local"),
        fetched_at: None,
    }
}

/// Seeds that differ by a multiple of the list's length pick the same quote.
pub proof fn lemma_local_quote_period(seed: nat, k: nat)
    ensures
        local_quote_view(seed + k * local_quote_count()) == local_quote_view(seed),
{
    assert(local_quote_count() == 7);
    assert((seed + k * 7) % 7 == seed % 7) by (nonlinear_arith);
}

/// The seed of a text: its UTF-8 bytes folded from the left, starting at 0,
/// each step multiplying by 31 and adding the byte, both wrapping at the
/// width of `usize`.
pub open spec fn text_seed(bytes: Seq<u8>) -> usize
    decreases bytes.len(),
{
    if bytes.len() == 0 {
        0
    } else {
        text_seed(bytes.drop_last()).wrapping_mul(31).wrapping_add(bytes.last() as usize)
    }
}

/// The seed of a text (see [`text_seed`]).
pub fn seed_from_text(text: &str) -> (r: usize)
    ensures
        r == text_seed(text.spec_bytes()),
{
    let bytes = text.as_bytes();
    let mut acc: usize = 0;
    let mut i: usize = 0;
    while i < bytes.len()
        invariant
            i <= bytes@.len(),
            bytes@ == text.spec_bytes(),
            acc == text_seed(bytes@.take(i as int)),
        decreases bytes@.len() - i,
    {
        assert(bytes@.take(i as int + 1).drop_last() == bytes@.take(i as int));
        acc = acc.wrapping_mul(31).wrapping_add(bytes[i] as usize);
        i = i + 1;
    }
    assert(bytes@.take(i as int) == bytes@);
    acc
}

/// The built-in quote of the day written `day`: the one that the seed of
/// the date's UTF-8 bytes selects.
pub open spec fn day_quote_view(day: Seq<char>) -> QuoteView {
    local_quote_view(text_seed(vstd::utf8::encode_utf8(day)) as nat)
}

/// The built-in quote of the day written `day`.
pub fn quote_of_day(day: &str) -> (r: Quote)
    ensures
        r@ == day_quote_view(day@),
{
    local_quote_for_seed(seed_from_text(day))
}

/// The built-in quotes differ from one another: seeds that differ modulo the
/// list's length give quotes with different texts.
pub proof fn lemma_local_quotes_differ(a: nat, b: nat)
    requires
        a % local_quote_count() != b % local_quote_count(),
    ensures
        local_quote_view(a).text != local_quote_view(b).text,
{
    reveal_strlit("先完成最重要的一件事，剩下的噪音会自己退后。");
    reveal_strlit("专注不是压榨自己，而是替注意力清场。");
    reveal_strlit("屏幕之外的几分钟休息，会换回来更长的稳定输出。");
    reveal_strlit("不要把休息当中断，它是下一段专注的准备动作。");
    reveal_strlit("今天真正重要的事情，通常不会超过三件。");
    reveal_strlit("把目光从像素里拔出来，身体才会跟上你的节奏。");
    reveal_strlit("好的节奏不是一直冲刺，而是知道什么时候停下来。");
    let t = local_quote_table();
    assert(t.len() == 7);
    let i = (a % 7) as int;
    let j = (b % 7) as int;
    assert(t[0].0[0] == '先');
    assert(t[1].0[0] == '专');
    assert(t[2].0[0] == '屏');
    assert(t[3].0[0] == '不');
    assert(t[4].0[0] == '今');
    assert(t[5].0[0] == '把');
    assert(t[6].0[0] == '好');
    assert(t[i].0[0] != t[j].0[0]);
}

/// The quote of the day follows the date: two days whose seeds differ modulo
/// the list's length are shown different quotes.
pub proof fn lemma_day_quotes_follow_date(a: Seq<char>, b: Seq<char>)
    requires
        text_seed(vstd::utf8::encode_utf8(a)) as nat % local_quote_count() != text_seed(
            vstd::utf8::encode_utf8(b),
        ) as nat % local_quote_count(),
    ensures
        day_quote_view(a).text != day_quote_view(b).text,
{
    lemma_local_quotes_differ(
        text_seed(vstd::utf8::encode_utf8(a)) as nat,
        text_seed(vstd::utf8::encode_utf8(b)) as nat,
    );
}

/// The seed of today's date, which picks the day's built-in quote: the seed
/// of a text in the form of a date. Which date comes from the clock.
pub fn local_quote_seed() -> (r: usize)
    ensures
        exists|day: Seq<char>| is_date_text(day) && r == text_seed(vstd::utf8::encode_utf8(day)),
{
    let today = today_string();
    let r = seed_from_text(today.as_str());
    assert(is_date_text(today@) && r == text_seed(vstd::utf8::encode_utf8(today@)));
    r
}

/// The body of a reply of the online quote service.
#[derive(Debug)]
pub struct HitokotoResponse {
    pub hitokoto: String,
    pub from: Option<String>,
    pub from_who: Option<String>,
}

/// The quote that a reply of the online service gives, fetched at `fetched_at`:
/// its text, the person quoted or else the work, marked `online`.
pub open spec fn online_quote_view(
    hitokoto: Seq<char>,
    from: Option<Seq<char>>,
    from_who: Option<Seq<char>>,
    fetched_at: Seq<char>,
) -> QuoteView {
    QuoteView {
        text: hitokoto,
        author: if from_who is Some { from_who } else { from },
        source: "online"@,
        fetched_at: Some(fetched_at),
    }
}

/// The quote that a reply of the online service gives, stamped `fetched_at`.
pub fn quote_from_response(payload: HitokotoResponse, fetched_at: String) -> (r: Quote)
    ensures
        r@ == online_quote_view(
            payload.hitokoto@,
            opt_text(payload.from),
            opt_text(payload.from_who),
            fetched_at@,
        ),
{
    let author = match payload.from_who {
        Some(who) => Some(who),
        None => payload.from,
    };
    Quote {
        text: payload.hitokoto,
        author,
        source: String::from_str("online"),
        fetched_at: Some(fetched_at),
    }
}

/// The quote that a reply of the online service gives, stamped with the
/// current time.
pub fn online_quote(payload: HitokotoResponse) -> (r: Quote)
    ensures
        exists|stamp: Seq<char>|
            r@ == online_quote_view(
                payload.hitokoto@,
                opt_text(payload.from),
                opt_text(payload.from_who),
                stamp,
            ),
{
    let stamp = now_rfc3339();
    quote_from_response(payload, stamp)
}

/// How many hours a cached quote may be used before a new one is fetched.
pub const QUOTE_CACHE_HOURS: i64 = 24;

/// Whether a new quote is to be fetched, given the setting and the age in
/// whole hours of the cached quote (`None` when there is no cache, no fetch
/// time or an unreadable one): when online quotes are on and the cache is
/// missing or at least a day old.
pub fn fetch_decision(enable_online_quote: bool, cache_age_hours: Option<i64>) -> (r: bool)
    ensures
        r == (enable_online_quote && !(cache_age_hours matches Some(h) && h < QUOTE_CACHE_HOURS)),
{
    if !enable_online_quote {
        false
    } else {
        let fresh = match cache_age_hours {
            Some(hours) => hours < QUOTE_CACHE_HOURS,
            None => false,
        };
        !fresh
    }
}

/// Whether the cached quote carries a fetch time that reads as RFC 3339.
pub open spec fn cache_has_readable_stamp(cache: Option<QuoteView>) -> bool {
    cache matches Some(q) && q.fetched_at matches Some(stamp) && rfc3339_accepts(stamp)
}

/// The age in whole hours of the cached quote; `None` exactly when there is
/// no cache, no fetch time or one that does not read as RFC 3339.
pub fn quote_cache_age_hours(cache: &Option<Quote>) -> (r: Option<i64>)
    ensures
        r is Some <==> cache_has_readable_stamp(opt_quote(*cache)),
{
    match cache {
        Some(q) => match &q.fetched_at {
            Some(stamp) => hours_since_rfc3339(stamp.as_str()),
            None => None,
        },
        None => None,
    }
}

/// Whether a new quote is to be fetched: never with online quotes off;
/// always with them on and no cache that carries a readable fetch time; else
/// when the cache is a day old, which the clock decides.
pub fn should_fetch_online_quote(enable_online_quote: bool, cache: &Option<Quote>) -> (r: bool)
    ensures
        r ==> enable_online_quote,
        enable_online_quote && !cache_has_readable_stamp(opt_quote(*cache)) ==> r,
{
    if !enable_online_quote {
        return false;
    }
    let age = quote_cache_age_hours(cache);
    fetch_decision(true, age)
}

} // verus!
