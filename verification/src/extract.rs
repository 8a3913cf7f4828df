//! The Extractor: a pure transform from an HTML document body to an
//! optional normalized identifier string.
//!
//! An anchor qualifies when its link-target contains a fixed substring; the
//! first qualifying anchor in document order is selected, and the identifier
//! is everything after a fixed exact prefix in its link-target. The
//! substring match used for selection is deliberately looser than the exact
//! prefix match used for extraction, so a selected anchor can still yield no
//! identifier.

use vstd::prelude::*;

verus! {

/// The exact link-target prefix a selected anchor must start with for an
/// identifier to be extracted; the identifier is everything after it.
pub open spec fn wowhead_prefix() -> Seq<char> {
    "https://www.wowhead.com/talent-calc/blizzard/"@
}

/// The looser substring used to select candidate anchors: an anchor
/// qualifies when its link-target contains this text anywhere.
pub open spec fn talent_substr() -> Seq<char> {
    "wowhead.com/talent-calc/blizzard/"@
}

/// `p` is an exact prefix of `s`.
pub open spec fn has_prefix(s: Seq<char>, p: Seq<char>) -> bool {
    p.len() <= s.len() && s.subrange(0, p.len() as int) == p
}

/// `sub` occurs contiguously somewhere inside `s`.
pub open spec fn contains_substr(s: Seq<char>, sub: Seq<char>) -> bool {
    exists|i: int|
        0 <= i && i + sub.len() <= s.len() && #[trigger] s.subrange(i, i + sub.len()) == sub
}

/// The link-target of the first anchor, in document order, of the parsed
/// form of `html` whose link-target contains `talent_substr()`; `None` when
/// no anchor qualifies. What an HTML parser makes of arbitrary text is
/// beyond a short statement, so the value is named rather than defined; the
/// trusted wrapper `first_qualifying_href` ties it to the parser.
pub uninterp spec fn first_talent_href(html: Seq<char>) -> Option<Seq<char>>;

/// What extraction returns for a document: the remainder of the first
/// qualifying link-target after the exact prefix; `None` when no anchor
/// qualifies or the selected link-target does not start with the prefix.
pub open spec fn extract_spec(html: Seq<char>) -> Option<Seq<char>> {
    match first_talent_href(html) {
        Option::None => Option::None,
        Option::Some(h) => if has_prefix(h, wowhead_prefix()) {
            Option::Some(h.subrange(wowhead_prefix().len() as int, h.len() as int))
        } else {
            Option::None
        },
    }
}

/// Relies on scraper::Html::parse_document, a best-effort HTML parse that
/// accepts any text, and scraper's matching of the CSS selector
/// `a[href*='wowhead.com/talent-calc/blizzard/']`: `select(..).next()`
/// yields the first matching element in document order, and the
/// `[attr*=value]` selector form matches exactly the elements whose
/// attribute contains `value` as a substring. The fixed selector text is
/// valid, so `Selector::parse` cannot fail on it.
#[verifier::external_body]
fn first_qualifying_href(html: &str) -> (r: Option<String>)
    ensures
        r is Some <==> first_talent_href(html@) is Some,
        r matches Some(h) ==> first_talent_href(html@) == Some(h@),
        r matches Some(h) ==> contains_substr(h@, talent_substr()),
{
    let document = scraper::Html::parse_document(html);
    let selector = scraper::Selector::parse("a[href*='wowhead.com/talent-calc/blizzard/']")
        .unwrap();
    match document.select(&selector).next() {
        None => None,
        Some(element) => match element.value().attr("href") {
            None => None,
            Some(href) => Some(href.to_string()),
        },
    }
}

/// Strip the exact wowhead prefix from a link-target: `Some` of the
/// verbatim remainder when the link-target starts with the prefix (the
/// remainder may be the empty string), `None` otherwise.
pub fn strip_talent_prefix(href: &str) -> (r: Option<String>)
    ensures
        r is Some <==> has_prefix(href@, wowhead_prefix()),
        r matches Some(s) ==> s@ == href@.subrange(
            wowhead_prefix().len() as int,
            href@.len() as int,
        ),
{
    let prefix: &str = "https://www.wowhead.com/talent-calc/blizzard/";
    let plen: usize = prefix.unicode_len();
    let hlen: usize = href.unicode_len();
    if hlen < plen {
        return None;
    }
    let mut i: usize = 0;
    while i < plen
        invariant
            i <= plen,
            plen == wowhead_prefix().len(),
            hlen == href@.len(),
            plen <= hlen,
            prefix@ == wowhead_prefix(),
            forall|j: int| 0 <= j < i ==> href@[j] == wowhead_prefix()[j],
        decreases plen - i,
    {
        let hc = href.get_char(i);
        let pc = prefix.get_char(i);
        if hc != pc {
            proof {
                if has_prefix(href@, wowhead_prefix()) {
                    assert(href@.subrange(0, wowhead_prefix().len() as int)[i as int]
                        == wowhead_prefix()[i as int]);
                }
            }
            return None;
        }
        i += 1;
    }
    proof {
        assert(href@.subrange(0, wowhead_prefix().len() as int) =~= wowhead_prefix());
    }
    let rest: &str = href.substring_char(plen, hlen);
    Some(String::from_str(rest))
}

/// Extract the normalized identifier from raw HTML text: parse the text,
/// select the first anchor whose link-target contains the qualifying
/// substring, and return what follows the exact wowhead prefix in that
/// link-target. `None` when no anchor qualifies or the selected link-target
/// does not start with the prefix. A pure, single-pass, side-effect-free
/// transform: no I/O, no concurrency.
pub fn extract_talent_string(html: &str) -> (r: Option<String>)
    ensures
        r is Some <==> extract_spec(html@) is Some,
        r matches Some(s) ==> Some(s@) == extract_spec(html@),
{
    match first_qualifying_href(html) {
        None => None,
        Some(href) => strip_talent_prefix(href.as_str()),
    }
}

/// Law: a document in which no anchor qualifies yields no identifier.
pub proof fn lemma_extract_no_qualifying_anchor(html: Seq<char>)
    requires
        first_talent_href(html) is None,
    ensures
        extract_spec(html) is None,
{
}

/// Law: a document whose first qualifying link-target is exactly the
/// wowhead prefix followed by `s` yields the identifier `s` itself,
/// verbatim.
pub proof fn lemma_extract_exact_prefix(html: Seq<char>, s: Seq<char>)
    requires
        first_talent_href(html) == Some(wowhead_prefix() + s),
    ensures
        extract_spec(html) == Some(s),
{
    let h = wowhead_prefix() + s;
    assert(h.subrange(0, wowhead_prefix().len() as int) =~= wowhead_prefix());
    assert(h.subrange(wowhead_prefix().len() as int, h.len() as int) =~= s);
}

/// Law: a document whose first qualifying link-target does not start with
/// the exact wowhead prefix yields no identifier, though the substring
/// matched for selection.
pub proof fn lemma_extract_wrong_prefix(html: Seq<char>, h: Seq<char>)
    requires
        first_talent_href(html) == Some(h),
        !has_prefix(h, wowhead_prefix()),
    ensures
        extract_spec(html) is None,
{
}

} // verus!
