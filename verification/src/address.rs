//! Decides what a typed address means: a full URL, a local host, a bare
//! domain or a search phrase.

use vstd::prelude::*;
use vstd::string::StringExecFns;
use crate::encoding::{percent_encode, percent_encoded_text};
use crate::text::{
    chars_of, has_prefix, has_prefix_ignore_case, is_whitespace, lower_code, same_text,
    starts_with, starts_with_ignore_case, trim_start, trim_str, trimmed, trimmed_is_identity,
    trimmed_keeps,
};

verus! {

/// Address of the built-in page shown in a fresh tab.
pub const NEW_TAB_URL: &'static str = "minimalist://newtab";

/// Title of a tab that shows the new-tab page.
pub const NEW_TAB_TITLE: &'static str = "New Tab";

/// Prefix of the private scheme that serves the built-in pages.
pub const PRIVATE_SCHEME: &'static str = "minimalist://";

/// Search URL up to and including the name of the query parameter.
pub const SEARCH_PREFIX: &'static str = "https://www.google.com/search?q=";

/// The text already names a scheme that is passed through unchanged.
pub open spec fn has_url_scheme(s: Seq<char>) -> bool {
    ||| has_prefix_ignore_case(s, "http://"@)
    ||| has_prefix_ignore_case(s, "https://"@)
    ||| has_prefix_ignore_case(s, "file://"@)
    ||| has_prefix_ignore_case(s, PRIVATE_SCHEME@)
}

/// The text names this machine.
pub open spec fn is_local_host(s: Seq<char>) -> bool {
    has_prefix(s, "localhost"@) || has_prefix(s, "127.0.0.1"@)
}

/// An ASCII letter or digit, or one of `.`, `-`, `:`, `/`.
pub open spec fn is_domain_char(c: char) -> bool {
    let n: u32 = c as u32;
    ||| 0x30 <= n <= 0x39
    ||| 0x41 <= n <= 0x5A
    ||| 0x61 <= n <= 0x7A
    ||| c == '.'
    ||| c == '-'
    ||| c == ':'
    ||| c == '/'
}

/// The text has a dot and is made of domain characters only.
pub open spec fn is_domain_like(s: Seq<char>) -> bool {
    s.contains('.') && forall|i: int| 0 <= i < s.len() ==> is_domain_char(s[i])
}

/// The search URL for a phrase.
pub open spec fn search_url(phrase: Seq<char>) -> Seq<char> {
    SEARCH_PREFIX@ + percent_encoded_text(phrase)
}

/// Navigation target and address-bar text for a typed input. The rules are
/// tried in order and the first that applies decides.
pub open spec fn classify_spec(input: Seq<char>) -> (Seq<char>, Seq<char>) {
    let t = trimmed(input);
    if t.len() == 0 {
        (NEW_TAB_URL@, NEW_TAB_URL@)
    } else if has_url_scheme(t) {
        (t, t)
    } else if is_local_host(t) {
        ("http://"@ + t, t)
    } else if is_domain_like(t) {
        ("https://"@ + t, t)
    } else {
        (search_url(t), search_url(t))
    }
}

/// Computes `is_domain_char`.
pub fn domain_char(c: char) -> (r: bool)
    ensures
        r == is_domain_char(c),
{
    let n: u32 = c as u32;
    (0x30 <= n && n <= 0x39) || (0x41 <= n && n <= 0x5A) || (0x61 <= n && n <= 0x7A) || c == '.'
        || c == '-' || c == ':' || c == '/'
}

/// Whether the characters have a dot and are all domain characters.
pub fn domain_like(s: &Vec<char>) -> (r: bool)
    ensures
        r == is_domain_like(s@),
{
    let mut dot: bool = false;
    let mut i: usize = 0;
    while i < s.len()
        invariant
            i <= s.len(),
            dot == s@.take(i as int).contains('.'),
            forall|j: int| 0 <= j < i ==> is_domain_char(s@[j]),
        decreases s.len() - i,
    {
        let c = s[i];
        if !domain_char(c) {
            return false;
        }
        proof {
            let before = s@.take(i as int);
            let after = s@.take(i + 1);
            assert(after =~= before.push(c));
            if before.contains('.') {
                let k = choose|k: int| 0 <= k < before.len() && before[k] == '.';
                assert(after[k] == '.');
            }
            if c == '.' {
                assert(after[i as int] == '.');
            }
        }
        if c == '.' {
            dot = true;
        }
        i += 1;
    }
    assert(s@.take(s.len() as int) =~= s@);
    dot
}

/// Whether the text passes through unchanged because it names a scheme.
pub fn url_scheme(s: &Vec<char>) -> (r: bool)
    ensures
        r == has_url_scheme(s@),
{
    starts_with_ignore_case(s, "http://") || starts_with_ignore_case(s, "https://")
        || starts_with_ignore_case(s, "file://") || starts_with_ignore_case(s, PRIVATE_SCHEME)
}

/// Classifies a typed address. Never fails: every input gets a target.
pub fn classify(input: &str) -> (r: (String, String))
    ensures
        (r.0@, r.1@) == classify_spec(input@),
{
    let t = trim_str(input);
    let chars = chars_of(t);
    if chars.len() == 0 {
        return (String::from_str(NEW_TAB_URL), String::from_str(NEW_TAB_URL));
    }
    if url_scheme(&chars) {
        return (String::from_str(t), String::from_str(t));
    }
    if starts_with(&chars, "localhost") || starts_with(&chars, "127.0.0.1") {
        let mut target = String::from_str("http://");
        target.append(t);
        return (target, String::from_str(t));
    }
    if domain_like(&chars) {
        let mut target = String::from_str("https://");
        target.append(t);
        return (target, String::from_str(t));
    }
    let encoded = percent_encode(t);
    let mut target = String::from_str(SEARCH_PREFIX);
    target.append(encoded.as_str());
    let display = target.clone();
    (target, display)
}

/// The host that `url::Url::parse` finds in a text, as `Url::host_str` gives
/// it; `None` where the text does not parse or the URL has no host.
pub uninterp spec fn url_host(url: Seq<char>) -> Option<Seq<char>>;

/// The title of a tab with the navigation target `target` and the
/// address-bar text `display`, given the host found in the target: the
/// new-tab title for the new-tab address, else the host, else the
/// address-bar text.
pub open spec fn tab_title_spec(
    target: Seq<char>,
    display: Seq<char>,
    host: Option<Seq<char>>,
) -> Seq<char> {
    if target == NEW_TAB_URL@ {
        NEW_TAB_TITLE@
    } else {
        match host {
            Some(h) => h,
            None => display,
        }
    }
}

/// The title of a tab that shows `url`, given the host found in it: the
/// title of a tab whose target and address-bar text are both `url`.
pub open spec fn title_spec(url: Seq<char>, host: Option<Seq<char>>) -> Seq<char> {
    tab_title_spec(url, url, host)
}

/// The views of an optional text.
pub open spec fn opt_view(s: Option<String>) -> Option<Seq<char>> {
    match s {
        Some(h) => Some(h@),
        None => None,
    }
}

/// Calls `url::Url::parse` and, on success, `Url::host_str`. Both depend on
/// the text alone; the contract names the outcome `url_host` and claims
/// nothing more of it.
#[verifier::external_body]
pub(crate) fn parse_host(url: &str) -> (r: Option<String>)
    ensures
        opt_view(r) == url_host(url@),
{
    match url::Url::parse(url) {
        Ok(parsed) => match parsed.host_str() {
            Some(h) => Some(h.to_string()),
            None => None,
        },
        Err(_) => None,
    }
}

/// The title of a tab once the host of its target is known: the new-tab
/// title for the new-tab address, else the host, else the address-bar text.
pub fn tab_title(target: &str, display: &str, host: Option<String>) -> (r: String)
    ensures
        r@ == tab_title_spec(target@, display@, opt_view(host)),
{
    if same_text(target, NEW_TAB_URL) {
        return String::from_str(NEW_TAB_TITLE);
    }
    match host {
        Some(h) => h,
        None => String::from_str(display),
    }
}

/// The title for `url` once its host is known: the new-tab title for the
/// new-tab address, else the host, else the text itself.
pub fn title_for(url: &str, host: Option<String>) -> (r: String)
    ensures
        r@ == title_spec(url@, opt_view(host)),
{
    tab_title(url, url, host)
}

/// The title of a tab that shows `url`.
pub fn get_title_from_url(url: &str) -> (r: String)
    ensures
        r@ == title_spec(url@, url_host(url@)),
{
    let host = parse_host(url);
    title_for(url, host)
}

/// No domain character is whitespace.
pub proof fn domain_char_is_not_whitespace(c: char)
    requires
        is_domain_char(c),
    ensures
        !is_whitespace(c),
{
}

/// A prefix that begins and ends with a character that no letter case turns
/// into whitespace is still a prefix after trimming.
proof fn prefix_survives_trim(s: Seq<char>, p: Seq<char>)
    requires
        has_prefix_ignore_case(s, p),
        p.len() > 0,
        lower_code(p[0]) > 0x20,
        lower_code(p[0]) < 0x80,
        lower_code(p.last()) > 0x20,
        lower_code(p.last()) < 0x80,
    ensures
        has_prefix_ignore_case(trimmed(s), p),
        trimmed(s).len() > 0,
{
    let n = p.len() as int;
    assert(lower_code(s[0]) == lower_code(p[0]));
    assert(lower_code(s[n - 1]) == lower_code(p[n - 1]));
    trimmed_keeps(s, n);
    let t = trimmed(s);
    assert forall|i: int| 0 <= i < p.len() implies lower_code(t[i]) == lower_code(p[i]) by {
        assert(t[i] == s.take(t.len() as int)[i]);
    }
}

/// An input that begins with `http://`, `https://`, `file://` or the
/// private scheme, in any letter case, is passed through: target and
/// address-bar text are both the trimmed input.
pub proof fn scheme_passes_through(input: Seq<char>)
    requires
        has_url_scheme(input),
    ensures
        classify_spec(input) == (trimmed(input), trimmed(input)),
{
    reveal_strlit("http://");
    reveal_strlit("https://");
    reveal_strlit("file://");
    reveal_strlit("minimalist://");
    if has_prefix_ignore_case(input, "http://"@) {
        prefix_survives_trim(input, "http://"@);
    } else if has_prefix_ignore_case(input, "https://"@) {
        prefix_survives_trim(input, "https://"@);
    } else if has_prefix_ignore_case(input, "file://"@) {
        prefix_survives_trim(input, "file://"@);
    } else {
        prefix_survives_trim(input, PRIVATE_SCHEME@);
    }
}

/// An input that has a dot and only domain characters, and that neither
/// names a scheme nor this machine, is taken for a domain: the target is
/// `https://` and the input, the address-bar text the input.
pub proof fn domain_gets_https(input: Seq<char>)
    requires
        is_domain_like(input),
        !has_url_scheme(input),
        !is_local_host(input),
    ensures
        classify_spec(input) == ("https://"@ + input, input),
{
    let k = choose|k: int| 0 <= k < input.len() && input[k] == '.';
    domain_char_is_not_whitespace(input[0]);
    domain_char_is_not_whitespace(input.last());
    trimmed_is_identity(input);
}

/// An input of whitespace only, the empty one among them, gives the new-tab
/// address as target and as address-bar text.
pub proof fn blank_gives_new_tab(input: Seq<char>)
    requires
        forall|i: int| 0 <= i < input.len() ==> is_whitespace(input[i]),
    ensures
        classify_spec(input) == (NEW_TAB_URL@, NEW_TAB_URL@),
{
    all_whitespace_trims_away(input);
}

/// A text of whitespace only has nothing left once its start is trimmed.
proof fn all_whitespace_trims_away(s: Seq<char>)
    requires
        forall|i: int| 0 <= i < s.len() ==> is_whitespace(s[i]),
    ensures
        trim_start(s).len() == 0,
        trimmed(s).len() == 0,
    decreases s.len(),
{
    if s.len() > 0 {
        all_whitespace_trims_away(s.drop_first());
    }
}

} // verus!
