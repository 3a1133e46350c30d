//! The blacklist: which applications and web sites are excluded from
//! selection capture.
//!
//! A rule is a wildcard pattern. One that begins with `http://` or
//! `https://` is held against the address shown by the frontmost browser,
//! any other against the identifier of the frontmost application.

use crate::text::{
    eq_ignore_case, starts_with, str_starts_with, str_starts_with_ignore_case, trim_end,
    trim_end_str, trim_start, trim_start_str, views,
};
use vstd::prelude::*;
use vstd::string::StringExecFns;
use wildmatch::WildMatch;

verus! {

/// Whether the wildcard pattern `pattern` matches the whole of `input`,
/// letter case aside, as `wildmatch` decides it: `*` stands for any run of
/// characters and `?` for any single one.
pub uninterp spec fn wildcard_match(pattern: Seq<char>, input: Seq<char>) -> bool;

/// Calls `WildMatch::new_case_insensitive` on `pattern` and `matches` on
/// `input`. The result depends on the two strings alone; the contract names
/// it.
#[verifier::external_body]
pub(crate) fn matches_wildcard(pattern: &str, input: &str) -> (r: bool)
    ensures
        r == wildcard_match(pattern@, input@),
{
    WildMatch::new_case_insensitive(pattern).matches(input)
}

/// Whether `s` begins with `prefix`, letter case aside.
pub open spec fn has_scheme(s: Seq<char>, prefix: Seq<char>) -> bool {
    prefix.len() <= s.len() && eq_ignore_case(s.take(prefix.len() as int), prefix)
}

/// Whether a rule is for web sites.
pub open spec fn website_rule(rule: Seq<char>) -> bool {
    has_scheme(rule, "http://"@) || has_scheme(rule, "https://"@)
}

/// The pattern and the input that a rule asks to compare, if the rule
/// applies at all: a web-site rule needs an address, an application rule an
/// application identifier. Addresses are compared without their trailing
/// slashes.
pub open spec fn target_of(
    rule: Seq<char>,
    app_id: Option<Seq<char>>,
    url: Option<Seq<char>>,
) -> Option<(Seq<char>, Seq<char>)> {
    if website_rule(rule) {
        match url {
            Some(u) => Some((trim_end(rule, '/'), trim_end(u, '/'))),
            None => None,
        }
    } else {
        match app_id {
            Some(a) => Some((rule, a)),
            None => None,
        }
    }
}

/// Whether one rule excludes the given application or address.
pub open spec fn rule_blocks(
    rule: Seq<char>,
    app_id: Option<Seq<char>>,
    url: Option<Seq<char>>,
) -> bool {
    match target_of(rule, app_id, url) {
        Some((pattern, input)) => wildcard_match(pattern, input),
        None => false,
    }
}

/// Whether some rule of the list excludes the given application or address.
pub open spec fn blocked(
    rules: Seq<Seq<char>>,
    app_id: Option<Seq<char>>,
    url: Option<Seq<char>>,
) -> bool {
    exists|i: int| 0 <= i < rules.len() && rule_blocks(#[trigger] rules[i], app_id, url)
}

/// The view of an optional string.
pub open spec fn opt_view(s: Option<&str>) -> Option<Seq<char>> {
    match s {
        Some(t) => Some(t@),
        None => None,
    }
}

/// Whether a rule is for web sites: it begins with `http://` or `https://`,
/// in any letter case.
pub fn is_website_rule(rule: &str) -> (r: bool)
    ensures
        r == website_rule(rule@),
{
    str_starts_with_ignore_case(rule, "http://") || str_starts_with_ignore_case(rule, "https://")
}

/// Whether the list holds a rule for applications, so that the identifier of
/// the frontmost application is worth asking for.
pub fn has_app_rules(blacklist: &Vec<String>) -> (r: bool)
    ensures
        r == exists|i: int| 0 <= i < blacklist@.len() && !website_rule(#[trigger] blacklist@[i]@),
{
    let mut i: usize = 0;
    while i < blacklist.len()
        invariant
            i <= blacklist@.len(),
            forall|j: int| 0 <= j < i ==> website_rule(#[trigger] blacklist@[j]@),
        decreases blacklist@.len() - i,
    {
        if !is_website_rule(blacklist[i].as_str()) {
            return true;
        }
        i += 1;
    }
    false
}

/// Whether the list holds a rule for web sites, so that the address of the
/// frontmost browser is worth asking for.
pub fn has_website_rules(blacklist: &Vec<String>) -> (r: bool)
    ensures
        r == exists|i: int| 0 <= i < blacklist@.len() && website_rule(#[trigger] blacklist@[i]@),
{
    let mut i: usize = 0;
    while i < blacklist.len()
        invariant
            i <= blacklist@.len(),
            forall|j: int| 0 <= j < i ==> !website_rule(#[trigger] blacklist@[j]@),
        decreases blacklist@.len() - i,
    {
        if is_website_rule(blacklist[i].as_str()) {
            return true;
        }
        i += 1;
    }
    false
}

/// The pattern and the input that `rule` asks to compare, if it applies.
pub fn match_target(rule: &str, app_id: Option<&str>, url: Option<&str>) -> (t: Option<
    (String, String),
>)
    ensures
        match t {
            Some((pattern, input)) => target_of(rule@, opt_view(app_id), opt_view(url)) == Some(
                (pattern@, input@),
            ),
            None => target_of(rule@, opt_view(app_id), opt_view(url)) is None,
        },
{
    if is_website_rule(rule) {
        match url {
            Some(u) => Some((trim_end_str(rule, '/'), trim_end_str(u, '/'))),
            None => None,
        }
    } else {
        match app_id {
            Some(a) => Some((String::from_str(rule), String::from_str(a))),
            None => None,
        }
    }
}

/// Whether the frontmost application, identified by `app_id`, or the address
/// `url` shown by the frontmost browser is excluded by a rule of
/// `blacklist`. `None` stands for an identifier or an address that could not
/// be had; no rule of its sort then applies. An empty list excludes nothing.
pub fn is_blocked(blacklist: &Vec<String>, app_id: Option<&str>, url: Option<&str>) -> (r: bool)
    ensures
        r == blocked(views(blacklist@), opt_view(app_id), opt_view(url)),
{
    let mut i: usize = 0;
    while i < blacklist.len()
        invariant
            i <= blacklist@.len(),
            forall|j: int|
                0 <= j < i ==> !rule_blocks(
                    #[trigger] views(blacklist@)[j],
                    opt_view(app_id),
                    opt_view(url),
                ),
        decreases blacklist@.len() - i,
    {
        assert(views(blacklist@)[i as int] == blacklist@[i as int]@);
        match match_target(blacklist[i].as_str(), app_id, url) {
            Some((pattern, input)) => {
                if matches_wildcard(pattern.as_str(), input.as_str()) {
                    return true;
                }
            },
            None => {},
        }
        i += 1;
    }
    false
}

/// The identifier of an application given by its canonical path: the path
/// without the `\\?\` that marks a long path.
pub fn get_app_id(canonical_path: &str) -> (id: String)
    ensures
        id@ == trim_start(canonical_path@, "\\\\?\\"@),
{
    trim_start_str(canonical_path, "\\\\?\\")
}

/// Whether the value of a browser's address field is an address: it is not
/// empty and begins with `http://` or `https://`.
pub fn is_web_address(value: &str) -> (r: bool)
    ensures
        r == (starts_with(value@, "http://"@) || starts_with(value@, "https://"@)),
{
    str_starts_with(value, "http://") || str_starts_with(value, "https://")
}

} // verus!
