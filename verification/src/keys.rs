//! The key vocabulary and the hot-key identifier, as the hot-key backend
//! defines them.

use global_hotkey::hotkey::{Code, HotKey, Modifiers};
use std::str::FromStr;
use vstd::prelude::*;

verus! {

/// A physical key, as `keyboard_types::Code` (re-exported by `global_hotkey`)
/// names it. Its variants are not read here; a value is only carried from the
/// parser to the constructor of a hot-key.
#[verifier::external_type_specification]
#[verifier::external_body]
pub struct ExCode(Code);

/// The key that `Code::from_str` returns for `token`, if any.
pub uninterp spec fn code_by_name(token: Seq<char>) -> Option<Code>;

/// The key of the hot-key that `HotKey::from_str` returns for `token`, if any.
pub uninterp spec fn code_by_key(token: Seq<char>) -> Option<Code>;

/// The identifier that `HotKey::new` gives to the hot-key with the given
/// modifiers and key.
pub uninterp spec fn hotkey_id(meta: bool, control: bool, alt: bool, shift: bool, code: Code) -> u32;

/// The key that a key token stands for: its name is looked up among the
/// names of the `code` values first, and where it is none of them, among the
/// key names of the hot-key backend.
pub open spec fn key_code(token: Seq<char>) -> Option<Code> {
    match code_by_name(token) {
        Some(code) => Some(code),
        None => code_by_key(token),
    }
}

/// The identifier of the hot-key with the given modifiers and key token, if
/// the token stands for a key.
pub open spec fn shortcut_id(
    meta: bool,
    control: bool,
    alt: bool,
    shift: bool,
    token: Seq<char>,
) -> Option<u32> {
    match key_code(token) {
        Some(code) => Some(hotkey_id(meta, control, alt, shift, code)),
        None => None,
    }
}

/// Calls `<Code as FromStr>::from_str`, which matches `token` against the
/// names of the W3C UI Events `code` values (`"KeyA"`, `"F1"`, ...), exactly
/// and case-sensitively. The contract only names the result.
#[verifier::external_body]
pub(crate) fn parse_code_name(token: &str) -> (r: Option<Code>)
    ensures
        r == code_by_name(token@),
{
    Code::from_str(token).ok()
}

/// Calls `<HotKey as FromStr>::from_str` and hands out the key of the
/// hot-key it returns. For a string without `+` that function looks the
/// upper-cased string up in its table of key names (`"A"`, `"KEYA"`,
/// `"ESC"`, ...). The contract only names the result.
#[verifier::external_body]
pub(crate) fn parse_key_name(token: &str) -> (r: Option<Code>)
    ensures
        r == code_by_key(token@),
{
    HotKey::from_str(token).ok().map(|hotkey| hotkey.key)
}

/// Calls `HotKey::new` with the given modifiers and key and hands out the
/// `id` of the hot-key, which that function computes from the two alone.
#[verifier::external_body]
pub(crate) fn new_hotkey_id(meta: bool, control: bool, alt: bool, shift: bool, code: Code) -> (id: u32)
    ensures
        id == hotkey_id(meta, control, alt, shift, code),
{
    let mut modifiers = Modifiers::empty();
    modifiers.set(Modifiers::META, meta);
    modifiers.set(Modifiers::CONTROL, control);
    modifiers.set(Modifiers::ALT, alt);
    modifiers.set(Modifiers::SHIFT, shift);
    HotKey::new(Some(modifiers), code).id
}

/// The identifier of the hot-key with the given modifiers and key token, or
/// `None` where the token stands for no key.
pub fn find_shortcut_id(meta: bool, control: bool, alt: bool, shift: bool, token: &str) -> (id:
    Option<u32>)
    ensures
        id == shortcut_id(meta, control, alt, shift, token@),
{
    let code = match parse_code_name(token) {
        Some(code) => Some(code),
        None => parse_key_name(token),
    };
    match code {
        Some(code) => Some(new_hotkey_id(meta, control, alt, shift, code)),
        None => None,
    }
}

} // verus!
