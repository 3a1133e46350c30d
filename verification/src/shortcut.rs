//! Shortcut strings and the registry of registered hot-keys.
//!
//! A shortcut string is a list of tokens separated by `+`. Every token but
//! the last names a modifier, in any letter case; the last one names the
//! key. `Control+Shift+A` is one.

use crate::error::{AppError, ErrorKind, ErrorView};
use crate::keys::{find_shortcut_id, shortcut_id};
use crate::text::{
    eq_ignore_case, free_of, join, lemma_split_join, lemma_split_nonempty,
    lemma_split_pieces_free, lower, split, split_str, str_eq_ignore_case, views,
};
use vstd::prelude::*;
use vstd::string::StringExecFns;

verus! {

/// A set of modifier keys.
#[derive(Clone, Copy, Debug, PartialEq, Eq, Structural)]
pub struct Modifiers {
    pub meta: bool,
    pub control: bool,
    pub alt: bool,
    pub shift: bool,
}

impl Modifiers {
    /// No modifier.
    pub open spec fn none() -> Modifiers {
        Modifiers { meta: false, control: false, alt: false, shift: false }
    }

    /// The modifiers of either set.
    pub open spec fn union(self, other: Modifiers) -> Modifiers {
        Modifiers {
            meta: self.meta || other.meta,
            control: self.control || other.control,
            alt: self.alt || other.alt,
            shift: self.shift || other.shift,
        }
    }

    /// No modifier.
    pub fn empty() -> (m: Modifiers)
        ensures
            m == Modifiers::none(),
    {
        Modifiers { meta: false, control: false, alt: false, shift: false }
    }

    /// The modifiers of either set.
    pub fn with(self, other: Modifiers) -> (m: Modifiers)
        ensures
            m == self.union(other),
    {
        Modifiers {
            meta: self.meta || other.meta,
            control: self.control || other.control,
            alt: self.alt || other.alt,
            shift: self.shift || other.shift,
        }
    }
}

/// The modifier that a token names, letter case aside: one of `meta`,
/// `control`, `alt` and `shift`.
pub open spec fn modifier_word(token: Seq<char>) -> Option<Modifiers> {
    if eq_ignore_case(token, "meta"@) {
        Some(Modifiers { meta: true, ..Modifiers::none() })
    } else if eq_ignore_case(token, "control"@) {
        Some(Modifiers { control: true, ..Modifiers::none() })
    } else if eq_ignore_case(token, "alt"@) {
        Some(Modifiers { alt: true, ..Modifiers::none() })
    } else if eq_ignore_case(token, "shift"@) {
        Some(Modifiers { shift: true, ..Modifiers::none() })
    } else {
        None
    }
}

/// The modifiers that a list of tokens names, or the first of the tokens
/// that names none.
pub open spec fn modifiers_of(tokens: Seq<Seq<char>>) -> Result<Modifiers, Seq<char>>
    decreases tokens.len(),
{
    if tokens.len() == 0 {
        Ok(Modifiers::none())
    } else {
        match modifiers_of(tokens.drop_last()) {
            Ok(modifiers) => match modifier_word(tokens.last()) {
                Some(word) => Ok(modifiers.union(word)),
                None => Err(tokens.last()),
            },
            Err(token) => Err(token),
        }
    }
}

/// The mathematical value of a [`Shortcut`].
pub ghost struct ShortcutView {
    pub modifiers: Modifiers,
    pub key: Seq<char>,
    pub id: u32,
}

/// Why a shortcut string is refused.
pub ghost enum ParseFailure {
    /// A token before the last names no modifier.
    UnsupportedModifier(Seq<char>),
    /// The last token names no key.
    UnsupportedKey(Seq<char>),
}

impl ParseFailure {
    /// The error that reports the failure.
    pub open spec fn error(self) -> ErrorView {
        match self {
            ParseFailure::UnsupportedModifier(token) => ErrorView {
                kind: ErrorKind::ParseError,
                message: "Unsupported modifier: "@ + token,
            },
            ParseFailure::UnsupportedKey(token) => ErrorView {
                kind: ErrorKind::ParseError,
                message: "Unsupported key code: "@ + token,
            },
        }
    }
}

/// The hot-key with the given modifiers and key token, given the identifier
/// that the hot-key backend has for the two, or none where the token names
/// no key.
pub open spec fn assemble(modifiers: Modifiers, key: Seq<char>, id: Option<u32>) -> Result<
    ShortcutView,
    ParseFailure,
> {
    match id {
        Some(id) => Ok(ShortcutView { modifiers, key, id }),
        None => Err(ParseFailure::UnsupportedKey(key)),
    }
}

/// What a shortcut string means. The modifiers are looked at first, so a
/// string with an unknown modifier and an unknown key is refused for the
/// modifier. The empty string has one token, the empty one, which names no
/// key.
pub open spec fn parse(s: Seq<char>) -> Result<ShortcutView, ParseFailure> {
    let tokens = split(s, '+');
    match modifiers_of(tokens.drop_last()) {
        Ok(m) => assemble(m, tokens.last(), shortcut_id(m.meta, m.control, m.alt, m.shift, tokens.last())),
        Err(token) => Err(ParseFailure::UnsupportedModifier(token)),
    }
}

/// A parsed shortcut: the modifiers, the key token as it was written, and
/// the identifier under which the hot-key backend knows the combination.
#[derive(Clone, Debug)]
pub struct Shortcut {
    modifiers: Modifiers,
    key: String,
    id: u32,
}

impl View for Shortcut {
    type V = ShortcutView;

    closed spec fn view(&self) -> ShortcutView {
        ShortcutView { modifiers: self.modifiers, key: self.key@, id: self.id }
    }
}

impl Shortcut {
    /// The modifiers.
    pub fn modifiers(&self) -> (m: Modifiers)
        ensures
            m == self@.modifiers,
    {
        self.modifiers
    }

    /// The key token.
    pub fn key(&self) -> (k: &str)
        ensures
            k@ == self@.key,
    {
        self.key.as_str()
    }

    /// The identifier of the hot-key.
    pub fn id(&self) -> (id: u32)
        ensures
            id == self@.id,
    {
        self.id
    }
}

/// The modifier that a token names, if it names one.
pub fn parse_modifier(token: &str) -> (m: Option<Modifiers>)
    ensures
        m == modifier_word(token@),
{
    if str_eq_ignore_case(token, "meta") {
        Some(Modifiers { meta: true, control: false, alt: false, shift: false })
    } else if str_eq_ignore_case(token, "control") {
        Some(Modifiers { meta: false, control: true, alt: false, shift: false })
    } else if str_eq_ignore_case(token, "alt") {
        Some(Modifiers { meta: false, control: false, alt: true, shift: false })
    } else if str_eq_ignore_case(token, "shift") {
        Some(Modifiers { meta: false, control: false, alt: false, shift: true })
    } else {
        None
    }
}

/// The text `head` followed by `tail`.
fn message(head: &str, tail: &str) -> (m: String)
    ensures
        m@ == head@ + tail@,
{
    String::from_str(head).concat(tail)
}

/// The modifiers that the tokens name. Fails with a `ParseError` for the
/// first of them that names no modifier.
pub fn parse_modifiers(tokens: &Vec<String>) -> (r: Result<Modifiers, AppError>)
    ensures
        match modifiers_of(views(tokens@)) {
            Ok(m) => r == Ok::<Modifiers, AppError>(m),
            Err(token) => r matches Err(e) && e@ == ParseFailure::UnsupportedModifier(
                token,
            ).error(),
        },
{
    let mut modifiers = Modifiers::empty();
    let mut i: usize = 0;
    proof {
        assert(views(tokens@).take(0) =~= Seq::<Seq<char>>::empty());
    }
    while i < tokens.len()
        invariant
            i <= tokens@.len(),
            modifiers_of(views(tokens@).take(i as int)) == Ok::<Modifiers, Seq<char>>(modifiers),
        decreases tokens@.len() - i,
    {
        proof {
            let next = views(tokens@).take(i + 1);
            assert(next.drop_last() =~= views(tokens@).take(i as int));
            assert(next.last() == tokens@[i as int]@);
            if modifier_word(tokens@[i as int]@) is None {
                lemma_modifiers_fail(views(tokens@), i + 1);
            }
        }
        match parse_modifier(tokens[i].as_str()) {
            Some(word) => {
                modifiers = modifiers.with(word);
            },
            None => {
                return Err(
                    AppError::new(
                        ErrorKind::ParseError,
                        message("Unsupported modifier: ", tokens[i].as_str()),
                    ),
                );
            },
        }
        i += 1;
    }
    proof {
        assert(views(tokens@).take(tokens@.len() as int) =~= views(tokens@));
    }
    Ok(modifiers)
}

/// Once a token names no modifier, the failure stays with every longer list.
pub proof fn lemma_modifiers_fail(tokens: Seq<Seq<char>>, n: int)
    requires
        0 <= n <= tokens.len(),
        modifiers_of(tokens.take(n)) is Err,
    ensures
        modifiers_of(tokens) == modifiers_of(tokens.take(n)),
    decreases tokens.len(),
{
    if n < tokens.len() {
        assert(tokens.drop_last().take(n) =~= tokens.take(n));
        lemma_modifiers_fail(tokens.drop_last(), n);
    } else {
        assert(tokens.take(n) =~= tokens);
    }
}

/// The hot-key with the given modifiers and key token, from the identifier
/// that the hot-key backend has for the two: `None` says that the token
/// names no key, and is answered with a `ParseError`.
pub fn new_shortcut(modifiers: Modifiers, key: String, id: Option<u32>) -> (r: Result<
    Shortcut,
    AppError,
>)
    ensures
        match assemble(modifiers, key@, id) {
            Ok(v) => r matches Ok(shortcut) && shortcut@ == v,
            Err(f) => r matches Err(e) && e@ == f.error(),
        },
{
    match id {
        Some(id) => Ok(Shortcut { modifiers, key, id }),
        None => Err(
            AppError::new(ErrorKind::ParseError, message("Unsupported key code: ", key.as_str())),
        ),
    }
}

/// Parses a shortcut string.
///
/// Succeeds exactly where every token but the last names a modifier and the
/// last names a key. Fails with a `ParseError` otherwise: for the first
/// token that should name a modifier and does not, else for the key.
pub fn parse_shortcut(shortcut: &str) -> (r: Result<Shortcut, AppError>)
    ensures
        match parse(shortcut@) {
            Ok(v) => r matches Ok(parsed) && parsed@ == v,
            Err(f) => r matches Err(e) && e@ == f.error(),
        },
{
    let mut tokens = split_str(shortcut, '+');
    let ghost all = views(tokens@);
    proof {
        lemma_split_nonempty(shortcut@, '+');
    }
    let key = match tokens.pop() {
        Some(key) => key,
        None => String::new(),
    };
    proof {
        assert(views(tokens@) =~= all.drop_last());
        assert(key@ == all.last());
    }
    let modifiers = match parse_modifiers(&tokens) {
        Ok(m) => m,
        Err(e) => {
            return Err(e);
        },
    };
    let id = find_shortcut_id(
        modifiers.meta,
        modifiers.control,
        modifiers.alt,
        modifiers.shift,
        key.as_str(),
    );
    new_shortcut(modifiers, key, id)
}

/// `tokens` with `word` added where `present` says so.
pub open spec fn with_word(tokens: Seq<Seq<char>>, present: bool, word: Seq<char>) -> Seq<
    Seq<char>,
> {
    if present {
        tokens.push(word)
    } else {
        tokens
    }
}

/// The tokens of the canonical form of a set of modifiers: the modifiers
/// that are in the set, spelled `Meta`, `Control`, `Alt` and `Shift`, in
/// this order.
pub open spec fn modifier_tokens(m: Modifiers) -> Seq<Seq<char>> {
    with_word(
        with_word(
            with_word(with_word(Seq::<Seq<char>>::empty(), m.meta, "Meta"@), m.control, "Control"@),
            m.alt,
            "Alt"@,
        ),
        m.shift,
        "Shift"@,
    )
}

/// The canonical form of a hot-key: its modifiers in canonical spelling and
/// order, then its key token, with `+` between neighbours.
pub open spec fn canonical(v: ShortcutView) -> Seq<char> {
    join(modifier_tokens(v.modifiers).push(v.key), '+')
}

impl Shortcut {
    /// The shortcut in canonical form.
    pub fn to_string(&self) -> (s: String)
        ensures
            s@ == canonical(self@),
    {
        let m = self.modifiers;
        let mut out = String::new();
        let mut first = true;
        let ghost mut tokens = Seq::<Seq<char>>::empty();
        if m.meta {
            out = push_token(out, first, "Meta", Ghost(tokens));
            first = false;
            proof {
                tokens = tokens.push("Meta"@);
            }
        }
        if m.control {
            out = push_token(out, first, "Control", Ghost(tokens));
            first = false;
            proof {
                tokens = tokens.push("Control"@);
            }
        }
        if m.alt {
            out = push_token(out, first, "Alt", Ghost(tokens));
            first = false;
            proof {
                tokens = tokens.push("Alt"@);
            }
        }
        if m.shift {
            out = push_token(out, first, "Shift", Ghost(tokens));
            first = false;
            proof {
                tokens = tokens.push("Shift"@);
            }
        }
        assert(tokens == modifier_tokens(m));
        push_token(out, first, self.key.as_str(), Ghost(tokens))
    }
}

/// Adds a token to a joined list of tokens; `first` says that the list is
/// still empty.
fn push_token(joined: String, first: bool, token: &str, Ghost(tokens): Ghost<Seq<Seq<char>>>) -> (r:
    String)
    requires
        joined@ == join(tokens, '+'),
        first == (tokens.len() == 0),
    ensures
        r@ == join(tokens.push(token@), '+'),
{
    let ghost longer = tokens.push(token@);
    proof {
        reveal_strlit("+");
        assert(longer.drop_last() =~= tokens);
        assert(longer.last() == token@);
        assert("+"@ =~= seq!['+']);
    }
    if first {
        proof {
            assert(join(tokens, '+') =~= Seq::<char>::empty());
            assert(joined@ + token@ =~= token@);
        }
        joined.concat(token)
    } else {
        proof {
            assert(joined@ + "+"@ =~= joined@.push('+'));
        }
        joined.concat("+").concat(token)
    }
}

/// The canonical spelling of each modifier names that modifier, and holds
/// no `+`.
pub proof fn lemma_canonical_words()
    ensures
        modifier_word("Meta"@) == Some(Modifiers { meta: true, ..Modifiers::none() }),
        modifier_word("Control"@) == Some(Modifiers { control: true, ..Modifiers::none() }),
        modifier_word("Alt"@) == Some(Modifiers { alt: true, ..Modifiers::none() }),
        modifier_word("Shift"@) == Some(Modifiers { shift: true, ..Modifiers::none() }),
        free_of("Meta"@, '+'),
        free_of("Control"@, '+'),
        free_of("Alt"@, '+'),
        free_of("Shift"@, '+'),
{
    reveal_strlit("meta");
    reveal_strlit("control");
    reveal_strlit("alt");
    reveal_strlit("shift");
    reveal_strlit("Meta");
    reveal_strlit("Control");
    reveal_strlit("Alt");
    reveal_strlit("Shift");
    assert(lower("Meta"@) =~= lower("meta"@));
    assert(lower("Control"@) =~= lower("control"@));
    assert(lower("Alt"@) =~= lower("alt"@));
    assert(lower("Shift"@) =~= lower("shift"@));
    assert(lower("Control"@).len() != lower("meta"@).len());
    assert(lower("Alt"@).len() != lower("meta"@).len());
    assert(lower("Alt"@).len() != lower("control"@).len());
    assert(lower("Shift"@).len() != lower("meta"@).len());
    assert(lower("Shift"@).len() != lower("control"@).len());
    assert(lower("Shift"@).len() != lower("alt"@).len());
}

/// One more token: the modifiers so far, and the one that it names.
proof fn lemma_modifiers_push(tokens: Seq<Seq<char>>, m: Modifiers, word: Seq<char>, w: Modifiers)
    requires
        modifiers_of(tokens) == Ok::<Modifiers, Seq<char>>(m),
        modifier_word(word) == Some(w),
    ensures
        modifiers_of(tokens.push(word)) == Ok::<Modifiers, Seq<char>>(m.union(w)),
{
    assert(tokens.push(word).drop_last() =~= tokens);
}

/// The canonical tokens of a set of modifiers name that set, and none of
/// them holds a `+`.
pub proof fn lemma_modifier_tokens(m: Modifiers)
    ensures
        modifiers_of(modifier_tokens(m)) == Ok::<Modifiers, Seq<char>>(m),
        forall|i: int|
            0 <= i < modifier_tokens(m).len() ==> free_of(#[trigger] modifier_tokens(m)[i], '+'),
{
    lemma_canonical_words();
    let none = Modifiers::none();
    let t0 = Seq::<Seq<char>>::empty();
    let m1 = Modifiers { meta: m.meta, ..none };
    let t1 = with_word(t0, m.meta, "Meta"@);
    if m.meta {
        lemma_modifiers_push(t0, none, "Meta"@, Modifiers { meta: true, ..none });
    }
    assert(modifiers_of(t1) == Ok::<Modifiers, Seq<char>>(m1));
    let m2 = Modifiers { control: m.control, ..m1 };
    let t2 = with_word(t1, m.control, "Control"@);
    if m.control {
        lemma_modifiers_push(t1, m1, "Control"@, Modifiers { control: true, ..none });
    }
    assert(modifiers_of(t2) == Ok::<Modifiers, Seq<char>>(m2));
    let m3 = Modifiers { alt: m.alt, ..m2 };
    let t3 = with_word(t2, m.alt, "Alt"@);
    if m.alt {
        lemma_modifiers_push(t2, m2, "Alt"@, Modifiers { alt: true, ..none });
    }
    assert(modifiers_of(t3) == Ok::<Modifiers, Seq<char>>(m3));
    let t4 = with_word(t3, m.shift, "Shift"@);
    if m.shift {
        lemma_modifiers_push(t3, m3, "Shift"@, Modifiers { shift: true, ..none });
    }
    assert(t4 == modifier_tokens(m));
    assert(modifiers_of(t4) == Ok::<Modifiers, Seq<char>>(m));
}

/// A shortcut string that is accepted means the same as its canonical form:
/// parsing the canonical form of the parsed shortcut gives that shortcut
/// again, with the same modifiers, the same key and the same identifier.
pub proof fn lemma_round_trip(s: Seq<char>)
    requires
        parse(s) is Ok,
    ensures
        parse(canonical(parse(s)->Ok_0)) == parse(s),
{
    let v = parse(s)->Ok_0;
    let tokens = split(s, '+');
    lemma_split_nonempty(s, '+');
    lemma_split_pieces_free(s, '+');
    assert(v.key == tokens.last());
    assert(free_of(v.key, '+'));
    let words = modifier_tokens(v.modifiers);
    lemma_modifier_tokens(v.modifiers);
    let again = words.push(v.key);
    assert forall|i: int| 0 <= i < again.len() implies free_of(#[trigger] again[i], '+') by {
        if i < words.len() {
            assert(again[i] == words[i]);
        }
    }
    lemma_split_join(again, '+');
    assert(again.drop_last() =~= words);
    assert(again.last() == v.key);
}

} // verus!
