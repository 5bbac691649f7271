//! Emoji identity: the `ReactionKey` sum type and its equality rule.

use vstd::prelude::*;

verus! {

/// Identity of an emoji used as a reaction: either a guild-specific custom
/// emoji or a plain unicode glyph.
///
/// A custom emoji's identity is its numeric id alone; the display name and
/// the animated flag are cosmetic and take no part in equality (see
/// [`key_eq`]).
pub enum ReactionKey {
    Custom { id: u64, name: String, animated: bool },
    Unicode { glyph: String },
}

/// Mathematical shape of a [`ReactionKey`].
pub enum KeyView {
    Custom { id: u64, name: Seq<char>, animated: bool },
    Unicode { glyph: Seq<char> },
}

impl View for ReactionKey {
    type V = KeyView;

    open spec fn view(&self) -> KeyView {
        match self {
            ReactionKey::Custom { id, name, animated } => KeyView::Custom {
                id: *id,
                name: name@,
                animated: *animated,
            },
            ReactionKey::Unicode { glyph } => KeyView::Unicode { glyph: glyph@ },
        }
    }
}

/// The equality rule on reaction keys: custom emojis compare by id alone,
/// unicode emojis by their code point sequence; the two shapes never
/// compare equal.
pub open spec fn key_eq_spec(a: KeyView, b: KeyView) -> bool {
    match (a, b) {
        (KeyView::Custom { id: ia, .. }, KeyView::Custom { id: ib, .. }) => ia == ib,
        (KeyView::Unicode { glyph: ga }, KeyView::Unicode { glyph: gb }) => ga == gb,
        _ => false,
    }
}

/// Decides [`key_eq_spec`] on two keys.
pub fn key_eq(a: &ReactionKey, b: &ReactionKey) -> (r: bool)
    ensures
        r == key_eq_spec(a@, b@),
{
    match (a, b) {
        (ReactionKey::Custom { id: ia, .. }, ReactionKey::Custom { id: ib, .. }) => *ia == *ib,
        (ReactionKey::Unicode { glyph: ga }, ReactionKey::Unicode { glyph: gb }) => *ga == *gb,
        _ => false,
    }
}

/// `c` is an ascii decimal digit.
pub open spec fn is_ascii_digit(c: char) -> bool {
    48 <= c as u32 && c as u32 <= 57
}

/// Numeric value of one ascii decimal digit.
pub open spec fn digit_val(c: char) -> nat {
    (c as u32 - 48) as nat
}

/// Every character of `s` is an ascii decimal digit.
pub open spec fn all_digits(s: Seq<char>) -> bool {
    forall|i: int| 0 <= i < s.len() ==> is_ascii_digit(s[i])
}

/// The number written in decimal by `s`, most significant digit first.
pub open spec fn digits_val(s: Seq<char>) -> nat
    decreases s.len(),
{
    if s.len() == 0 {
        0
    } else {
        digits_val(s.drop_last()) * 10 + digit_val(s.last())
    }
}

/// A longer run of digits never writes a smaller number: the value of a
/// prefix is at most the value of the whole.
pub proof fn lemma_digits_val_prefix_le(s: Seq<char>, i: int)
    requires
        0 <= i <= s.len(),
    ensures
        digits_val(s.take(i)) <= digits_val(s),
    decreases s.len() - i,
{
    if i < s.len() {
        assert(s.take(i + 1).drop_last() =~= s.take(i));
        assert(s.take(i + 1).last() == s[i]);
        lemma_digits_val_prefix_le(s, i + 1);
    } else {
        assert(s.take(i) =~= s);
    }
}

/// The first index at or after `from` holding `c`, or the length of `s`
/// when no such index exists.
pub open spec fn find_from(s: Seq<char>, c: char, from: int) -> int
    recommends
        0 <= from <= s.len(),
    decreases s.len() - from,
    when 0 <= from <= s.len()
{
    if from >= s.len() {
        s.len() as int
    } else if s[from] == c {
        from
    } else {
        find_from(s, c, from + 1)
    }
}

/// What an emote token of the configuration denotes.
///
/// The grammar: an empty string denotes nothing; a string not opening with
/// `<` is a unicode emoji, taken whole; a custom-emoji token is
/// `<a:name:id>` (animated) or `<:name:id>` (still), where `name` is
/// nonempty and free of `:`, and `id` is a nonempty run of decimal digits
/// whose value fits in 64 bits.
pub open spec fn parse_emote_spec(s: Seq<char>) -> Option<KeyView> {
    if s.len() == 0 {
        None
    } else if s[0] != '<' {
        Some(KeyView::Unicode { glyph: s })
    } else {
        parse_custom_spec(s)
    }
}

/// The custom-emoji arm of [`parse_emote_spec`], for strings opening
/// with `<`.
pub open spec fn parse_custom_spec(s: Seq<char>) -> Option<KeyView> {
    let animated = s.len() >= 2 && s[1] == 'a';
    let nstart: int = if animated {
        3
    } else {
        2
    };
    if s.len() < nstart || s[nstart - 1] != ':' {
        None
    } else {
        let j = find_from(s, ':', nstart);
        if j == nstart || j >= s.len() {
            None
        } else {
            let dstart = j + 1;
            let dend = s.len() - 1;
            if !(dstart < dend) {
                None
            } else if s[dend] != '>' {
                None
            } else {
                let digits = s.subrange(dstart, dend);
                if !all_digits(digits) {
                    None
                } else if digits_val(digits) > u64::MAX {
                    None
                } else {
                    Some(KeyView::Custom {
                        id: digits_val(digits) as u64,
                        name: s.subrange(nstart, j),
                        animated,
                    })
                }
            }
        }
    }
}

/// Parses one configured emote token into a reaction key, exactly as
/// [`parse_emote_spec`] reads it; `None` on malformed custom-emoji syntax.
#[verifier::loop_isolation(false)]
pub fn parse_emote(s: &str) -> (r: Option<ReactionKey>)
    ensures
        match r {
            Some(k) => parse_emote_spec(s@) == Some(k@),
            None => parse_emote_spec(s@) is None,
        },
{
    let n = s.unicode_len();
    if n == 0 {
        return None;
    }
    if s.get_char(0) != '<' {
        return Some(ReactionKey::Unicode { glyph: String::from_str(s) });
    }
    let animated = n >= 2 && s.get_char(1) == 'a';
    let nstart: usize = if animated {
        3
    } else {
        2
    };
    if n < nstart {
        return None;
    }
    if s.get_char(nstart - 1) != ':' {
        return None;
    }
    let mut j: usize = nstart;
    while j < n && s.get_char(j) != ':'
        invariant
            n == s@.len(),
            nstart <= j <= n,
            find_from(s@, ':', nstart as int) == find_from(s@, ':', j as int),
        decreases n - j,
    {
        j += 1;
    }
    proof {
        assert(find_from(s@, ':', nstart as int) == j);
    }
    if j == nstart {
        return None;
    }
    if j >= n {
        return None;
    }
    let dstart = j + 1;
    let dend = n - 1;
    if !(dstart < dend) {
        return None;
    }
    if s.get_char(dend) != '>' {
        return None;
    }
    let ghost digits = s@.subrange(dstart as int, dend as int);
    let mut id: u64 = 0;
    let mut k = dstart;
    while k < dend
        invariant
            n == s@.len(),
            dstart <= k <= dend < n,
            digits == s@.subrange(dstart as int, dend as int),
            all_digits(s@.subrange(dstart as int, k as int)),
            id == digits_val(s@.subrange(dstart as int, k as int)),
        decreases dend - k,
    {
        let c = s.get_char(k);
        let cu = c as u32;
        proof {
            assert(digits[k - dstart] == s@[k as int]);
        }
        if cu < 48 || cu > 57 {
            return None;
        }
        let d = (cu - 48) as u64;
        proof {
            assert(s@.subrange(dstart as int, k as int + 1).drop_last() =~= s@.subrange(
                dstart as int,
                k as int,
            ));
            assert(s@.subrange(dstart as int, k as int + 1).last() == s@[k as int]);
        }
        if id > (u64::MAX - d) / 10 {
            proof {
                assert(digits_val(s@.subrange(dstart as int, k as int + 1)) > u64::MAX);
                assert(digits.take(k + 1 - dstart as int) =~= s@.subrange(
                    dstart as int,
                    k as int + 1,
                ));
                lemma_digits_val_prefix_le(digits, k + 1 - dstart as int);
            }
            return None;
        }
        id = id * 10 + d;
        k += 1;
    }
    proof {
        assert(digits =~= s@.subrange(dstart as int, k as int));
    }
    let name = String::from_str(s.substring_char(nstart, j));
    Some(ReactionKey::Custom { id, name, animated })
}

impl Clone for ReactionKey {
    fn clone(&self) -> (r: Self)
        ensures
            r@ == self@,
    {
        match self {
            ReactionKey::Custom { id, name, animated } => ReactionKey::Custom {
                id: *id,
                name: name.clone(),
                animated: *animated,
            },
            ReactionKey::Unicode { glyph } => ReactionKey::Unicode { glyph: glyph.clone() },
        }
    }
}

/// Two custom keys sharing the same id are equal, however their display
/// names or animated flags differ.
pub proof fn lemma_key_eq_ignores_cosmetic(a: KeyView, b: KeyView)
    requires
        a is Custom,
        b is Custom,
        a->id == b->id,
    ensures
        key_eq_spec(a, b),
{
}

} // verus!
