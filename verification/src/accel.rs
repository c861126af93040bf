//! Parsing of user-supplied accelerator strings.
//!
//! An accelerator is written as modifier names joined to one final key name
//! with `+`, for example `Alt+Space` or `ctrl+shift+k`. Names are matched
//! without regard to case. The parse yields a canonical modifier set and key,
//! or says precisely why the string is rejected; a string that is rejected
//! never reaches registration.

use vstd::prelude::*;
use vstd::string::StringSliceAdditionalSpecFns;

verus! {

/// The key of an accelerator, in canonical form.
#[derive(Clone, Copy, PartialEq, Eq, Structural, Debug)]
pub enum KeyCode {
    /// A printable key, held as its upper-case ASCII letter or digit.
    Character(u8),
    Space,
    Tab,
    Enter,
    Escape,
    /// A function key, numbered 1 through 12.
    Function(u8),
}

/// A parsed accelerator: a canonical modifier set and one key.
#[derive(Clone, Copy, PartialEq, Eq, Structural, Debug)]
pub struct Accelerator {
    pub alt: bool,
    pub ctrl: bool,
    pub shift: bool,
    pub meta: bool,
    pub key: KeyCode,
}

/// Why an accelerator string is rejected.
#[derive(Clone, Copy, PartialEq, Eq, Structural, Debug)]
pub enum AccelParseError {
    /// The whole string is empty.
    EmptyInput,
    /// A token before the last is not a modifier name.
    UnknownModifier,
    /// The string ends with a separator and no key token.
    MissingKey,
    /// The last token names no key.
    UnknownKey,
    /// The same modifier is given twice.
    DuplicateModifier,
}

/// The modifiers an accelerator token can name.
#[derive(Clone, Copy, PartialEq, Eq, Structural, Debug)]
pub enum Modifier {
    Alt,
    Ctrl,
    Shift,
    Meta,
}

pub open spec fn is_ascii_digit(b: u8) -> bool {
    48u8 <= b <= 57u8
}

pub open spec fn is_ascii_upper(b: u8) -> bool {
    65u8 <= b <= 90u8
}

pub open spec fn is_ascii_lower(b: u8) -> bool {
    97u8 <= b <= 122u8
}

/// The byte with any upper-case ASCII letter folded to lower case.
pub open spec fn to_lower(b: u8) -> u8 {
    if is_ascii_upper(b) {
        (b + 0x20) as u8
    } else {
        b
    }
}

/// The byte with any lower-case ASCII letter folded to upper case.
pub open spec fn to_upper(b: u8) -> u8 {
    if is_ascii_lower(b) {
        (b - 0x20) as u8
    } else {
        b
    }
}

/// A byte string folded to lower case.
pub open spec fn lower_seq(s: Seq<u8>) -> Seq<u8> {
    s.map_values(|b: u8| to_lower(b))
}

pub open spec fn kw_alt() -> Seq<u8> {
    seq![97u8, 108u8, 116u8]
}

pub open spec fn kw_option() -> Seq<u8> {
    seq![111u8, 112u8, 116u8, 105u8, 111u8, 110u8]
}

pub open spec fn kw_ctrl() -> Seq<u8> {
    seq![99u8, 116u8, 114u8, 108u8]
}

pub open spec fn kw_control() -> Seq<u8> {
    seq![99u8, 111u8, 110u8, 116u8, 114u8, 111u8, 108u8]
}

pub open spec fn kw_shift() -> Seq<u8> {
    seq![115u8, 104u8, 105u8, 102u8, 116u8]
}

pub open spec fn kw_super() -> Seq<u8> {
    seq![115u8, 117u8, 112u8, 101u8, 114u8]
}

pub open spec fn kw_cmd() -> Seq<u8> {
    seq![99u8, 109u8, 100u8]
}

pub open spec fn kw_meta() -> Seq<u8> {
    seq![109u8, 101u8, 116u8, 97u8]
}

pub open spec fn kw_space() -> Seq<u8> {
    seq![115u8, 112u8, 97u8, 99u8, 101u8]
}

pub open spec fn kw_tab() -> Seq<u8> {
    seq![116u8, 97u8, 98u8]
}

pub open spec fn kw_enter() -> Seq<u8> {
    seq![101u8, 110u8, 116u8, 101u8, 114u8]
}

pub open spec fn kw_return() -> Seq<u8> {
    seq![114u8, 101u8, 116u8, 117u8, 114u8, 110u8]
}

pub open spec fn kw_escape() -> Seq<u8> {
    seq![101u8, 115u8, 99u8, 97u8, 112u8, 101u8]
}

pub open spec fn kw_esc() -> Seq<u8> {
    seq![101u8, 115u8, 99u8]
}

/// Which modifier a lower-cased token names, if any.
pub open spec fn modifier_of_lower(l: Seq<u8>) -> Option<Modifier> {
    if l == kw_alt() || l == kw_option() {
        Some(Modifier::Alt)
    } else if l == kw_ctrl() || l == kw_control() {
        Some(Modifier::Ctrl)
    } else if l == kw_shift() {
        Some(Modifier::Shift)
    } else if l == kw_super() || l == kw_cmd() || l == kw_meta() {
        Some(Modifier::Meta)
    } else {
        None
    }
}

/// Which key a lower-cased token names, if any: a single letter or digit, a
/// named key, or a function key `f1` through `f12`.
pub open spec fn key_of_lower(l: Seq<u8>) -> Option<KeyCode> {
    if l.len() == 1 && (is_ascii_digit(l[0]) || is_ascii_lower(l[0])) {
        Some(KeyCode::Character(to_upper(l[0])))
    } else if l == kw_space() {
        Some(KeyCode::Space)
    } else if l == kw_tab() {
        Some(KeyCode::Tab)
    } else if l == kw_enter() || l == kw_return() {
        Some(KeyCode::Enter)
    } else if l == kw_escape() || l == kw_esc() {
        Some(KeyCode::Escape)
    } else if l.len() == 2 && l[0] == 102u8 && 49u8 <= l[1] <= 57u8 {
        Some(KeyCode::Function((l[1] - 48u8) as u8))
    } else if l.len() == 3 && l[0] == 102u8 && l[1] == 49u8 && 48u8 <= l[2] <= 50u8 {
        Some(KeyCode::Function((10 + l[2] - 48u8) as u8))
    } else {
        None
    }
}

/// The index of the first separator `+` at or after `from`; the length when
/// there is none.
pub open spec fn sep_after(s: Seq<u8>, from: int) -> int
    decreases s.len() - from,
    when 0 <= from <= s.len()
{
    if from >= s.len() {
        from
    } else if s[from] == 43u8 {
        from
    } else {
        sep_after(s, from + 1)
    }
}

pub proof fn lemma_sep_after_bounds(s: Seq<u8>, from: int)
    requires
        0 <= from <= s.len(),
    ensures
        from <= sep_after(s, from) <= s.len(),
    decreases s.len() - from,
{
    if from < s.len() && s[from] != 43u8 {
        lemma_sep_after_bounds(s, from + 1);
    }
}

/// The parse of the tokens of `s` from position `from` on, with the
/// modifiers seen so far. Every token before the last must name a modifier
/// not yet seen; the last token must name a key.
pub open spec fn parse_from(
    s: Seq<u8>,
    from: int,
    alt: bool,
    ctrl: bool,
    shift: bool,
    meta: bool,
) -> Result<Accelerator, AccelParseError>
    decreases s.len() - from,
    when 0 <= from <= s.len()
    via parse_from_decreases
{
    let j = sep_after(s, from);
    let l = lower_seq(s.subrange(from, j));
    if j == s.len() {
        match key_of_lower(l) {
            Some(k) => Ok(Accelerator { alt, ctrl, shift, meta, key: k }),
            None => Err(
                if l.len() == 0 {
                    AccelParseError::MissingKey
                } else {
                    AccelParseError::UnknownKey
                },
            ),
        }
    } else {
        match modifier_of_lower(l) {
            Some(Modifier::Alt) => if alt {
                Err(AccelParseError::DuplicateModifier)
            } else {
                parse_from(s, j + 1, true, ctrl, shift, meta)
            },
            Some(Modifier::Ctrl) => if ctrl {
                Err(AccelParseError::DuplicateModifier)
            } else {
                parse_from(s, j + 1, alt, true, shift, meta)
            },
            Some(Modifier::Shift) => if shift {
                Err(AccelParseError::DuplicateModifier)
            } else {
                parse_from(s, j + 1, alt, ctrl, true, meta)
            },
            Some(Modifier::Meta) => if meta {
                Err(AccelParseError::DuplicateModifier)
            } else {
                parse_from(s, j + 1, alt, ctrl, shift, true)
            },
            None => Err(AccelParseError::UnknownModifier),
        }
    }
}

#[via_fn]
proof fn parse_from_decreases(s: Seq<u8>, from: int, alt: bool, ctrl: bool, shift: bool, meta: bool) {
    lemma_sep_after_bounds(s, from);
}

/// The parse of a whole accelerator string, over its bytes.
pub open spec fn parse_spec(s: Seq<u8>) -> Result<Accelerator, AccelParseError> {
    if s.len() == 0 {
        Err(AccelParseError::EmptyInput)
    } else {
        parse_from(s, 0, false, false, false, false)
    }
}

fn next_sep(s: &[u8], from: usize) -> (j: usize)
    requires
        from <= s@.len(),
    ensures
        j == sep_after(s@, from as int),
        from <= j <= s@.len(),
    decreases s@.len() - from,
{
    if from == s.len() {
        from
    } else if s[from] == 43u8 {
        from
    } else {
        next_sep(s, from + 1)
    }
}

fn lower_token(s: &[u8], from: usize, to: usize) -> (l: Vec<u8>)
    requires
        from <= to <= s@.len(),
    ensures
        l@ == lower_seq(s@.subrange(from as int, to as int)),
{
    let mut l: Vec<u8> = Vec::new();
    let mut k = from;
    proof {
        assert(l@ =~= lower_seq(s@.subrange(from as int, from as int)));
    }
    while k < to
        invariant
            from <= k <= to <= s@.len(),
            l@ == lower_seq(s@.subrange(from as int, k as int)),
        decreases to - k,
    {
        let b = s[k];
        let low = if b >= 65u8 && b <= 90u8 {
            b + 0x20
        } else {
            b
        };
        l.push(low);
        proof {
            assert(l@ =~= lower_seq(s@.subrange(from as int, k + 1)));
        }
        k = k + 1;
    }
    l
}

fn modifier_of(l: &Vec<u8>) -> (r: Option<Modifier>)
    ensures
        r == modifier_of_lower(l@),
{
    let n = l.len();
    let r = if n == 3 && l[0] == 97u8 && l[1] == 108u8 && l[2] == 116u8 {
        Some(Modifier::Alt)
    } else if n == 6 && l[0] == 111u8 && l[1] == 112u8 && l[2] == 116u8 && l[3] == 105u8 && l[4] == 111u8
        && l[5] == 110u8 {
        Some(Modifier::Alt)
    } else if n == 4 && l[0] == 99u8 && l[1] == 116u8 && l[2] == 114u8 && l[3] == 108u8 {
        Some(Modifier::Ctrl)
    } else if n == 7 && l[0] == 99u8 && l[1] == 111u8 && l[2] == 110u8 && l[3] == 116u8 && l[4] == 114u8
        && l[5] == 111u8 && l[6] == 108u8 {
        Some(Modifier::Ctrl)
    } else if n == 5 && l[0] == 115u8 && l[1] == 104u8 && l[2] == 105u8 && l[3] == 102u8 && l[4]
        == 116u8 {
        Some(Modifier::Shift)
    } else if n == 5 && l[0] == 115u8 && l[1] == 117u8 && l[2] == 112u8 && l[3] == 101u8 && l[4]
        == 114u8 {
        Some(Modifier::Meta)
    } else if n == 3 && l[0] == 99u8 && l[1] == 109u8 && l[2] == 100u8 {
        Some(Modifier::Meta)
    } else if n == 4 && l[0] == 109u8 && l[1] == 101u8 && l[2] == 116u8 && l[3] == 97u8 {
        Some(Modifier::Meta)
    } else {
        None
    };
    proof {
        if l@.len() == 3 && l@[0] == 97u8 && l@[1] == 108u8 && l@[2] == 116u8 {
            assert(l@ =~= kw_alt());
        }
        if l@.len() == 6 && l@[0] == 111u8 && l@[1] == 112u8 && l@[2] == 116u8 && l@[3] == 105u8 && l@[4]
            == 111u8 && l@[5] == 110u8 {
            assert(l@ =~= kw_option());
        }
        if l@.len() == 4 && l@[0] == 99u8 && l@[1] == 116u8 && l@[2] == 114u8 && l@[3] == 108u8 {
            assert(l@ =~= kw_ctrl());
        }
        if l@.len() == 7 && l@[0] == 99u8 && l@[1] == 111u8 && l@[2] == 110u8 && l@[3] == 116u8 && l@[4]
            == 114u8 && l@[5] == 111u8 && l@[6] == 108u8 {
            assert(l@ =~= kw_control());
        }
        if l@.len() == 5 && l@[0] == 115u8 && l@[1] == 104u8 && l@[2] == 105u8 && l@[3] == 102u8 && l@[4]
            == 116u8 {
            assert(l@ =~= kw_shift());
        }
        if l@.len() == 5 && l@[0] == 115u8 && l@[1] == 117u8 && l@[2] == 112u8 && l@[3] == 101u8 && l@[4]
            == 114u8 {
            assert(l@ =~= kw_super());
        }
        if l@.len() == 3 && l@[0] == 99u8 && l@[1] == 109u8 && l@[2] == 100u8 {
            assert(l@ =~= kw_cmd());
        }
        if l@.len() == 4 && l@[0] == 109u8 && l@[1] == 101u8 && l@[2] == 116u8 && l@[3] == 97u8 {
            assert(l@ =~= kw_meta());
        }
    }
    r
}

fn key_of(l: &Vec<u8>) -> (r: Option<KeyCode>)
    ensures
        r == key_of_lower(l@),
{
    let n = l.len();
    let r = if n == 1 && (l[0] >= 48u8 && l[0] <= 57u8 || l[0] >= 97u8 && l[0] <= 122u8) {
        let b = l[0];
        Some(
            KeyCode::Character(
                if b >= 97u8 && b <= 122u8 {
                    b - 0x20
                } else {
                    b
                },
            ),
        )
    } else if n == 5 && l[0] == 115u8 && l[1] == 112u8 && l[2] == 97u8 && l[3] == 99u8 && l[4]
        == 101u8 {
        Some(KeyCode::Space)
    } else if n == 3 && l[0] == 116u8 && l[1] == 97u8 && l[2] == 98u8 {
        Some(KeyCode::Tab)
    } else if n == 5 && l[0] == 101u8 && l[1] == 110u8 && l[2] == 116u8 && l[3] == 101u8 && l[4]
        == 114u8 {
        Some(KeyCode::Enter)
    } else if n == 6 && l[0] == 114u8 && l[1] == 101u8 && l[2] == 116u8 && l[3] == 117u8 && l[4] == 114u8
        && l[5] == 110u8 {
        Some(KeyCode::Enter)
    } else if n == 6 && l[0] == 101u8 && l[1] == 115u8 && l[2] == 99u8 && l[3] == 97u8 && l[4] == 112u8
        && l[5] == 101u8 {
        Some(KeyCode::Escape)
    } else if n == 3 && l[0] == 101u8 && l[1] == 115u8 && l[2] == 99u8 {
        Some(KeyCode::Escape)
    } else if n == 2 && l[0] == 102u8 && l[1] >= 49u8 && l[1] <= 57u8 {
        Some(KeyCode::Function(l[1] - 48u8))
    } else if n == 3 && l[0] == 102u8 && l[1] == 49u8 && l[2] >= 48u8 && l[2] <= 50u8 {
        Some(KeyCode::Function(10 + l[2] - 48u8))
    } else {
        None
    };
    proof {
        if l@.len() == 5 && l@[0] == 115u8 && l@[1] == 112u8 && l@[2] == 97u8 && l@[3] == 99u8 && l@[4]
            == 101u8 {
            assert(l@ =~= kw_space());
        }
        if l@.len() == 3 && l@[0] == 116u8 && l@[1] == 97u8 && l@[2] == 98u8 {
            assert(l@ =~= kw_tab());
        }
        if l@.len() == 5 && l@[0] == 101u8 && l@[1] == 110u8 && l@[2] == 116u8 && l@[3] == 101u8 && l@[4]
            == 114u8 {
            assert(l@ =~= kw_enter());
        }
        if l@.len() == 6 && l@[0] == 114u8 && l@[1] == 101u8 && l@[2] == 116u8 && l@[3] == 117u8 && l@[4]
            == 114u8 && l@[5] == 110u8 {
            assert(l@ =~= kw_return());
        }
        if l@.len() == 6 && l@[0] == 101u8 && l@[1] == 115u8 && l@[2] == 99u8 && l@[3] == 97u8 && l@[4]
            == 112u8 && l@[5] == 101u8 {
            assert(l@ =~= kw_escape());
        }
        if l@.len() == 3 && l@[0] == 101u8 && l@[1] == 115u8 && l@[2] == 99u8 {
            assert(l@ =~= kw_esc());
        }
    }
    r
}

fn parse_tokens(s: &[u8], from: usize, alt: bool, ctrl: bool, shift: bool, meta: bool) -> (r:
    Result<Accelerator, AccelParseError>)
    requires
        from <= s@.len(),
    ensures
        r == parse_from(s@, from as int, alt, ctrl, shift, meta),
    decreases s@.len() - from,
{
    let j = next_sep(s, from);
    let l = lower_token(s, from, j);
    if j == s.len() {
        match key_of(&l) {
            Some(k) => Ok(Accelerator { alt, ctrl, shift, meta, key: k }),
            None => Err(
                if l.len() == 0 {
                    AccelParseError::MissingKey
                } else {
                    AccelParseError::UnknownKey
                },
            ),
        }
    } else {
        match modifier_of(&l) {
            Some(Modifier::Alt) => if alt {
                Err(AccelParseError::DuplicateModifier)
            } else {
                parse_tokens(s, j + 1, true, ctrl, shift, meta)
            },
            Some(Modifier::Ctrl) => if ctrl {
                Err(AccelParseError::DuplicateModifier)
            } else {
                parse_tokens(s, j + 1, alt, true, shift, meta)
            },
            Some(Modifier::Shift) => if shift {
                Err(AccelParseError::DuplicateModifier)
            } else {
                parse_tokens(s, j + 1, alt, ctrl, true, meta)
            },
            Some(Modifier::Meta) => if meta {
                Err(AccelParseError::DuplicateModifier)
            } else {
                parse_tokens(s, j + 1, alt, ctrl, shift, true)
            },
            None => Err(AccelParseError::UnknownModifier),
        }
    }
}

/// Parse an accelerator string into its canonical modifier set and key, or
/// say exactly why it is rejected.
pub fn parse_accelerator(s: &str) -> (r: Result<Accelerator, AccelParseError>)
    ensures
        r == parse_spec(s.spec_bytes()),
{
    let bytes = s.as_bytes();
    if bytes.len() == 0 {
        Err(AccelParseError::EmptyInput)
    } else {
        parse_tokens(bytes, 0, false, false, false, false)
    }
}

/// A canonical key: an upper-case letter or digit, or a function key
/// numbered 1 through 12.
pub open spec fn key_wf(k: KeyCode) -> bool {
    match k {
        KeyCode::Character(b) => is_ascii_digit(b) || is_ascii_upper(b),
        KeyCode::Function(n) => 1 <= n <= 12,
        _ => true,
    }
}

proof fn lemma_key_of_lower_wf(l: Seq<u8>)
    ensures
        key_of_lower(l) matches Some(k) ==> key_wf(k),
{
}

proof fn lemma_parse_from_wf(s: Seq<u8>, from: int, alt: bool, ctrl: bool, shift: bool, meta: bool)
    requires
        0 <= from <= s.len(),
    ensures
        parse_from(s, from, alt, ctrl, shift, meta) matches Ok(a) ==> key_wf(a.key),
    decreases s.len() - from,
{
    lemma_sep_after_bounds(s, from);
    let j = sep_after(s, from);
    let l = lower_seq(s.subrange(from, j));
    if j == s.len() {
        lemma_key_of_lower_wf(l);
    } else {
        match modifier_of_lower(l) {
            Some(Modifier::Alt) => {
                if !alt {
                    lemma_parse_from_wf(s, j + 1, true, ctrl, shift, meta);
                }
            },
            Some(Modifier::Ctrl) => {
                if !ctrl {
                    lemma_parse_from_wf(s, j + 1, alt, true, shift, meta);
                }
            },
            Some(Modifier::Shift) => {
                if !shift {
                    lemma_parse_from_wf(s, j + 1, alt, ctrl, true, meta);
                }
            },
            Some(Modifier::Meta) => {
                if !meta {
                    lemma_parse_from_wf(s, j + 1, alt, ctrl, shift, true);
                }
            },
            None => {
            },
        }
    }
}

/// Every accelerator the parser accepts carries a canonical key.
pub proof fn lemma_parse_spec_wf(s: Seq<u8>)
    ensures
        parse_spec(s) matches Ok(a) ==> key_wf(a.key),
{
    if s.len() > 0 {
        lemma_parse_from_wf(s, 0, false, false, false, false);
    }
}

} // verus!
