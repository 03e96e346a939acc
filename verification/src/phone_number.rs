//! A phone-number value type for database text columns.
//!
//! Parsing first normalizes the text — blank input means no number, a number
//! without a leading plus is given the North American `+1` prefix, and
//! dashes, parentheses and spaces are stripped — and then hands the
//! normalized text to the phonenumber library. Formatting renders the
//! international form, or the empty string for no number.
use vstd::prelude::*;
use vstd::string::*;

use phonenumber::PhoneNumber as RawPhoneNumber;

verus! {

/// A phone number, possibly absent.
#[derive(Debug, Default, Clone, PartialEq, Eq, Hash)]
pub struct PhoneNumber(pub Option<RawPhoneNumber>);

#[verifier::external_type_specification]
#[verifier::external_body]
pub struct ExPhoneNumber(RawPhoneNumber);

#[verifier::external_type_specification]
#[verifier::external_body]
pub struct ExParseError(phonenumber::ParseError);

/// The error for text that does not normalize to a parseable phone number:
/// the normalized input and the parser's description.
#[derive(Debug, Clone, PartialEq)]
pub struct PhoneError {
    pub input: Vec<char>,
    pub detail: String,
}

/// A name for the Unicode White_Space property of a character.
pub uninterp spec fn char_is_whitespace(c: char) -> bool;

/// A name for whether the phonenumber library parses this text, with no
/// country hint, as a valid phone number; it depends on the text alone.
pub uninterp spec fn phone_parse_ok(s: Seq<char>) -> bool;

/// Relies on char::is_whitespace: the Unicode White_Space property, which
/// depends on the character alone and does not hold of `+`.
#[verifier::external_body]
fn ws_char(c: char) -> (r: bool)
    ensures
        r == char_is_whitespace(c),
        c == '+' ==> !r,
{
    c.is_whitespace()
}

/// Relies on phonenumber::parse with no country hint: whether the text
/// parses as a phone number depends on the text alone.
#[verifier::external_body]
fn parse_phone(chars: &Vec<char>) -> (r: Result<RawPhoneNumber, phonenumber::ParseError>)
    ensures
        r is Ok <==> phone_parse_ok(chars@),
{
    let s: String = chars.iter().collect();
    phonenumber::parse(None, &s)
}

/// Relies on phonenumber's Formatter in international mode, rendered through
/// its Display implementation.
#[verifier::external_body]
fn format_international(p: &RawPhoneNumber) -> String {
    p.format().mode(phonenumber::Mode::International).to_string()
}

/// Relies on the Display implementation of phonenumber's parse error.
#[verifier::external_body]
fn parse_error_text(e: &phonenumber::ParseError) -> String {
    format!("{e}")
}

/// Characters kept by normalization: everything but dashes, parentheses and
/// spaces.
pub open spec fn keep_char(c: char) -> bool {
    c != '-' && c != '(' && c != ')' && c != ' '
}

/// The text with dashes, parentheses and spaces stripped.
pub open spec fn strip_chars(s: Seq<char>) -> Seq<char> {
    s.filter(|c: char| keep_char(c))
}

/// Text that is entirely whitespace (or empty): it stands for no number.
pub open spec fn blank(s: Seq<char>) -> bool {
    forall|i: int| 0 <= i < s.len() ==> char_is_whitespace(#[trigger] s[i])
}

/// The first non-whitespace character of the text is a plus sign.
pub open spec fn trimmed_starts_plus(s: Seq<char>) -> bool {
    exists|i: int|
        0 <= i < s.len() && #[trigger] s[i] == '+' && (forall|j: int|
            0 <= j < i ==> char_is_whitespace(#[trigger] s[j]))
}

/// The text handed to the parser: stripped as it stands when it already
/// carries a leading plus, and prefixed with `+1` before stripping otherwise.
pub open spec fn normalize(s: Seq<char>) -> Seq<char> {
    if trimmed_starts_plus(s) {
        strip_chars(s)
    } else {
        seq!['+', '1'] + strip_chars(s)
    }
}

proof fn lemma_strip_push(t: Seq<char>, c: char)
    ensures
        strip_chars(t.push(c)) == if keep_char(c) {
            strip_chars(t).push(c)
        } else {
            strip_chars(t)
        },
{
    reveal(Seq::filter);
    assert(t.push(c).drop_last() =~= t);
    assert(t.push(c).last() == c);
}

impl PhoneNumber {
    /// Parse a phone number from text. Blank text yields the absent number.
    /// Otherwise the text is normalized and parsed: a parseable number is
    /// returned, and anything else yields an error carrying the normalized
    /// input and the parser's description.
    pub fn from_text(s: &str) -> (r: Result<PhoneNumber, PhoneError>)
        ensures
            blank(s@) ==> r == Result::<PhoneNumber, PhoneError>::Ok(PhoneNumber(None)),
            !blank(s@) ==> (r is Ok <==> phone_parse_ok(normalize(s@))),
            !blank(s@) && r is Ok ==> r->Ok_0.0 is Some,
            r is Err ==> r->Err_0.input@ == normalize(s@),
    {
        let n = s.unicode_len();
        let mut i: usize = 0;
        let mut found = false;
        let mut saw_plus = false;
        while i < n && !found
            invariant
                n == s@.len(),
                i <= n,
                !found ==> forall|j: int|
                    0 <= j < i ==> char_is_whitespace(#[trigger] s@[j]) && s@[j] != '+',
                !found ==> !saw_plus,
                found ==> i < n && !char_is_whitespace(s@[i as int]) && (forall|j: int|
                    0 <= j < i ==> char_is_whitespace(#[trigger] s@[j]) && s@[j] != '+') && (
                saw_plus <==> s@[i as int] == '+'),
            decreases n - i + (if found { 0int } else { 1int }),
        {
            let c = s.get_char(i);
            if ws_char(c) {
                i = i + 1;
            } else {
                found = true;
                if c == '+' {
                    saw_plus = true;
                }
            }
        }
        if !found {
            return Result::Ok(PhoneNumber(None));
        }
        proof {
            assert(!blank(s@));
            if saw_plus {
                assert(trimmed_starts_plus(s@));
            }
            if !saw_plus && trimmed_starts_plus(s@) {
                let w = choose|w: int|
                    0 <= w < s@.len() && #[trigger] s@[w] == '+' && (forall|j: int|
                        0 <= j < w ==> char_is_whitespace(#[trigger] s@[j]));
                assert(false);
            }
        }
        let mut out: Vec<char> = Vec::new();
        if !saw_plus {
            out.push('+');
            out.push('1');
        }
        let ghost pfx: Seq<char> = if trimmed_starts_plus(s@) {
            Seq::<char>::empty()
        } else {
            seq!['+', '1']
        };
        proof {
            assert(s@.take(0) =~= Seq::<char>::empty());
            assert(strip_chars(Seq::<char>::empty()) =~= Seq::<char>::empty());
            assert(out@ =~= pfx + strip_chars(s@.take(0)));
        }
        let mut k: usize = 0;
        while k < n
            invariant
                n == s@.len(),
                k <= n,
                out@ == pfx + strip_chars(s@.take(k as int)),
            decreases n - k,
        {
            let c = s.get_char(k);
            if c != '-' && c != '(' && c != ')' && c != ' ' {
                out.push(c);
            }
            k = k + 1;
            proof {
                assert(s@.take(k as int) =~= s@.take(k as int - 1).push(s@[k as int - 1]));
                lemma_strip_push(s@.take(k as int - 1), s@[k as int - 1]);
                assert(out@ =~= pfx + strip_chars(s@.take(k as int)));
            }
        }
        proof {
            assert(s@.take(n as int) =~= s@);
            assert(out@ == normalize(s@));
        }
        let parsed = parse_phone(&out);
        match parsed {
            Result::Ok(p) => Result::Ok(PhoneNumber(Some(p))),
            Result::Err(e) => {
                let detail = parse_error_text(&e);
                Result::Err(PhoneError { input: out, detail })
            },
        }
    }

    /// The international text form of the number, or the empty string for
    /// the absent number.
    pub fn to_text(&self) -> (r: String)
        ensures
            self.0 is None ==> r@ == Seq::<char>::empty(),
    {
        match &self.0 {
            None => String::new(),
            Some(p) => format_international(p),
        }
    }
}

impl From<RawPhoneNumber> for PhoneNumber {
    fn from(id: RawPhoneNumber) -> (r: PhoneNumber) {
        PhoneNumber(Some(id))
    }
}

impl vstd::std_specs::convert::FromSpecImpl<RawPhoneNumber> for PhoneNumber {
    open spec fn obeys_from_spec() -> bool {
        true
    }

    open spec fn from_spec(v: RawPhoneNumber) -> PhoneNumber {
        PhoneNumber(Some(v))
    }
}

} // verus!
