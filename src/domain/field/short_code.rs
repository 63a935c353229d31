use vstd::prelude::*;
use rand::seq::SliceRandom;

use crate::domain::clip::ClipError;

verus! {

/// The characters a generated short code is drawn from.
pub open spec fn is_code_char(c: char) -> bool {
    c == 'a' || c == 'b' || c == 'c' || c == 'd' || c == '1' || c == '2' || c == '3' || c == '4'
}

/// Length of a generated short code.
pub const CODE_LEN: usize = 10;

/// The identifier under which a clip is stored and retrieved. Any string is a
/// valid code; two codes are the same code when their strings are equal.
#[derive(Debug)]
pub struct ShortCode(pub String);

impl View for ShortCode {
    type V = Seq<char>;

    open spec fn view(&self) -> Seq<char> {
        self.0@
    }
}

/// Relies on rand's `SliceRandom::choose` with the thread-local generator:
/// `None` for an empty slice, otherwise one of the slice's elements.
#[verifier::external_body]
fn choose_char(chars: &[char]) -> (r: Option<char>)
    ensures
        r is None <==> chars@.len() == 0,
        r matches Some(c) ==> chars@.contains(c),
{
    chars.choose(&mut rand::thread_rng()).copied()
}

/// Relies on `String::push`: appends one character.
pub assume_specification[ String::push ](s: &mut String, ch: char)
    ensures
        final(s)@ == old(s)@.push(ch),
;

impl ShortCode {
    /// A fresh random code of `CODE_LEN` characters drawn from `a b c d 1 2 3 4`.
    pub fn new() -> (r: Self)
        ensures
            r@.len() == CODE_LEN as int,
            forall|i: int| 0 <= i < r@.len() ==> is_code_char(#[trigger] r@[i]),
    {
        let allowed_chars: [char; 8] = ['a', 'b', 'c', 'd', '1', '2', '3', '4'];
        let mut short_code = String::new();
        let mut n: usize = 0;
        while n < CODE_LEN
            invariant
                n <= CODE_LEN,
                short_code@.len() == n,
                forall|i: int| 0 <= i < short_code@.len() ==> is_code_char(#[trigger] short_code@[i]),
                allowed_chars@ == seq!['a', 'b', 'c', 'd', '1', '2', '3', '4'],
            decreases CODE_LEN - n,
        {
            let c = match choose_char(allowed_chars.as_slice()) {
                Some(c) => c,
                None => {
                    // the slice of allowed characters is never empty
                    assert(false);
                    'a'
                },
            };
            short_code.push(c);
            n = n + 1;
        }
        ShortCode(short_code)
    }

    pub fn as_str(&self) -> (r: &str)
        ensures
            r@ == self@,
    {
        self.0.as_str()
    }

    pub fn into_inner(self) -> (r: String)
        ensures
            r@ == self@,
    {
        self.0
    }

    /// The code with exactly this text; any text is accepted.
    pub fn from_str(s: &str) -> (r: Result<Self, ClipError>)
        ensures
            r matches Ok(c) && c@ == s@,
    {
        Ok(ShortCode(s.to_owned()))
    }

    /// Whether two codes name the same clip: exact string equality.
    pub fn same_as(&self, other: &ShortCode) -> (r: bool)
        ensures
            r == (self@ == other@),
    {
        self.0 == other.0
    }
}

impl Clone for ShortCode {
    fn clone(&self) -> (r: Self)
        ensures
            r@ == self@,
    {
        ShortCode(self.0.clone())
    }
}

impl From<String> for ShortCode {
    fn from(code: String) -> (r: Self) {
        ShortCode(code)
    }
}

impl From<&str> for ShortCode {
    fn from(code: &str) -> (r: Self)
        ensures
            r@ == code@,
    {
        ShortCode(code.to_owned())
    }
}

// A spec function cannot build a `String` from a `&str`, so the conversion's
// result is stated by the `ensures` of `from` above rather than here.
impl vstd::std_specs::convert::FromSpecImpl<&str> for ShortCode {
    open spec fn obeys_from_spec() -> bool {
        false
    }

    open spec fn from_spec(code: &str) -> ShortCode {
        arbitrary()
    }
}

impl Default for ShortCode {
    fn default() -> (r: Self)
        ensures
            r@.len() == CODE_LEN as int,
            forall|i: int| 0 <= i < r@.len() ==> is_code_char(#[trigger] r@[i]),
    {
        ShortCode::new()
    }
}

impl vstd::std_specs::convert::FromSpecImpl<String> for ShortCode {
    open spec fn obeys_from_spec() -> bool {
        true
    }

    open spec fn from_spec(code: String) -> ShortCode {
        ShortCode(code)
    }
}

} // verus!
