//! Tracking numbers: a validated, trimmed identifier.
use vstd::prelude::*;

verus! {

pub open spec fn is_digit(c: char) -> bool {
    '0' <= c <= '9'
}

pub open spec fn is_letter(c: char) -> bool {
    ('a' <= c <= 'z') || ('A' <= c <= 'Z')
}

/// Every character of `s` in positions `lo..hi` is an ASCII digit.
pub open spec fn digits_between(s: Seq<char>, lo: int, hi: int) -> bool {
    forall|i: int| lo <= i < hi ==> is_digit(#[trigger] s[i])
}

/// Every character of `s` in positions `lo..hi` is an ASCII letter.
pub open spec fn letters_between(s: Seq<char>, lo: int, hi: int) -> bool {
    forall|i: int| lo <= i < hi ==> is_letter(#[trigger] s[i])
}

/// The accepted shapes of a tracking number, letters in either case:
/// 1 digit, 1 letter, 11 digits; 2 letters, 11 digits;
/// 2 letters, 9 digits, 2 letters; 15 digits; 14 digits, 1 letter.
pub open spec fn is_tracking_number(s: Seq<char>) -> bool {
    ||| s.len() == 13 && digits_between(s, 0, 1) && letters_between(s, 1, 2) && digits_between(s, 2, 13)
    ||| s.len() == 13 && letters_between(s, 0, 2) && digits_between(s, 2, 13)
    ||| s.len() == 13 && letters_between(s, 0, 2) && digits_between(s, 2, 11) && letters_between(s, 11, 13)
    ||| s.len() == 15 && digits_between(s, 0, 15)
    ||| s.len() == 15 && digits_between(s, 0, 14) && letters_between(s, 14, 15)
}

/// What `str::trim` leaves of a string.
pub uninterp spec fn trimmed(s: Seq<char>) -> Seq<char>;

/// Relies on `str::trim`: the string without its leading and trailing
/// whitespace, which depends on the characters alone.
#[verifier::external_body]
fn trim_whitespace(s: &str) -> (r: &str)
    ensures
        r@ == trimmed(s@),
{
    s.trim()
}

fn digits_in(s: &str, lo: usize, hi: usize) -> (r: bool)
    requires
        lo <= hi <= s@.len(),
    ensures
        r == digits_between(s@, lo as int, hi as int),
{
    let mut i: usize = lo;
    while i < hi
        invariant
            lo <= i <= hi <= s@.len(),
            digits_between(s@, lo as int, i as int),
        decreases hi - i,
    {
        let c = s.get_char(i);
        if !('0' <= c && c <= '9') {
            return false;
        }
        i = i + 1;
    }
    true
}

fn letters_in(s: &str, lo: usize, hi: usize) -> (r: bool)
    requires
        lo <= hi <= s@.len(),
    ensures
        r == letters_between(s@, lo as int, hi as int),
{
    let mut i: usize = lo;
    while i < hi
        invariant
            lo <= i <= hi <= s@.len(),
            letters_between(s@, lo as int, i as int),
        decreases hi - i,
    {
        let c = s.get_char(i);
        if !(('a' <= c && c <= 'z') || ('A' <= c && c <= 'Z')) {
            return false;
        }
        i = i + 1;
    }
    true
}

/// Whether `s`, as it stands, has one of the accepted shapes.
pub fn matches_format(s: &str) -> (r: bool)
    ensures
        r == is_tracking_number(s@),
{
    let n = s.unicode_len();
    if n == 13 {
        (digits_in(s, 0, 1) && letters_in(s, 1, 2) && digits_in(s, 2, 13))
            || (letters_in(s, 0, 2) && digits_in(s, 2, 13))
            || (letters_in(s, 0, 2) && digits_in(s, 2, 11) && letters_in(s, 11, 13))
    } else if n == 15 {
        digits_in(s, 0, 15) || (digits_in(s, 0, 14) && letters_in(s, 14, 15))
    } else {
        false
    }
}

/// A tracking number in one of the accepted shapes, kept in its original case.
pub struct TrackingNumber {
    tracking_number: String,
}

impl View for TrackingNumber {
    type V = Seq<char>;

    closed spec fn view(&self) -> Seq<char> {
        self.tracking_number@
    }
}

impl Clone for TrackingNumber {
    fn clone(&self) -> Self {
        proof {
            use_type_invariant(self);
        }
        TrackingNumber { tracking_number: self.tracking_number.clone() }
    }
}

impl TrackingNumber {
    #[verifier::type_invariant]
    spec fn well_formed(self) -> bool {
        is_tracking_number(self.tracking_number@)
    }

    /// Validates a string that is already trimmed: no whitespace is removed.
    pub fn from_trimmed(tracking_number: &str) -> (r: Result<TrackingNumber, &'static str>)
        ensures
            r is Ok <==> is_tracking_number(tracking_number@),
            r is Ok ==> r->Ok_0@ == tracking_number@,
    {
        if !matches_format(tracking_number) {
            Err("Tracking number did not match La Poste format")
        } else {
            Ok(TrackingNumber { tracking_number: tracking_number.to_string() })
        }
    }

    /// Trims surrounding whitespace, then validates what is left.
    pub fn try_from(tracking_number: &str) -> (r: Result<TrackingNumber, &'static str>)
        ensures
            r is Ok <==> is_tracking_number(trimmed(tracking_number@)),
            r is Ok ==> r->Ok_0@ == trimmed(tracking_number@),
    {
        let t = trim_whitespace(tracking_number);
        TrackingNumber::from_trimmed(t)
    }

    /// The identifier as a string.
    pub fn to_string(&self) -> (r: String)
        ensures
            r@ == self@,
            is_tracking_number(r@),
    {
        proof {
            use_type_invariant(self);
        }
        self.tracking_number.clone()
    }

    /// The identifier as a string, consuming it.
    pub fn into(self) -> (r: String)
        ensures
            r@ == self@,
            is_tracking_number(r@),
    {
        proof {
            use_type_invariant(&self);
        }
        self.tracking_number
    }
}

} // verus!
