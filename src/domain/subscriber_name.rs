use vstd::prelude::*;
use vstd::string::*;

use crate::domain::subscriber_email::ValidationError;

verus! {

/// The longest name accepted, counted in grapheme clusters after trimming.
pub const MAX_NAME_GRAPHEMES: usize = 256;

/// A character with the Unicode `White_Space` property (what `char::is_whitespace` accepts).
pub open spec fn is_blank(c: char) -> bool {
    let u = c as u32;
    (0x09 <= u && u <= 0x0d) || u == 0x20 || u == 0x85 || u == 0xa0 || u == 0x1680
        || (0x2000 <= u && u <= 0x200a) || u == 0x2028 || u == 0x2029 || u == 0x202f
        || u == 0x205f || u == 0x3000
}

/// Characters a name may not hold.
pub open spec fn is_forbidden(c: char) -> bool {
    c == '/' || c == '(' || c == ')' || c == '"' || c == '<' || c == '>' || c == '\\' || c == '{'
        || c == '}'
}

/// `s[a..b]` is `s` without its leading and trailing whitespace.
pub open spec fn trim_bounds(s: Seq<char>, a: int, b: int) -> bool {
    &&& 0 <= a <= b <= s.len()
    &&& forall|i: int| 0 <= i < a ==> is_blank(s[i])
    &&& forall|i: int| b <= i < s.len() ==> is_blank(s[i])
    &&& a < b ==> !is_blank(s[a]) && !is_blank(s[b - 1])
}

/// How many grapheme clusters (extended) `unicode_segmentation` finds in `s`.
pub uninterp spec fn grapheme_len(s: Seq<char>) -> nat;

/// The strings that `SubscriberName::parse` accepts: something other than
/// whitespace, at most `MAX_NAME_GRAPHEMES` graphemes once trimmed, and no
/// forbidden character.
pub open spec fn is_valid_name(s: Seq<char>) -> bool {
    &&& exists|a: int, b: int|
        trim_bounds(s, a, b) && a < b && grapheme_len(s.subrange(a, b)) <= MAX_NAME_GRAPHEMES
    &&& forall|i: int| 0 <= i < s.len() ==> !is_forbidden(s[i])
}

/// Relies on `unicode_segmentation::UnicodeSegmentation::graphemes` (extended
/// clusters): the number of clusters, which depends on the string alone.
#[verifier::external_body]
fn count_graphemes(s: &str) -> (r: usize)
    ensures
        r == grapheme_len(s@),
{
    unicode_segmentation::UnicodeSegmentation::graphemes(s, true).count()
}

fn blank(c: char) -> (r: bool)
    ensures
        r == is_blank(c),
{
    let u = c as u32;
    (0x09 <= u && u <= 0x0d) || u == 0x20 || u == 0x85 || u == 0xa0 || u == 0x1680
        || (0x2000 <= u && u <= 0x200a) || u == 0x2028 || u == 0x2029 || u == 0x202f
        || u == 0x205f || u == 0x3000
}

fn forbidden(c: char) -> (r: bool)
    ensures
        r == is_forbidden(c),
{
    c == '/' || c == '(' || c == ')' || c == '"' || c == '<' || c == '>' || c == '\\' || c == '{'
        || c == '}'
}

/// Trim bounds, where they leave something, are unique.
proof fn lemma_trim_bounds_unique(s: Seq<char>, a: int, b: int, c: int, d: int)
    requires
        trim_bounds(s, a, b),
        trim_bounds(s, c, d),
        a < b,
        c < d,
    ensures
        a == c,
        b == d,
{
    if a < c {
        assert(is_blank(s[a]));
    }
    if c < a {
        assert(is_blank(s[c]));
    }
    if b < d {
        assert(is_blank(s[d - 1]));
    }
    if d < b {
        assert(is_blank(s[b - 1]));
    }
}

/// Where `s` has no trim bounds leaving something, it is all whitespace.
proof fn lemma_all_blank_has_no_content(s: Seq<char>)
    requires
        forall|i: int| 0 <= i < s.len() ==> is_blank(s[i]),
    ensures
        forall|a: int, b: int| trim_bounds(s, a, b) ==> a == b,
{
    assert forall|a: int, b: int| trim_bounds(s, a, b) implies a == b by {
        if a < b {
            assert(!is_blank(s[a]));
        }
    }
}

/// A subscriber's display name that has passed validation; `parse` is the only
/// way to make one.
#[derive(Debug)]
pub struct SubscriberName(String);

impl View for SubscriberName {
    type V = Seq<char>;

    closed spec fn view(&self) -> Seq<char> {
        self.0@
    }
}

impl SubscriberName {
    #[verifier::type_invariant]
    closed spec fn inv(self) -> bool {
        is_valid_name(self.0@)
    }

    /// Accepts `s` exactly when it is a valid name; the name keeps `s` unchanged.
    pub fn parse(s: &str) -> (r: Result<SubscriberName, ValidationError>)
        ensures
            r is Ok <==> is_valid_name(s@),
            r is Ok ==> r->Ok_0@ == s@,
            r is Err ==> r->Err_0 == ValidationError::InvalidName,
    {
        let n = s.unicode_len();
        let mut i: usize = 0;
        while i < n
            invariant
                n == s@.len(),
                i <= n,
                forall|j: int| 0 <= j < i ==> !is_forbidden(s@[j]),
            decreases n - i,
        {
            if forbidden(s.get_char(i)) {
                return Err(ValidationError::InvalidName);
            }
            i = i + 1;
        }
        let mut a: usize = 0;
        while a < n && blank(s.get_char(a))
            invariant
                n == s@.len(),
                a <= n,
                forall|j: int| 0 <= j < a ==> is_blank(s@[j]),
            decreases n - a,
        {
            a = a + 1;
        }
        if a == n {
            proof {
                lemma_all_blank_has_no_content(s@);
            }
            return Err(ValidationError::InvalidName);
        }
        let mut b: usize = n;
        while b > a + 1 && blank(s.get_char(b - 1))
            invariant
                n == s@.len(),
                a < b <= n,
                forall|j: int| b <= j < n ==> is_blank(s@[j]),
            decreases b,
        {
            b = b - 1;
        }
        assert(trim_bounds(s@, a as int, b as int));
        let trimmed = s.substring_char(a, b);
        let g = count_graphemes(trimmed);
        if g <= MAX_NAME_GRAPHEMES {
            Ok(SubscriberName(String::from_str(s)))
        } else {
            assert forall|c: int, d: int|
                trim_bounds(s@, c, d) && c < d implies grapheme_len(s@.subrange(c, d))
                > MAX_NAME_GRAPHEMES by {
                lemma_trim_bounds_unique(s@, a as int, b as int, c, d);
            }
            Err(ValidationError::InvalidName)
        }
    }

    /// The name as it was given to `parse`.
    pub fn as_str(&self) -> (r: &str)
        ensures
            r@ == self@,
            is_valid_name(r@),
    {
        proof {
            use_type_invariant(self);
        }
        self.0.as_str()
    }
}

} // verus!
