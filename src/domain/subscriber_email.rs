use vstd::prelude::*;
use vstd::string::*;

verus! {

/// A character of Unicode general category `Cc` (what `char::is_control` accepts).
pub open spec fn is_control(c: char) -> bool {
    (c as u32) <= 0x1f || (0x7f <= (c as u32) && (c as u32) <= 0x9f)
}

/// `at` is the position of the only `@` of `s`, with a non-empty local part
/// before it and a domain part after it that holds at least one `.`.
pub open spec fn splits_at(s: Seq<char>, at: int) -> bool {
    &&& 0 < at < s.len()
    &&& s[at] == '@'
    &&& forall|j: int| 0 <= j < s.len() && j != at ==> s[j] != '@'
    &&& exists|k: int| at < k < s.len() && s[k] == '.'
}

/// The shape every address must have: one separator between a non-empty local
/// part and a dotted domain, and no control characters anywhere.
pub open spec fn has_address_shape(s: Seq<char>) -> bool {
    &&& exists|at: int| splits_at(s, at)
    &&& forall|i: int| 0 <= i < s.len() ==> !is_control(s[i])
}

/// What `validator::validate_email` answers for `s` (HTML5 address syntax).
pub uninterp spec fn email_syntax_ok(s: Seq<char>) -> bool;

/// The strings that `SubscriberEmail::parse` accepts.
pub open spec fn is_valid_email(s: Seq<char>) -> bool {
    has_address_shape(s) && email_syntax_ok(s)
}

/// Relies on `validator::validate_email`: its verdict depends on the string alone.
#[verifier::external_body]
fn email_syntax_check(s: &str) -> (r: bool)
    ensures
        r == email_syntax_ok(s@),
{
    validator::validate_email(s)
}

/// Checks the address shape in one pass over the characters.
pub fn check_address_shape(s: &str) -> (r: bool)
    ensures
        r == has_address_shape(s@),
{
    let n = s.unicode_len();
    let mut i: usize = 0;
    let mut at: Option<usize> = None;
    let mut dot_after_at = false;
    while i < n
        invariant
            n == s@.len(),
            i <= n,
            forall|j: int| 0 <= j < i ==> !is_control(s@[j]),
            at is None ==> forall|j: int| 0 <= j < i ==> s@[j] != '@',
            at is Some ==> {
                let a = at->Some_0 as int;
                &&& a < i
                &&& s@[a] == '@'
                &&& forall|j: int| 0 <= j < i && j != a ==> s@[j] != '@'
                &&& dot_after_at == exists|k: int| a < k < i && s@[k] == '.'
            },
        decreases n - i,
    {
        let c = s.get_char(i);
        if (c as u32) <= 0x1f || (0x7f <= (c as u32) && (c as u32) <= 0x9f) {
            assert(is_control(s@[i as int]));
            return false;
        }
        if c == '@' {
            match at {
                Some(a) => {
                    assert forall|p: int| !splits_at(s@, p) by {
                        if splits_at(s@, p) {
                            if p == a {
                                assert(s@[i as int] != '@');
                            } else {
                                assert(s@[a as int] != '@');
                            }
                        }
                    }
                    return false;
                },
                None => {
                    at = Some(i);
                    dot_after_at = false;
                },
            }
        } else if c == '.' {
            if at.is_some() {
                dot_after_at = true;
            }
        }
        i = i + 1;
    }
    match at {
        None => {
            assert forall|p: int| !splits_at(s@, p) by {
                if splits_at(s@, p) {
                    assert(s@[p] == '@');
                }
            }
            false
        },
        Some(a) => {
            if a == 0 || !dot_after_at {
                assert forall|p: int| !splits_at(s@, p) by {
                    if splits_at(s@, p) {
                        assert(p == a);
                    }
                }
                false
            } else {
                assert(splits_at(s@, a as int));
                true
            }
        },
    }
}

/// Why a subscriber's details were turned down.
#[derive(Debug, Clone, Copy, PartialEq, Eq, Structural)]
pub enum ValidationError {
    InvalidEmail,
    InvalidName,
}

/// An email address that has passed validation; `parse` is the only way to make one.
#[derive(Debug)]
pub struct SubscriberEmail(String);

impl View for SubscriberEmail {
    type V = Seq<char>;

    closed spec fn view(&self) -> Seq<char> {
        self.0@
    }
}

impl SubscriberEmail {
    #[verifier::type_invariant]
    closed spec fn inv(self) -> bool {
        is_valid_email(self.0@)
    }

    /// Accepts `s` exactly when it has the address shape and passes the
    /// general email syntax check; the address keeps `s` unchanged.
    pub fn parse(s: &str) -> (r: Result<SubscriberEmail, ValidationError>)
        ensures
            r is Ok <==> is_valid_email(s@),
            r is Ok ==> r->Ok_0@ == s@,
            r is Err ==> r->Err_0 == ValidationError::InvalidEmail,
    {
        if check_address_shape(s) && email_syntax_check(s) {
            Ok(SubscriberEmail(String::from_str(s)))
        } else {
            Err(ValidationError::InvalidEmail)
        }
    }

    /// The address as it was given to `parse`.
    pub fn as_str(&self) -> (r: &str)
        ensures
            r@ == self@,
            is_valid_email(r@),
    {
        proof {
            use_type_invariant(self);
        }
        self.0.as_str()
    }

    /// Whether two addresses are written the same way.
    pub fn same_address(&self, other: &SubscriberEmail) -> (r: bool)
        ensures
            r == (self@ == other@),
    {
        self.0 == other.0
    }
}

impl AsRef<str> for SubscriberEmail {
    fn as_ref(&self) -> (r: &str)
        ensures
            r@ == self@,
            is_valid_email(r@),
    {
        proof {
            use_type_invariant(self);
        }
        self.0.as_str()
    }
}

/// An address written as a non-empty local part, one `@` and a dotted domain,
/// with no control characters, is valid whenever it passes the general syntax check.
pub proof fn lemma_well_shaped_address_accepted(local: Seq<char>, domain: Seq<char>)
    requires
        local.len() > 0,
        !local.contains('@'),
        !domain.contains('@'),
        domain.contains('.'),
        forall|i: int| 0 <= i < local.len() ==> !is_control(local[i]),
        forall|i: int| 0 <= i < domain.len() ==> !is_control(domain[i]),
        email_syntax_ok(local + seq!['@'] + domain),
    ensures
        is_valid_email(local + seq!['@'] + domain),
{
    let s = local + seq!['@'] + domain;
    let at = local.len() as int;
    assert(s[at] == '@');
    assert forall|j: int| 0 <= j < s.len() && j != at implies s[j] != '@' by {
        if j < at {
            assert(s[j] == local[j]);
        } else {
            assert(s[j] == domain[j - at - 1]);
        }
    }
    let k = choose|k: int| 0 <= k < domain.len() && domain[k] == '.';
    assert(s[at + 1 + k] == '.');
    assert(splits_at(s, at));
    assert forall|i: int| 0 <= i < s.len() implies !is_control(s[i]) by {
        if i < at {
            assert(s[i] == local[i]);
        } else if i > at {
            assert(s[i] == domain[i - at - 1]);
        }
    }
}

/// A string without `@` is never an address.
pub proof fn lemma_no_separator_rejected(s: Seq<char>)
    requires
        !s.contains('@'),
    ensures
        !is_valid_email(s),
{
    if has_address_shape(s) {
        let at = choose|at: int| splits_at(s, at);
        assert(s[at] == '@');
    }
}

/// A string whose local part is empty, because it starts with `@`, is never an address.
pub proof fn lemma_empty_local_part_rejected(s: Seq<char>)
    requires
        s.len() > 0,
        s[0] == '@',
    ensures
        !is_valid_email(s),
{
    if has_address_shape(s) {
        let at = choose|at: int| splits_at(s, at);
        assert(s[0] != '@');
    }
}

} // verus!
