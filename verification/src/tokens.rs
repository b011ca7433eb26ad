//! Value objects shared by the token lifecycle: device serial numbers and
//! opaque token values. Construction trims the input and rejects anything
//! that is empty or whitespace-only, so a value of one of these types never
//! holds empty or padded content.

use vstd::prelude::*;
use vstd::string::StrSliceExecFns;
use vstd::string::StringExecFns;

verus! {

/// Whether `c` has the Unicode `White_Space` property, as decided by
/// `char::is_whitespace`.
pub uninterp spec fn is_space(c: char) -> bool;

/// Relies on char::is_whitespace: the answer is a function of the character
/// alone (the Unicode `White_Space` property).
pub assume_specification[ char::is_whitespace ](c: char) -> (r: bool)
    ensures
        r == is_space(c),
;

/// `s` without its leading whitespace.
pub open spec fn trim_start_spec(s: Seq<char>) -> Seq<char>
    decreases s.len(),
{
    if s.len() == 0 {
        s
    } else if is_space(s[0]) {
        trim_start_spec(s.drop_first())
    } else {
        s
    }
}

/// `s` without its trailing whitespace.
pub open spec fn trim_end_spec(s: Seq<char>) -> Seq<char>
    decreases s.len(),
{
    if s.len() == 0 {
        s
    } else if is_space(s.last()) {
        trim_end_spec(s.drop_last())
    } else {
        s
    }
}

/// `s` without leading and trailing whitespace: what `str::trim` keeps.
pub open spec fn trim_spec(s: Seq<char>) -> Seq<char> {
    trim_end_spec(trim_start_spec(s))
}

/// A sequence that neither starts nor ends with whitespace.
pub open spec fn is_trimmed(s: Seq<char>) -> bool {
    s.len() > 0 ==> !is_space(s[0]) && !is_space(s.last())
}

proof fn lemma_trim_start_skip(s: Seq<char>, i: int)
    requires
        0 <= i <= s.len(),
        forall|k: int| 0 <= k < i ==> is_space(s[k]),
        i < s.len() ==> !is_space(s[i]),
    ensures
        trim_start_spec(s) == s.subrange(i, s.len() as int),
    decreases i,
{
    if i == 0 {
        assert(trim_start_spec(s) =~= s.subrange(0, s.len() as int));
    } else {
        let t = s.drop_first();
        assert(is_space(s[0]));
        assert forall|k: int| 0 <= k < i - 1 implies is_space(t[k]) by {
            assert(t[k] == s[k + 1]);
        }
        assert(i - 1 < t.len() ==> !is_space(t[i - 1]));
        lemma_trim_start_skip(t, i - 1);
        assert(t.subrange(i - 1, t.len() as int) =~= s.subrange(i, s.len() as int));
    }
}

proof fn lemma_trim_end_skip(s: Seq<char>, j: int)
    requires
        0 <= j <= s.len(),
        forall|k: int| j <= k < s.len() ==> is_space(s[k]),
        j > 0 ==> !is_space(s[j - 1]),
    ensures
        trim_end_spec(s) == s.subrange(0, j),
    decreases s.len() - j,
{
    if j == s.len() {
        assert(trim_end_spec(s) =~= s.subrange(0, j));
    } else {
        let t = s.drop_last();
        assert(is_space(s.last()));
        assert forall|k: int| j <= k < t.len() implies is_space(t[k]) by {
            assert(t[k] == s[k]);
        }
        assert(j > 0 ==> !is_space(t[j - 1]));
        lemma_trim_end_skip(t, j);
        assert(t.subrange(0, j) =~= s.subrange(0, j));
    }
}

/// When every character before `i` and from `j` on is whitespace, and the
/// characters at the borders `i` and `j - 1` are not, the trimmed form of `s`
/// is exactly the middle part.
proof fn lemma_trim_parts(s: Seq<char>, i: int, j: int)
    requires
        0 <= i <= j <= s.len(),
        forall|k: int| 0 <= k < i ==> is_space(s[k]),
        forall|k: int| j <= k < s.len() ==> is_space(s[k]),
        i < s.len() ==> !is_space(s[i]),
        i == s.len() ==> j == i,
        j > i ==> !is_space(s[j - 1]),
    ensures
        trim_spec(s) == s.subrange(i, j),
{
    lemma_trim_start_skip(s, i);
    let u = s.subrange(i, s.len() as int);
    assert forall|k: int| j - i <= k < u.len() implies is_space(u[k]) by {
        assert(u[k] == s[k + i]);
    }
    assert(j - i > 0 ==> !is_space(u[j - i - 1]));
    lemma_trim_end_skip(u, j - i);
    assert(u.subrange(0, j - i) =~= s.subrange(i, j));
}

/// The trimmed form of `value`, computed character by character.
fn trim_in(value: &str) -> (r: String)
    ensures
        r@ == trim_spec(value@),
        is_trimmed(r@),
{
    let n = value.unicode_len();
    let mut start: usize = 0;
    while start < n && value.get_char(start).is_whitespace()
        invariant
            0 <= start <= n,
            n == value@.len(),
            forall|k: int| 0 <= k < start ==> is_space(value@[k]),
        decreases n - start,
    {
        start += 1;
    }
    let mut end: usize = n;
    while end > start && value.get_char(end - 1).is_whitespace()
        invariant
            start <= end <= n,
            n == value@.len(),
            forall|k: int| end <= k < n ==> is_space(value@[k]),
        decreases end,
    {
        end -= 1;
    }
    proof {
        if start == n {
            assert(end == n);
        }
        lemma_trim_parts(value@, start as int, end as int);
    }
    let middle = value.substring_char(start, end);
    String::from_str(middle)
}

/// Whether two strings hold the same characters.
pub fn str_eq(a: &str, b: &str) -> (r: bool)
    ensures
        r == (a@ == b@),
{
    let n = a.unicode_len();
    if n != b.unicode_len() {
        return false;
    }
    let mut i: usize = 0;
    while i < n
        invariant
            i <= n,
            n == a@.len(),
            n == b@.len(),
            forall|k: int| 0 <= k < i ==> a@[k] == b@[k],
        decreases n - i,
    {
        if a.get_char(i) != b.get_char(i) {
            return false;
        }
        i += 1;
    }
    proof {
        assert(a@ =~= b@);
    }
    true
}

/// Error of constructing a [`SerialNumber`] from empty or whitespace-only
/// input.
#[derive(Clone, Copy, Debug)]
pub struct SerialNumberEmptyError;

/// The identifier of a physical device: a non-empty, trimmed string. Token
/// rows are stored under this key.
#[derive(Debug)]
pub struct SerialNumber(String);

impl View for SerialNumber {
    type V = Seq<char>;

    closed spec fn view(&self) -> Seq<char> {
        self.0@
    }
}

impl SerialNumber {
    /// Every serial number value holds at least one character and neither
    /// starts nor ends with whitespace.
    #[verifier::type_invariant]
    closed spec fn inv(self) -> bool {
        self.0@.len() > 0 && is_trimmed(self.0@)
    }

    /// Builds a serial number from raw input: the value is the trimmed
    /// input, and empty or whitespace-only input is rejected.
    pub fn new(value: &str) -> (r: Result<SerialNumber, SerialNumberEmptyError>)
        ensures
            trim_spec(value@).len() == 0 ==> r is Err,
            trim_spec(value@).len() > 0 ==> (r matches Ok(sn) && sn@ == trim_spec(value@)),
    {
        let trimmed = trim_in(value);
        if trimmed.as_str().is_empty() {
            Err(SerialNumberEmptyError)
        } else {
            Ok(SerialNumber(trimmed))
        }
    }

    pub fn as_str(&self) -> (r: &str)
        ensures
            r@ == self@,
    {
        self.0.as_str()
    }

}

impl Clone for SerialNumber {
    fn clone(&self) -> (r: Self)
        ensures
            r == *self,
    {
        proof {
            use_type_invariant(self);
        }
        SerialNumber(self.0.clone())
    }
}

impl PartialEq for SerialNumber {
    fn eq(&self, other: &Self) -> (r: bool) {
        self.0 == other.0
    }
}

impl vstd::std_specs::cmp::PartialEqSpecImpl for SerialNumber {
    open spec fn obeys_eq_spec() -> bool {
        true
    }

    open spec fn eq_spec(&self, other: &Self) -> bool {
        self@ == other@
    }
}

/// Error of constructing a [`Token`] from empty or whitespace-only input.
#[derive(Clone, Copy, Debug)]
pub struct TokenEmptyError;

/// An opaque credential issued by a provider: a non-empty, trimmed string.
#[derive(Debug)]
pub struct Token(String);

impl View for Token {
    type V = Seq<char>;

    closed spec fn view(&self) -> Seq<char> {
        self.0@
    }
}

impl Token {
    /// Every token value holds at least one character and neither starts nor
    /// ends with whitespace.
    #[verifier::type_invariant]
    closed spec fn inv(self) -> bool {
        self.0@.len() > 0 && is_trimmed(self.0@)
    }

    /// Builds a token from raw input: the value is the trimmed input, and
    /// empty or whitespace-only input is rejected.
    pub fn new(value: &str) -> (r: Result<Token, TokenEmptyError>)
        ensures
            trim_spec(value@).len() == 0 ==> r is Err,
            trim_spec(value@).len() > 0 ==> (r matches Ok(t) && t@ == trim_spec(value@)),
    {
        let trimmed = trim_in(value);
        if trimmed.as_str().is_empty() {
            Err(TokenEmptyError)
        } else {
            Ok(Token(trimmed))
        }
    }

    pub fn as_str(&self) -> (r: &str)
        ensures
            r@ == self@,
    {
        self.0.as_str()
    }

}

impl Clone for Token {
    fn clone(&self) -> (r: Self)
        ensures
            r == *self,
    {
        proof {
            use_type_invariant(self);
        }
        Token(self.0.clone())
    }
}

impl PartialEq for Token {
    fn eq(&self, other: &Self) -> (r: bool) {
        self.0 == other.0
    }
}

impl vstd::std_specs::cmp::PartialEqSpecImpl for Token {
    open spec fn obeys_eq_spec() -> bool {
        true
    }

    open spec fn eq_spec(&self, other: &Self) -> bool {
        self@ == other@
    }
}

/// The credential pair a provider issues on a successful authentication.
#[derive(Debug)]
pub struct Tokens {
    pub access_token: Token,
    pub refresh_token: Token,
}

/// Error of obtaining a credential pair from a provider.
#[derive(Clone, Copy, Debug, PartialEq, Eq, Structural)]
pub enum CreateTokensError {
    /// The provider rejected the request or the transport failed.
    ProviderError,
    /// The provider answered with an empty or whitespace-only token.
    InvalidToken,
}

} // verus!
