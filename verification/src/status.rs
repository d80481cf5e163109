//! Decoding of the feed's fixed-width status string.
//!
//! The remote feed reports the alert status of all 27 regions as one
//! 27-character string, one code per region ordinal, possibly wrapped in
//! quote characters. [`AlertStatusCodec::decode`] validates the length after
//! trimming the quotes and degrades any unrecognized code to "no alert"
//! rather than discarding the whole update for one bad byte.

use vstd::prelude::*;

verus! {

use vstd::utf8::is_ascii_chars;

broadcast use vstd::string::axiom_spec_iter;

/// Alert status of one region: active, partially active, or no alert known.
#[derive(Clone, Copy, PartialEq, Eq, Structural, Debug)]
pub enum AlertStatus {
    /// Active alert.
    A,
    /// Partially active alert.
    P,
    /// No alert, or no information.
    N,
}

/// The status a feed character stands for; anything outside `{'A', 'P'}`
/// counts as no alert.
pub open spec fn status_of_char(c: char) -> AlertStatus {
    if c == 'A' {
        AlertStatus::A
    } else if c == 'P' {
        AlertStatus::P
    } else {
        AlertStatus::N
    }
}

impl Default for AlertStatus {
    /// With no information, a region has no alert.
    fn default() -> (r: Self)
        ensures
            r == AlertStatus::N,
    {
        AlertStatus::N
    }
}

impl From<char> for AlertStatus {
    fn from(c: char) -> (r: Self)
        ensures
            r == status_of_char(c),
    {
        match c {
            'A' => AlertStatus::A,
            'P' => AlertStatus::P,
            _ => AlertStatus::N,
        }
    }
}

impl vstd::std_specs::convert::FromSpecImpl<char> for AlertStatus {
    open spec fn obeys_from_spec() -> bool {
        true
    }

    open spec fn from_spec(c: char) -> Self {
        status_of_char(c)
    }
}

/// Number of regions, and so the exact length of a well-formed status string.
pub const REGION_COUNT: usize = 27;

/// One of the three recognized status codes.
pub open spec fn is_status_code(c: char) -> bool {
    c == 'A' || c == 'P' || c == 'N'
}

/// The code a raw feed character is stored as: recognized codes stay, any
/// other character degrades to `'N'` (no alert).
pub open spec fn norm_char(c: char) -> char {
    if c == 'A' || c == 'P' {
        c
    } else {
        'N'
    }
}

/// Normalization of a whole raw code sequence, code by code.
pub open spec fn normalize_statuses(s: Seq<char>) -> Seq<char> {
    Seq::new(s.len(), |i: int| norm_char(s[i]))
}

/// The sequence with every leading quote character removed.
pub open spec fn trim_leading_quotes(s: Seq<char>) -> Seq<char>
    decreases s.len(),
{
    if s.len() > 0 && s[0] == '"' {
        trim_leading_quotes(s.drop_first())
    } else {
        s
    }
}

/// The sequence with every trailing quote character removed.
pub open spec fn trim_trailing_quotes(s: Seq<char>) -> Seq<char>
    decreases s.len(),
{
    if s.len() > 0 && s[s.len() - 1] == '"' {
        trim_trailing_quotes(s.drop_last())
    } else {
        s
    }
}

/// The sequence with all surrounding quote characters removed.
pub open spec fn trim_quotes(s: Seq<char>) -> Seq<char> {
    trim_trailing_quotes(trim_leading_quotes(s))
}

/// Why a raw status string was rejected.
#[derive(Clone, Copy, PartialEq, Eq, Structural, Debug)]
pub enum DecodeError {
    /// The string did not hold exactly one code per region after trimming.
    WrongLength { expected: usize, actual: usize },
}

/// Collect the characters of a string slice into a vector.
pub fn chars_vec(s: &str) -> (v: Vec<char>)
    ensures
        v@ == s@,
{
    let mut v: Vec<char> = Vec::new();
    for c in it: s.chars()
        invariant
            v@ =~= it.seq().take(it.index()),
    {
        v.push(c);
    }
    assert(v@ =~= s@);
    v
}

#[verifier::external_type_specification]
#[verifier::external_body]
pub struct ExArrayString<const CAP: usize>(arrayvec::ArrayString<CAP>);

/// The characters a fixed-capacity status buffer holds.
pub uninterp spec fn astr_chars(s: arrayvec::ArrayString<27>) -> Seq<char>;

/// Relies on arrayvec::ArrayString::new: a fresh buffer is empty.
#[verifier::external_body]
fn astr_new() -> (r: arrayvec::ArrayString<27>)
    ensures
        astr_chars(r) == Seq::<char>::empty(),
{
    arrayvec::ArrayString::new()
}

/// Relies on arrayvec::ArrayString::push: appends one character. An ASCII
/// character is one byte of the backing array, so pushing onto an all-ASCII
/// buffer shorter than the capacity cannot overflow it.
#[verifier::external_body]
fn astr_push(s: &mut arrayvec::ArrayString<27>, c: char)
    requires
        is_ascii_chars(astr_chars(*old(s))),
        astr_chars(*old(s)).len() < 27,
        c <= '\u{7f}',
    ensures
        astr_chars(*final(s)) == astr_chars(*old(s)).push(c),
{
    s.push(c)
}

/// Relies on arrayvec::ArrayString::as_str: a string slice over the whole
/// buffer.
#[verifier::external_body]
fn astr_as_str(s: &arrayvec::ArrayString<27>) -> (r: &str)
    ensures
        r@ == astr_chars(*s),
{
    s.as_str()
}

/// A decoded status string: exactly one recognized code per region ordinal.
#[derive(Debug)]
pub struct AlertStatusString {
    raw: arrayvec::ArrayString<27>,
}

impl View for AlertStatusString {
    type V = Seq<char>;

    closed spec fn view(&self) -> Seq<char> {
        astr_chars(self.raw)
    }
}

impl AlertStatusString {
    /// Well-formed: one code per region, every code recognized.
    pub open spec fn wf(&self) -> bool {
        &&& self@.len() == REGION_COUNT
        &&& forall|i: int| 0 <= i < self@.len() ==> is_status_code(#[trigger] self@[i])
    }

    /// Every status string the decoder hands out is well-formed.
    #[verifier::type_invariant]
    pub open spec fn type_inv(&self) -> bool {
        self.wf()
    }

    /// The raw code sequence as a string slice.
    pub fn as_str(&self) -> (r: &str)
        ensures
            r@ == self@,
    {
        astr_as_str(&self.raw)
    }

    /// Number of codes held; always one per region.
    pub fn len(&self) -> (n: usize)
        requires
            self.wf(),
        ensures
            n == self@.len(),
    {
        REGION_COUNT
    }

    /// The status encoded at one region ordinal.
    pub fn status_at(&self, i: usize) -> (r: AlertStatus)
        requires
            self.wf(),
            i < REGION_COUNT,
        ensures
            r == status_of_char(self@[i as int]),
    {
        let s = astr_as_str(&self.raw);
        let v = chars_vec(s);
        AlertStatus::from(v[i])
    }
}

/// Decoder of the feed's fixed-width per-region status string.
pub struct AlertStatusCodec {}

impl AlertStatusCodec {
    /// Decode a raw feed response into a validated status string.
    ///
    /// The raw text is first stripped of any surrounding quote characters.
    /// What remains must be exactly one character per region; any other
    /// length is rejected whole, never partially accepted. Within a
    /// well-formed string, a character that is no recognized code degrades
    /// to "no alert" for that one region instead of failing the update.
    pub fn decode(raw: &str) -> (r: Result<AlertStatusString, DecodeError>)
        ensures
            r is Ok <==> trim_quotes(raw@).len() == REGION_COUNT,
            r matches Ok(s) ==> s@ == normalize_statuses(trim_quotes(raw@)) && s.wf(),
            r matches Err(e) ==> e == (DecodeError::WrongLength {
                expected: REGION_COUNT,
                actual: trim_quotes(raw@).len() as usize,
            }),
    {
        let v = chars_vec(raw);
        let (start, end) = trim_bounds(&v);
        let n = end - start;
        if n != REGION_COUNT {
            return Err(DecodeError::WrongLength { expected: REGION_COUNT, actual: n });
        }
        let ghost trimmed = trim_quotes(raw@);
        let mut a = astr_new();
        let mut i: usize = 0;
        while i < REGION_COUNT
            invariant
                start + REGION_COUNT == end <= v@.len(),
                trimmed == v@.subrange(start as int, end as int),
                i <= REGION_COUNT,
                astr_chars(a) =~= normalize_statuses(trimmed).take(i as int),
                is_ascii_chars(astr_chars(a)),
            decreases REGION_COUNT - i,
        {
            let c = v[start + i];
            let nc = if c == 'A' || c == 'P' {
                c
            } else {
                'N'
            };
            assert(nc == norm_char(trimmed[i as int]));
            astr_push(&mut a, nc);
            i += 1;
        }
        proof {
            assert(astr_chars(a) =~= normalize_statuses(trimmed));
            assert forall|k: int| 0 <= k < astr_chars(a).len() implies is_status_code(
                #[trigger] astr_chars(a)[k],
            ) by {
                assert(astr_chars(a)[k] == norm_char(trimmed[k]));
            }
        }
        let s = AlertStatusString { raw: a };
        assert(s@ =~= normalize_statuses(trimmed));
        Ok(s)
    }
}

/// Lemma: trimming the leading quotes of a sequence whose first `k`
/// characters are quotes and whose `k`-th is not drops exactly that prefix.
proof fn lemma_trim_leading(s: Seq<char>, k: int)
    requires
        0 <= k <= s.len(),
        forall|j: int| 0 <= j < k ==> s[j] == '"',
        k < s.len() ==> s[k] != '"',
    ensures
        trim_leading_quotes(s) == s.subrange(k, s.len() as int),
    decreases k,
{
    if k == 0 {
        assert(s.subrange(0, s.len() as int) =~= s);
    } else {
        let t = s.drop_first();
        assert(forall|j: int| 0 <= j < k - 1 ==> t[j] == '"');
        lemma_trim_leading(t, k - 1);
        assert(t.subrange(k - 1, t.len() as int) =~= s.subrange(k, s.len() as int));
    }
}

/// Lemma: trimming the trailing quotes of a sequence whose last characters
/// beyond position `k` are quotes, and whose `k - 1`-th is not, keeps
/// exactly the first `k`.
proof fn lemma_trim_trailing(s: Seq<char>, k: int)
    requires
        0 <= k <= s.len(),
        forall|j: int| k <= j < s.len() ==> s[j] == '"',
        k > 0 ==> s[k - 1] != '"',
    ensures
        trim_trailing_quotes(s) == s.subrange(0, k),
    decreases s.len() - k,
{
    if k == s.len() {
        assert(s.subrange(0, k) =~= s);
    } else {
        let t = s.drop_last();
        lemma_trim_trailing(t, k);
        assert(t.subrange(0, k) =~= s.subrange(0, k));
    }
}

/// Bounds of the raw characters left after stripping all surrounding quote
/// characters.
fn trim_bounds(v: &Vec<char>) -> (b: (usize, usize))
    ensures
        b.0 <= b.1 <= v@.len(),
        v@.subrange(b.0 as int, b.1 as int) == trim_quotes(v@),
{
    let n = v.len();
    let mut start: usize = 0;
    while start < n && v[start] == '"'
        invariant
            start <= n == v@.len(),
            forall|j: int| 0 <= j < start ==> v@[j] == '"',
        decreases n - start,
    {
        start += 1;
    }
    proof {
        lemma_trim_leading(v@, start as int);
    }
    let mut end: usize = n;
    while end > start && v[end - 1] == '"'
        invariant
            start <= end <= n == v@.len(),
            forall|j: int| end <= j < n ==> v@[j] == '"',
        decreases end,
    {
        end -= 1;
    }
    proof {
        let lead = v@.subrange(start as int, n as int);
        assert(forall|j: int| end - start <= j < lead.len() ==> lead[j] == '"');
        assert(end > start ==> lead[end - start - 1] == v@[end as int - 1]);
        lemma_trim_trailing(lead, end - start);
        assert(lead.subrange(0, end - start) =~= v@.subrange(start as int, end as int));
    }
    (start, end)
}

} // verus!
