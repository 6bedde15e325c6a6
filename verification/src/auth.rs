//! Bearer-credential verification.
//!
//! A credential is an ASCII-framed token of the shape
//! `external_id '.' expires_at '.' signature`, where `external_id` is a
//! non-empty dot-free identifier, `expires_at` is the end of the validity
//! window in seconds (a decimal number of at most 19 digits), and `signature`
//! is a decimal rendering of the integrity tag computed over the identifier,
//! the expiry and a process-wide verification key. Verification is a pure
//! function of the credential, the key and the current time: no lookup, no
//! retry, no partial success.

use vstd::prelude::*;

verus! {

/// Why a credential was refused.
#[derive(Clone, Copy, Debug, PartialEq, Eq, Structural)]
pub enum AuthError {
    /// The credential does not have the `id.expiry.signature` shape.
    Malformed,
    /// The integrity tag does not match the credential's contents.
    InvalidSignature,
    /// The validity window has elapsed.
    Expired,
}

/// A successfully verified credential: the external identity it names and the
/// end of its validity window (seconds).
#[derive(Debug, PartialEq, Eq)]
pub struct VerifiedAuth {
    pub external_id: String,
    pub expires_at: u64,
}

/// Modulus of the integrity-tag arithmetic; a prime, so that the mixing step
/// below distributes residues reasonably. Every tag is below this value.
pub const TAG_MODULUS: u64 = 1_000_000_007;

/// One mixing step of the integrity tag: fold `x` into the accumulator.
pub open spec fn spec_mix(acc: int, x: int) -> int {
    (acc * 131 + x % (TAG_MODULUS as int)) % (TAG_MODULUS as int)
}

/// The tag accumulator after folding in every character of `s`, left to right,
/// starting from `acc`.
pub open spec fn spec_tag_fold(s: Seq<char>, acc: int) -> int
    decreases s.len(),
{
    if s.len() == 0 {
        acc
    } else {
        spec_mix(spec_tag_fold(s.drop_last(), acc), s.last() as int)
    }
}

/// The integrity tag of a credential with identity `id` and expiry
/// `expires_at`, under the process-wide verification key `key`.
pub open spec fn spec_credential_tag(id: Seq<char>, expires_at: int, key: u64) -> int {
    spec_mix(spec_mix(spec_tag_fold(id, (key as int) % (TAG_MODULUS as int)), expires_at), key as int)
}

/// The integrity tag of `(id, expires_at)` under `key`.
///
/// Exposed so that credential issuers and tests can build a credential whose
/// signature this module will accept.
pub fn credential_tag(id: &str, expires_at: u64, key: u64) -> (r: u64)
    ensures
        r as int == spec_credential_tag(id@, expires_at as int, key),
        r < TAG_MODULUS,
{
    let n = id.unicode_len();
    let ghost seed: int = (key as int) % (TAG_MODULUS as int);
    let mut acc: u64 = key % TAG_MODULUS;
    let mut i: usize = 0;
    while i < n
        invariant
            i <= n,
            n == id@.len(),
            acc < TAG_MODULUS,
            acc as int == spec_tag_fold(id@.subrange(0, i as int), seed),
        decreases n - i,
    {
        let c = id.get_char(i);
        let x: u64 = (c as u64) % TAG_MODULUS;
        proof {
            let pre = id@.subrange(0, i as int);
            let post = id@.subrange(0, i as int + 1);
            assert(post.drop_last() =~= pre);
            assert(post.last() == id@[i as int]);
        }
        acc = (acc * 131 + x) % TAG_MODULUS;
        i = i + 1;
    }
    proof {
        assert(id@.subrange(0, n as int) =~= id@);
    }
    acc = (acc * 131 + expires_at % TAG_MODULUS) % TAG_MODULUS;
    acc = (acc * 131 + key % TAG_MODULUS) % TAG_MODULUS;
    acc
}

/// Whether `c` is a decimal digit.
pub open spec fn is_digit(c: char) -> bool {
    48 <= c as int && c as int <= 57
}

/// The value of the decimal digit `c`.
pub open spec fn digit_val(c: char) -> int {
    c as int - 48
}

/// Whether every character of `s` is a decimal digit.
pub open spec fn all_digits(s: Seq<char>) -> bool {
    forall|k: int| 0 <= k < s.len() ==> is_digit(#[trigger] s[k])
}

/// The value of `s` read as a decimal number (most significant digit first).
pub open spec fn dec_val(s: Seq<char>) -> int
    decreases s.len(),
{
    if s.len() == 0 {
        0
    } else {
        dec_val(s.drop_last()) * 10 + digit_val(s.last())
    }
}

/// Ten to the `n`.
pub open spec fn pow10(n: nat) -> int
    decreases n,
{
    if n == 0 {
        1
    } else {
        10 * pow10((n - 1) as nat)
    }
}

/// The index of the first `'.'` in `s` at or after `k`, or `-1` if there is
/// none.
pub open spec fn first_dot_from(s: Seq<char>, k: int) -> int
    decreases s.len() - k when 0 <= k <= s.len()
{
    if k >= s.len() {
        -1
    } else if s[k] == '.' {
        k
    } else {
        first_dot_from(s, k + 1)
    }
}

/// The longest number of digits a credential field may carry; every such
/// number is below `10^19` and therefore fits in a `u64`.
pub const MAX_FIELD_DIGITS: usize = 19;

/// Whether `s` has the credential shape `id '.' expiry '.' signature`:
/// a non-empty dot-free identifier, then a dot, then one to nineteen decimal
/// digits of expiry, then a dot, then one to nineteen decimal digits of
/// signature.
pub open spec fn well_formed(s: Seq<char>) -> bool {
    let i = first_dot_from(s, 0);
    0 < i && {
        let j = first_dot_from(s, i + 1);
        &&& i + 1 < j
        &&& j + 1 < s.len()
        &&& j - (i + 1) <= MAX_FIELD_DIGITS
        &&& s.len() - (j + 1) <= MAX_FIELD_DIGITS
        &&& all_digits(s.subrange(i + 1, j))
        &&& all_digits(s.subrange(j + 1, s.len() as int))
    }
}

/// The external identity carried by a well-formed credential.
pub open spec fn cred_id(s: Seq<char>) -> Seq<char> {
    s.subrange(0, first_dot_from(s, 0))
}

/// The expiry carried by a well-formed credential.
pub open spec fn cred_expiry(s: Seq<char>) -> int {
    let i = first_dot_from(s, 0);
    let j = first_dot_from(s, i + 1);
    dec_val(s.subrange(i + 1, j))
}

/// The signature carried by a well-formed credential.
pub open spec fn cred_sig(s: Seq<char>) -> int {
    let i = first_dot_from(s, 0);
    let j = first_dot_from(s, i + 1);
    dec_val(s.subrange(j + 1, s.len() as int))
}

/// What verifying the credential `s` under `key` at time `now` yields: the
/// identity and expiry on success, and otherwise the first failing check in
/// the order shape, integrity, validity window.
pub open spec fn auth_outcome(s: Seq<char>, key: u64, now: u64) -> Result<(Seq<char>, int), AuthError> {
    if !well_formed(s) {
        Err(AuthError::Malformed)
    } else if cred_sig(s) != spec_credential_tag(cred_id(s), cred_expiry(s), key) {
        Err(AuthError::InvalidSignature)
    } else if cred_expiry(s) <= now {
        Err(AuthError::Expired)
    } else {
        Ok((cred_id(s), cred_expiry(s)))
    }
}

proof fn lemma_first_dot_skip(s: Seq<char>, from: int, k: int)
    requires
        0 <= from <= k <= s.len(),
        forall|m: int| from <= m < k ==> s[m] != '.',
    ensures
        first_dot_from(s, from) == first_dot_from(s, k),
    decreases k - from,
{
    if from < k {
        lemma_first_dot_skip(s, from + 1, k);
    }
}

proof fn lemma_pow10_pos(n: nat)
    ensures
        pow10(n) >= 1,
    decreases n,
{
    if n > 0 {
        lemma_pow10_pos((n - 1) as nat);
    }
}

proof fn lemma_pow10_le(a: nat, b: nat)
    requires
        a <= b,
    ensures
        pow10(a) <= pow10(b),
    decreases b - a,
{
    if a < b {
        lemma_pow10_le(a, (b - 1) as nat);
        lemma_pow10_pos((b - 1) as nat);
        assert(pow10(b) == 10 * pow10((b - 1) as nat));
    }
}

proof fn lemma_pow10_18()
    ensures
        pow10(18) == 1_000_000_000_000_000_000,
{
    reveal_with_fuel(pow10, 19);
}

proof fn lemma_pow10_19()
    ensures
        pow10(19) == 10_000_000_000_000_000_000,
{
    reveal_with_fuel(pow10, 20);
}

proof fn lemma_no_dot_after(s: Seq<char>, k: int)
    requires
        0 <= k <= s.len(),
        first_dot_from(s, k) == -1,
    ensures
        forall|m: int| k <= m < s.len() ==> s[m] != '.',
    decreases s.len() - k,
{
    if k < s.len() {
        lemma_no_dot_after(s, k + 1);
    }
}

/// Find the first `'.'` in `s` at or after `from`.
fn find_dot(s: &str, from: usize) -> (r: Option<usize>)
    requires
        from <= s@.len(),
    ensures
        match r {
            Some(i) => from <= i < s@.len() && first_dot_from(s@, from as int) == i,
            None => first_dot_from(s@, from as int) == -1,
        },
{
    let n = s.unicode_len();
    let mut i: usize = from;
    while i < n
        invariant
            from <= i <= n,
            n == s@.len(),
            forall|m: int| from <= m < i ==> s@[m] != '.',
        decreases n - i,
    {
        let c = s.get_char(i);
        if c == '.' {
            proof {
                lemma_first_dot_skip(s@, from as int, i as int);
            }
            return Some(i);
        }
        i = i + 1;
    }
    proof {
        lemma_first_dot_skip(s@, from as int, n as int);
    }
    None
}

/// Read `s[from..to]` as a decimal number: `Some` exactly when the range is
/// one to nineteen decimal digits.
fn parse_decimal(s: &str, from: usize, to: usize) -> (r: Option<u64>)
    requires
        from <= to <= s@.len(),
    ensures
        ({
            let part = s@.subrange(from as int, to as int);
            match r {
                Some(v) => from < to && to - from <= MAX_FIELD_DIGITS && all_digits(part)
                    && v as int == dec_val(part),
                None => !(from < to && to - from <= MAX_FIELD_DIGITS && all_digits(part)),
            }
        }),
{
    let ghost part = s@.subrange(from as int, to as int);
    if from == to || to - from > MAX_FIELD_DIGITS {
        return None;
    }
    let mut acc: u64 = 0;
    let mut i: usize = from;
    while i < to
        invariant
            from <= i <= to <= s@.len(),
            to - from <= 19,
            part == s@.subrange(from as int, to as int),
            all_digits(s@.subrange(from as int, i as int)),
            acc as int == dec_val(s@.subrange(from as int, i as int)),
            (acc as int) < pow10((i - from) as nat),
        decreases to - i,
    {
        let c = s.get_char(i);
        let x = c as u32;
        if x < 48 || x > 57 {
            proof {
                assert(part[i - from] == s@[i as int]);
                assert(!is_digit(part[i - from]));
            }
            return None;
        }
        proof {
            let pre = s@.subrange(from as int, i as int);
            let post = s@.subrange(from as int, i as int + 1);
            assert(post.drop_last() =~= pre);
            assert(post.last() == s@[i as int]);
            lemma_pow10_le((i - from) as nat, 18);
            lemma_pow10_18();
            assert(pow10((i - from + 1) as nat) == 10 * pow10((i - from) as nat));
        }
        acc = acc * 10 + ((x - 48) as u64);
        i = i + 1;
    }
    proof {
        assert(s@.subrange(from as int, to as int) =~= part);
    }
    Some(acc)
}

/// Verify the bearer credential `credential` under the process-wide key `key`
/// at time `now` (seconds).
///
/// Succeeds exactly on well-formed credentials whose signature is the
/// integrity tag of their identity and expiry and whose validity window has
/// not elapsed; the error names the first failing check (shape, then
/// integrity, then window).
pub fn authenticate(credential: &str, key: u64, now: u64) -> (r: Result<VerifiedAuth, AuthError>)
    ensures
        r is Ok <==> auth_outcome(credential@, key, now) is Ok,
        r matches Ok(a) ==> a.external_id@ == cred_id(credential@)
            && a.expires_at as int == cred_expiry(credential@)
            && now < a.expires_at,
        r matches Err(e) ==> auth_outcome(credential@, key, now) == Err::<(Seq<char>, int), AuthError>(e),
{
    let n = credential.unicode_len();
    let i = match find_dot(credential, 0) {
        Some(i) => i,
        None => {
            return Err(AuthError::Malformed);
        },
    };
    if i == 0 {
        return Err(AuthError::Malformed);
    }
    let j = match find_dot(credential, i + 1) {
        Some(j) => j,
        None => {
            return Err(AuthError::Malformed);
        },
    };
    let expiry = match parse_decimal(credential, i + 1, j) {
        Some(v) => v,
        None => {
            return Err(AuthError::Malformed);
        },
    };
    let sig = match parse_decimal(credential, j + 1, n) {
        Some(v) => v,
        None => {
            return Err(AuthError::Malformed);
        },
    };
    let id_str = credential.substring_char(0, i);
    let tag = credential_tag(id_str, expiry, key);
    if sig != tag {
        return Err(AuthError::InvalidSignature);
    }
    if expiry <= now {
        return Err(AuthError::Expired);
    }
    Ok(VerifiedAuth { external_id: id_str.to_owned(), expires_at: expiry })
}

/// The one-character string for the decimal digit `d`.
fn digit_str(d: u64) -> (r: &'static str)
    requires
        d < 10,
    ensures
        r@.len() == 1,
        is_digit(r@[0]),
        digit_val(r@[0]) == d,
{
    proof {
        reveal_strlit("0");
        reveal_strlit("1");
        reveal_strlit("2");
        reveal_strlit("3");
        reveal_strlit("4");
        reveal_strlit("5");
        reveal_strlit("6");
        reveal_strlit("7");
        reveal_strlit("8");
        reveal_strlit("9");
    }
    if d == 0 {
        "0"
    } else if d == 1 {
        "1"
    } else if d == 2 {
        "2"
    } else if d == 3 {
        "3"
    } else if d == 4 {
        "4"
    } else if d == 5 {
        "5"
    } else if d == 6 {
        "6"
    } else if d == 7 {
        "7"
    } else if d == 8 {
        "8"
    } else {
        "9"
    }
}

/// Render `n` in decimal, most significant digit first and without leading
/// zeros, so that `dec_val` reads the same number back.
fn dec_string(n: u64) -> (r: String)
    ensures
        all_digits(r@),
        dec_val(r@) == n,
        r@.len() >= 1,
        r@.len() == 1 || n as int >= pow10((r@.len() - 1) as nat),
    decreases n,
{
    if n < 10 {
        let d = digit_str(n);
        let r = String::from_str(d);
        proof {
            assert(r@.drop_last() =~= Seq::<char>::empty());
            assert(r@.last() == d@[0]);
            assert(dec_val(r@) == dec_val(Seq::<char>::empty()) * 10 + digit_val(d@[0]));
        }
        r
    } else {
        let mut r = dec_string(n / 10);
        let ghost prefix = r@;
        let d = digit_str(n % 10);
        r.append(d);
        proof {
            assert(r@.drop_last() =~= prefix);
            assert(r@.last() == d@[0]);
            assert(dec_val(r@) == dec_val(prefix) * 10 + (n % 10));
            assert(n / 10 * 10 + n % 10 == n);
            if prefix.len() == 1 {
                assert(pow10((r@.len() - 1) as nat) == pow10(1));
                assert(pow10(1) == 10) by {
                    reveal_with_fuel(pow10, 2);
                }
            } else {
                assert(n as int >= (n / 10) * 10);
                assert((n / 10) * 10 >= pow10((prefix.len() - 1) as nat) * 10);
                assert(pow10((r@.len() - 1) as nat) == 10 * pow10((prefix.len() - 1) as nat));
            }
        }
        r
    }
}

proof fn lemma_decimal_len(n: int, len: int)
    requires
        len >= 1,
        len == 1 || n >= pow10((len - 1) as nat),
        n < 10_000_000_000_000_000_000,
    ensures
        len <= MAX_FIELD_DIGITS,
{
    if len >= 21 {
        lemma_pow10_le(19, (len - 1) as nat);
        lemma_pow10_19();
    } else if len == 20 {
        lemma_pow10_19();
    }
}

/// Issue the credential for `id` that expires at `expires_at`, signed under
/// `key`: the one string of the shape `id.expires_at.signature` whose
/// signature is the integrity tag, rendered without leading zeros.
///
/// Refused exactly when `id` is empty or contains a dot, or `expires_at`
/// needs more than nineteen digits; [`authenticate`] accepts the issued
/// credential under the same key until the window elapses
/// ([`lemma_issued_credential_verifies`]).
pub fn issue_credential(id: &str, expires_at: u64, key: u64) -> (r: Option<String>)
    ensures
        r is Some <==> (id@.len() > 0 && first_dot_from(id@, 0) == -1 && (expires_at as int)
            < pow10(19)),
        r matches Some(c) ==> well_formed(c@) && cred_id(c@) == id@ && cred_expiry(c@)
            == expires_at && cred_sig(c@) == spec_credential_tag(id@, expires_at as int, key),
{
    proof {
        lemma_pow10_19();
    }
    let n = id.unicode_len();
    if n == 0 {
        return None;
    }
    if expires_at >= 10_000_000_000_000_000_000 {
        return None;
    }
    if let Some(_) = find_dot(id, 0) {
        return None;
    }
    let sig = credential_tag(id, expires_at, key);
    let expiry_digits = dec_string(expires_at);
    let sig_digits = dec_string(sig);
    let mut c = String::from_str(id);
    c.append(".");
    c.append(expiry_digits.as_str());
    c.append(".");
    c.append(sig_digits.as_str());
    proof {
        reveal_strlit(".");
        let s = c@;
        let i = n as int;
        let j = i + 1 + expiry_digits@.len();
        assert(s.len() == j + 1 + sig_digits@.len());
        assert(s[i] == '.');
        assert(s[j] == '.');
        lemma_no_dot_after(id@, 0);
        assert(forall|m: int| 0 <= m < i ==> s[m] == id@[m] && s[m] != '.');
        lemma_first_dot_skip(s, 0, i);
        assert(first_dot_from(s, 0) == i);
        assert(forall|m: int| i + 1 <= m < j ==> s[m] == expiry_digits@[m - (i + 1)]);
        assert(forall|m: int| i + 1 <= m < j ==> is_digit(s[m]) && s[m] != '.');
        lemma_first_dot_skip(s, i + 1, j);
        assert(first_dot_from(s, i + 1) == j);
        assert(forall|m: int| j + 1 <= m < s.len() ==> s[m] == sig_digits@[m - (j + 1)]);
        assert(forall|m: int| j + 1 <= m < s.len() ==> is_digit(s[m]));
        assert(s.subrange(0, i) =~= id@);
        assert(s.subrange(i + 1, j) =~= expiry_digits@);
        assert(s.subrange(j + 1, s.len() as int) =~= sig_digits@);
        lemma_decimal_len(expires_at as int, expiry_digits@.len() as int);
        assert((sig as int) < pow10(19));
        lemma_decimal_len(sig as int, sig_digits@.len() as int);
        assert(well_formed(s));
    }
    Some(c)
}

/// Law: issuance and verification round-trip. Any credential carrying an
/// identity, an expiry and exactly the integrity tag of the two under `key`
/// — in particular any credential [`issue_credential`] returns — is accepted
/// by the authenticator under `key` at every time before the expiry, and
/// yields back exactly that identity and expiry.
pub proof fn lemma_issued_credential_verifies(
    c: Seq<char>,
    id: Seq<char>,
    expires_at: u64,
    key: u64,
    now: u64,
)
    requires
        well_formed(c),
        cred_id(c) == id,
        cred_expiry(c) == expires_at,
        cred_sig(c) == spec_credential_tag(id, expires_at as int, key),
        now < expires_at,
    ensures
        auth_outcome(c, key, now) == Ok::<(Seq<char>, int), AuthError>((id, expires_at as int)),
{
}

} // verus!
