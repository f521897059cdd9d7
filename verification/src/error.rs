//! Error type shared by every Veil module.
use vstd::prelude::*;
use vstd::string::StringExecFns;

verus! {

/// Everything that can go wrong in Veil. Each variant carries a detail text.
#[derive(Debug, Clone)]
pub enum VeilError {
    /// Caller-supplied data is malformed (bad base64, wrong key length, ...).
    InvalidInput(String),
    /// HKDF expansion failed.
    KeyDerivation(String),
    /// AES-256-GCM sealing failed.
    Encryption(String),
    /// AES-256-GCM opening failed: wrong key, tampered data or bad nonce.
    Decryption(String),
    /// An envelope is malformed or has an unsupported version.
    Envelope(String),
}

/// Result type used throughout Veil.
pub type VeilResult<T> = Result<T, VeilError>;

/// The heading that `message` puts in front of a variant's detail text.
pub open spec fn error_heading(e: VeilError) -> Seq<char> {
    match e {
        VeilError::InvalidInput(_) => "invalid input: "@,
        VeilError::KeyDerivation(_) => "key derivation error: "@,
        VeilError::Encryption(_) => "encryption error: "@,
        VeilError::Decryption(_) => "decryption error: "@,
        VeilError::Envelope(_) => "envelope error: "@,
    }
}

/// The detail text carried by an error.
pub open spec fn error_detail(e: VeilError) -> Seq<char> {
    match e {
        VeilError::InvalidInput(s) => s@,
        VeilError::KeyDerivation(s) => s@,
        VeilError::Encryption(s) => s@,
        VeilError::Decryption(s) => s@,
        VeilError::Envelope(s) => s@,
    }
}

impl VeilError {
    /// Human-readable description: a heading naming the kind of failure,
    /// followed by the detail text.
    pub fn message(&self) -> (r: String)
        ensures
            r@ == error_heading(*self) + error_detail(*self),
            *self matches VeilError::InvalidInput(d) ==> r@ == "invalid input: "@ + d@,
            *self matches VeilError::KeyDerivation(d) ==> r@ == "key derivation error: "@ + d@,
            *self matches VeilError::Encryption(d) ==> r@ == "encryption error: "@ + d@,
            *self matches VeilError::Decryption(d) ==> r@ == "decryption error: "@ + d@,
            *self matches VeilError::Envelope(d) ==> r@ == "envelope error: "@ + d@,
    {
        let (heading, detail) = match self {
            VeilError::InvalidInput(s) => ("invalid input: ", s),
            VeilError::KeyDerivation(s) => ("key derivation error: ", s),
            VeilError::Encryption(s) => ("encryption error: ", s),
            VeilError::Decryption(s) => ("decryption error: ", s),
            VeilError::Envelope(s) => ("envelope error: ", s),
        };
        let mut text = String::from_str(heading);
        text.append(detail.as_str());
        text
    }
}

/// `text` begins with `prefix`.
pub open spec fn has_prefix(text: Seq<char>, prefix: Seq<char>) -> bool {
    prefix.len() <= text.len() && text.subrange(0, prefix.len() as int) == prefix
}

/// The decimal digit character for `d` (0 to 9).
pub open spec fn digit_char(d: int) -> char {
    if d == 0 { '0' }
    else if d == 1 { '1' }
    else if d == 2 { '2' }
    else if d == 3 { '3' }
    else if d == 4 { '4' }
    else if d == 5 { '5' }
    else if d == 6 { '6' }
    else if d == 7 { '7' }
    else if d == 8 { '8' }
    else { '9' }
}

/// The decimal text of `n`, without sign or leading zeros, as `Display`
/// writes an unsigned integer.
pub open spec fn decimal_text(n: nat) -> Seq<char>
    decreases n,
{
    if n < 10 {
        seq![digit_char(n as int)]
    } else {
        decimal_text(n / 10) + seq![digit_char((n % 10) as int)]
    }
}

/// The one-character text of the digit `d`.
fn digit_str(d: usize) -> (r: &'static str)
    requires
        d < 10,
    ensures
        r@ == seq![digit_char(d as int)],
{
    proof {
        reveal_strlit("0");
        reveal_strlit("1");
        reveal_strlit("2");
        reveal_strlit("3");
        reveal_strlit("4");
        reveal_strlit("5");
        reveal_strlit("6");
        reveal_strlit("7");
        reveal_strlit("8");
        reveal_strlit("9");
    }
    if d == 0 { "0" }
    else if d == 1 { "1" }
    else if d == 2 { "2" }
    else if d == 3 { "3" }
    else if d == 4 { "4" }
    else if d == 5 { "5" }
    else if d == 6 { "6" }
    else if d == 7 { "7" }
    else if d == 8 { "8" }
    else { "9" }
}

/// Appends the decimal text of `n` to `text`.
pub fn append_decimal(text: &mut String, n: usize)
    ensures
        final(text)@ == old(text)@ + decimal_text(n as nat),
    decreases n,
{
    if n >= 10 {
        append_decimal(text, n / 10);
    }
    text.append(digit_str(n % 10));
    assert(text@ =~= old(text)@ + decimal_text(n as nat)) by {
        if n >= 10 {
            assert(decimal_text(n as nat) == decimal_text((n / 10) as nat) + seq![digit_char((n % 10) as int)]);
        }
    }
}

/// The number that a string of decimal digits denotes.
pub open spec fn digits_value(s: Seq<char>) -> int
    decreases s.len(),
{
    if s.len() == 0 {
        0
    } else {
        10 * digits_value(s.drop_last()) + (s.last() as int - 48)
    }
}

/// The digit character for `d` has code `'0' + d`.
proof fn lemma_digit_char_code(d: int)
    requires
        0 <= d < 10,
    ensures
        digit_char(d) as int == 48 + d,
{
}

/// `decimal_text(n)` is the decimal writing of `n`, for every `n`: at least
/// one character, every character a digit `0` to `9`, no leading zero unless
/// `n` is zero, and the digits denote `n`.
pub proof fn lemma_decimal_text_denotes(n: nat)
    ensures
        decimal_text(n).len() >= 1,
        forall|i: int| 0 <= i < decimal_text(n).len() ==> 48 <= #[trigger] (decimal_text(n)[i] as int) <= 57,
        (decimal_text(n)[0] as int) == 48 ==> n == 0,
        digits_value(decimal_text(n)) == n,
    decreases n,
{
    if n < 10 {
        assert(decimal_text(n) == seq![digit_char(n as int)]);
        assert(seq![digit_char(n as int)].drop_last() =~= Seq::<char>::empty());
        lemma_digit_char_code(n as int);
        assert(digits_value(seq![digit_char(n as int)]) == 10 * digits_value(Seq::<char>::empty()) + (digit_char(
            n as int,
        ) as int - 48));
    } else {
        lemma_decimal_text_denotes(n / 10);
        let head = decimal_text(n / 10);
        let last = digit_char((n % 10) as int);
        let whole = head + seq![last];
        assert(decimal_text(n) == whole);
        assert(whole.drop_last() =~= head);
        assert(whole.last() == last);
        assert forall|i: int| 0 <= i < whole.len() implies 48 <= #[trigger] (whole[i] as int) <= 57 by {
            if i < head.len() {
                assert(whole[i] == head[i]);
            }
        }
        assert(whole[0] == head[0]);
        lemma_digit_char_code((n % 10) as int);
        assert(digits_value(whole) == 10 * digits_value(head) + (last as int - 48));
    }
}

/// `has_prefix(text, prefix)` holds exactly when `prefix` is no longer than
/// `text` and agrees with it character by character.
pub proof fn lemma_has_prefix_meaning(text: Seq<char>, prefix: Seq<char>)
    ensures
        has_prefix(text, prefix) <==> (prefix.len() <= text.len() && forall|i: int|
            0 <= i < prefix.len() ==> #[trigger] text[i] == prefix[i]),
{
    if prefix.len() <= text.len() && (forall|i: int| 0 <= i < prefix.len() ==> #[trigger] text[i] == prefix[i]) {
        assert(text.subrange(0, prefix.len() as int) =~= prefix);
    }
    if has_prefix(text, prefix) {
        assert forall|i: int| 0 <= i < prefix.len() implies #[trigger] text[i] == prefix[i] by {
            assert(text.subrange(0, prefix.len() as int)[i] == text[i]);
        }
    }
}

} // verus!
