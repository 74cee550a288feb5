use vstd::prelude::*;

verus! {

/// The base58 text (Bitcoin alphabet) that `bs58::encode` gives for the bytes.
pub uninterp spec fn base58_of(bytes: Seq<u8>) -> Seq<char>;

/// Text of at most ten characters as it is; longer text as its first five
/// characters, three dots and its last five characters.
pub open spec fn abbreviated(s: Seq<char>) -> Seq<char> {
    if s.len() <= 10 {
        s
    } else {
        s.subrange(0, 5) + seq!['.', '.', '.'] + s.subrange(s.len() - 5, s.len() as int)
    }
}

/// Relies on `bs58::encode(..).into_string()`: the base58 text of the bytes,
/// handed over as its characters.
#[verifier::external_body]
fn base58(bytes: &[u8]) -> (r: Vec<char>)
    ensures
        r@ == base58_of(bytes@),
{
    bs58::encode(bytes).into_string().chars().collect()
}

/// Relies on `String`'s `FromIterator<&char>`: the string of those characters.
#[verifier::external_body]
fn string_from_chars(chars: &Vec<char>) -> (r: String)
    ensures
        r@ == chars@,
{
    chars.iter().collect()
}

/// Shortens already encoded text for display.
pub fn shorten_encoded(encoded: &Vec<char>) -> (r: String)
    ensures
        r@ == abbreviated(encoded@),
{
    let n = encoded.len();
    if n <= 10 {
        return string_from_chars(encoded);
    }
    let mut out: Vec<char> = Vec::new();
    let mut i: usize = 0;
    while i < 5
        invariant
            i <= 5,
            n == encoded@.len(),
            n > 10,
            out@ == encoded@.subrange(0, i as int),
        decreases 5 - i,
    {
        out.push(encoded[i]);
        i = i + 1;
    }
    out.push('.');
    out.push('.');
    out.push('.');
    let mut j: usize = n - 5;
    while j < n
        invariant
            n - 5 <= j <= n,
            n == encoded@.len(),
            n > 10,
            out@ == encoded@.subrange(0, 5) + seq!['.', '.', '.'] + encoded@.subrange(n - 5, j as int),
        decreases n - j,
    {
        out.push(encoded[j]);
        j = j + 1;
    }
    string_from_chars(&out)
}

/// A short base58 rendering of bytes, for logs.
pub fn short_bytes_format(bytes: &[u8]) -> (r: String)
    ensures
        r@ == abbreviated(base58_of(bytes@)),
{
    let encoded = base58(bytes);
    shorten_encoded(&encoded)
}

} // verus!
