use vstd::prelude::*;

verus! {

/// The fixed key that every character code is combined with.
pub const KEY: u8 = 3;

/// One character of the transform: the low byte of the code point, XOR-ed with the key.
pub open spec fn mask_char(c: char) -> char {
    ((c as u8) ^ KEY) as char
}

/// The transform applied to every character of a sequence.
pub open spec fn mask_seq(s: Seq<char>) -> Seq<char> {
    Seq::new(s.len(), |i: int| mask_char(s[i]))
}

/// Relies on String::push: the character is appended at the end.
#[verifier::external_body]
fn push_char(s: &mut String, c: char)
    ensures
        final(s)@ == old(s)@.push(c),
{
    s.push(c);
}

fn mask_str(input: &str) -> (r: String)
    ensures
        r@ == mask_seq(input@),
{
    let n = input.unicode_len();
    let mut out = String::new();
    let mut i: usize = 0;
    while i < n
        invariant
            n == input@.len(),
            i <= n,
            out@ == mask_seq(input@).subrange(0, i as int),
        decreases n - i,
    {
        let c = input.get_char(i);
        let m = ((c as u8) ^ KEY) as char;
        push_char(&mut out, m);
        i = i + 1;
        assert(out@ =~= mask_seq(input@).subrange(0, i as int));
    }
    assert(out@ =~= mask_seq(input@));
    out
}

/// Masks a string: each character becomes the character whose code is its
/// low byte XOR-ed with the key.
pub fn obfuscate(input: &str) -> (r: String)
    ensures
        r@ == mask_seq(input@),
{
    mask_str(input)
}

/// Restores a string masked by `obfuscate`, with the same transform.
pub fn deobfuscate(obfuscated: &str) -> (r: String)
    ensures
        r@ == mask_seq(obfuscated@),
{
    mask_str(obfuscated)
}

/// A sequence whose characters all lie in the single-byte range.
pub open spec fn single_byte(s: Seq<char>) -> bool {
    forall|i: int| 0 <= i < s.len() ==> (#[trigger] s[i] as u32) < 256
}

proof fn lemma_mask_char_twice(c: char)
    requires
        (c as u32) < 256,
    ensures
        mask_char(mask_char(c)) == c,
{
    let b = c as u8;
    assert((b ^ KEY) ^ KEY == b) by (bit_vector);
}

/// The transform keeps the number of characters.
pub proof fn lemma_obfuscate_len(s: Seq<char>)
    ensures
        mask_seq(s).len() == s.len(),
{
}

/// Applying the transform twice gives back any single-byte string.
pub proof fn lemma_obfuscate_involution(s: Seq<char>)
    requires
        single_byte(s),
    ensures
        mask_seq(mask_seq(s)) == s,
{
    assert forall|i: int| 0 <= i < s.len() implies mask_seq(mask_seq(s))[i] == s[i] by {
        lemma_mask_char_twice(s[i]);
    }
    assert(mask_seq(mask_seq(s)) =~= s);
}

/// `deobfuscate` undoes `obfuscate` on every single-byte string.
pub proof fn lemma_round_trip(s: Seq<char>)
    requires
        single_byte(s),
    ensures
        mask_seq(mask_seq(s)) == s,
{
    lemma_obfuscate_involution(s);
}

} // verus!
