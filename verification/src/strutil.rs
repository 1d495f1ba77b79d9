//! Small verified string helpers shared by the other modules.

use vstd::prelude::*;
use vstd::string::StrSliceExecFns;

verus! {

/// Relies on std's `String::push`: appends the given character at the end of
/// the string.
#[verifier::external_body]
pub(crate) fn push_char(s: &mut String, c: char)
    ensures
        final(s)@ == old(s)@.push(c),
{
    s.push(c);
}

/// What one character contributes to the encoded string: a space becomes
/// `%20`, any other character stands for itself.
pub open spec fn enc_char(c: char) -> Seq<char> {
    if c == ' ' {
        seq!['%', '2', '0']
    } else {
        seq![c]
    }
}

/// The string with every space replaced by the three characters `%20`,
/// all other characters kept in order.
pub open spec fn encode_spaces_spec(s: Seq<char>) -> Seq<char>
    decreases s.len(),
{
    if s.len() == 0 {
        Seq::empty()
    } else {
        enc_char(s[0]) + encode_spaces_spec(s.skip(1))
    }
}

/// Extending the input by one character extends the encoding by that
/// character's own encoding.
proof fn lemma_encode_spaces_push(s: Seq<char>, c: char)
    ensures
        encode_spaces_spec(s.push(c)) == encode_spaces_spec(s) + enc_char(c),
    decreases s.len(),
{
    let t = s.push(c);
    assert(t.len() == s.len() + 1);
    if s.len() == 0 {
        assert(t[0] == c);
        assert(t.skip(1) =~= Seq::<char>::empty());
        assert(encode_spaces_spec(t) == enc_char(c) + encode_spaces_spec(t.skip(1)));
        assert(encode_spaces_spec(t) =~= enc_char(c));
        assert(encode_spaces_spec(s) + enc_char(c) =~= enc_char(c));
    } else {
        assert(t[0] == s[0]);
        assert(t.skip(1) =~= s.skip(1).push(c));
        lemma_encode_spaces_push(s.skip(1), c);
        assert(encode_spaces_spec(t) == enc_char(s[0]) + (encode_spaces_spec(s.skip(1))
            + enc_char(c)));
        assert(encode_spaces_spec(t) =~= encode_spaces_spec(s) + enc_char(c));
    }
}

/// Percent-encodes spaces as `%20`, leaving every other character unchanged.
pub fn encode_spaces(s: &str) -> (r: String)
    ensures
        r@ == encode_spaces_spec(s@),
{
    let len = s.unicode_len();
    let mut out = String::new();
    let mut i: usize = 0;
    while i < len
        invariant
            len == s@.len(),
            0 <= i <= len,
            out@ == encode_spaces_spec(s@.take(i as int)),
        decreases len - i,
    {
        let c = s.get_char(i);
        proof {
            lemma_encode_spaces_push(s@.take(i as int), c);
            assert(s@.take(i as int).push(c) =~= s@.take(i + 1));
        }
        if c == ' ' {
            push_char(&mut out, '%');
            push_char(&mut out, '2');
            push_char(&mut out, '0');
            assert(out@ =~= encode_spaces_spec(s@.take(i + 1)));
        } else {
            push_char(&mut out, c);
            assert(out@ =~= encode_spaces_spec(s@.take(i + 1)));
        }
        i = i + 1;
    }
    proof {
        assert(s@.take(len as int) =~= s@);
    }
    out
}

/// The decimal digit character for a value below ten.
pub open spec fn digit_char(d: int) -> char {
    ((d + 48) as u8) as char
}

/// The decimal representation of a number, most significant digit first,
/// with no sign and no leading zero (a single `0` for zero itself).
pub open spec fn dec_spec(n: nat) -> Seq<char>
    decreases n,
{
    if n < 10 {
        seq![digit_char(n as int)]
    } else {
        dec_spec(n / 10) + seq![digit_char((n % 10) as int)]
    }
}

/// Reversing after one more element puts that element in front.
proof fn lemma_reverse_push(s: Seq<char>, c: char)
    ensures
        s.push(c).reverse() == seq![c] + s.reverse(),
{
    assert(s.push(c).reverse() =~= seq![c] + s.reverse());
}

/// Renders a number in decimal.
pub fn u64_to_string(n: u64) -> (r: String)
    ensures
        r@ == dec_spec(n as nat),
{
    let mut digits: Vec<char> = Vec::new();
    let mut m: u64 = n;
    proof {
        assert(dec_spec(n as nat) =~= dec_spec(n as nat) + digits@.reverse());
    }
    while m >= 10
        invariant
            dec_spec(n as nat) == dec_spec(m as nat) + digits@.reverse(),
        decreases m,
    {
        let d = m % 10;
        let c = ((48 + d) as u8) as char;
        proof {
            assert(c == digit_char(d as int));
            assert(dec_spec(m as nat) == dec_spec((m as nat) / 10) + seq![c]);
            lemma_reverse_push(digits@, c);
            assert(dec_spec((m as nat) / 10) + (seq![c] + digits@.reverse()) =~= (dec_spec(
                (m as nat) / 10,
            ) + seq![c]) + digits@.reverse());
            assert((m / 10) as nat == (m as nat) / 10);
        }
        digits.push(c);
        m = m / 10;
    }
    let c = ((48 + m) as u8) as char;
    proof {
        assert(c == digit_char(m as int));
        assert(dec_spec(m as nat) == seq![c]);
        lemma_reverse_push(digits@, c);
    }
    digits.push(c);
    assert(dec_spec(n as nat) == digits@.reverse());

    let len = digits.len();
    let mut out = String::new();
    let mut j: usize = len;
    proof {
        assert(out@ =~= digits@.reverse().take(0));
    }
    while j > 0
        invariant
            len == digits@.len(),
            j <= len,
            out@ == digits@.reverse().take((len - j) as int),
        decreases j,
    {
        j = j - 1;
        let c = digits[j];
        proof {
            let rev = digits@.reverse();
            let k = (len - j - 1) as int;
            assert(rev[k] == c);
            assert(rev.take(k + 1) =~= rev.take(k).push(rev[k]));
        }
        push_char(&mut out, c);
    }
    proof {
        assert(digits@.reverse().take(len as int) =~= digits@.reverse());
    }
    out
}

} // verus!
