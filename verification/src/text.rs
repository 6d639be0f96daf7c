//! Text helpers: UTF-8 decoding of raw bytes, and the decimal and list
//! renderings used in error messages.
use vstd::prelude::*;
use vstd::utf8::*;

verus! {

/// Why a byte string is not UTF-8: the length of its longest valid prefix,
/// and the length of the offending sequence (`None` when the input ends in
/// the middle of a character).
#[derive(Clone, Copy, Debug, PartialEq, Eq)]
pub struct Utf8Failure {
    pub valid_up_to: usize,
    pub error_len: Option<usize>,
}

/// The `error_len` that `std::str::from_utf8` reports for `bytes`: `None`
/// when the input ends in the middle of a character, otherwise the length of
/// the invalid sequence that starts where the valid prefix ends.
pub uninterp spec fn utf8_error_len(bytes: Seq<u8>) -> Option<usize>;

/// `std::str::from_utf8` on `bytes`, the result copied into a `String`.
/// Claimed: it succeeds exactly on valid UTF-8, the text is what the bytes
/// encode, and on failure `valid_up_to` is the longest prefix that would
/// decode and `error_len` is `utf8_error_len` of the bytes; a reported
/// length is that of a non-empty run of bytes lying within the input after
/// the valid prefix, and where none is reported the valid prefix ends one to
/// three bytes before the end of the input. How long a reported run is, the
/// documentation does not pin down, and neither does this contract.
#[verifier::external_body]
pub(crate) fn utf8_decode(bytes: &[u8]) -> (r: Result<String, Utf8Failure>)
    ensures
        r is Ok <==> valid_utf8(bytes@),
        r matches Ok(s) ==> s@ == decode_utf8(bytes@),
        r matches Err(e) ==> {
            &&& partial_valid_utf8(bytes@, e.valid_up_to as int)
            &&& forall|j: int|
                e.valid_up_to < j <= bytes@.len() ==> !partial_valid_utf8(bytes@, j)
            &&& e.error_len == utf8_error_len(bytes@)
            &&& e.error_len matches Some(n) ==> 0 < n && e.valid_up_to + n <= bytes@.len()
            &&& e.error_len is None ==> 1 <= bytes@.len() - e.valid_up_to <= 3
        },
{
    match std::str::from_utf8(bytes) {
        Ok(s) => Ok(s.to_owned()),
        Err(e) => Err(Utf8Failure { valid_up_to: e.valid_up_to(), error_len: e.error_len() }),
    }
}

/// What `String::from_utf8_lossy` makes of a byte string.
pub uninterp spec fn lossy_text(bytes: Seq<u8>) -> Seq<char>;

/// `String::from_utf8_lossy` on `bytes`, made into an owned `String`.
/// Claimed: the result is `lossy_text` of the bytes, and valid UTF-8 is
/// decoded unchanged.
#[verifier::external_body]
pub(crate) fn utf8_lossy(bytes: &[u8]) -> (r: String)
    ensures
        r@ == lossy_text(bytes@),
        valid_utf8(bytes@) ==> r@ == decode_utf8(bytes@),
{
    String::from_utf8_lossy(bytes).into_owned()
}

/// The decimal digit `d` as a character.
pub open spec fn digit_char(d: int) -> char {
    if d == 0 {
        '0'
    } else if d == 1 {
        '1'
    } else if d == 2 {
        '2'
    } else if d == 3 {
        '3'
    } else if d == 4 {
        '4'
    } else if d == 5 {
        '5'
    } else if d == 6 {
        '6'
    } else if d == 7 {
        '7'
    } else if d == 8 {
        '8'
    } else {
        '9'
    }
}

/// The decimal notation of `n`, without leading zeros.
pub open spec fn decimal(n: nat) -> Seq<char>
    decreases n,
{
    if n < 10 {
        seq![digit_char(n as int)]
    } else {
        decimal(n / 10) + seq![digit_char((n % 10) as int)]
    }
}

/// The numbers of `b` in decimal, separated by `", "`.
pub open spec fn list_items(b: Seq<u8>) -> Seq<char>
    decreases b.len(),
{
    if b.len() == 0 {
        Seq::empty()
    } else if b.len() == 1 {
        decimal(b[0] as nat)
    } else {
        list_items(b.drop_last()) + ", "@ + decimal(b.last() as nat)
    }
}

/// How a list of bytes is written for debugging: `[1, 2, 3]`.
pub open spec fn debug_bytes(b: Seq<u8>) -> Seq<char> {
    "["@ + list_items(b) + "]"@
}

fn digit_str(d: u64) -> (r: &'static str)
    requires
        d < 10,
    ensures
        r@ == seq![digit_char(d as int)],
{
    proof {
        reveal_strlit("0");
        reveal_strlit("1");
        reveal_strlit("2");
        reveal_strlit("3");
        reveal_strlit("4");
        reveal_strlit("5");
        reveal_strlit("6");
        reveal_strlit("7");
        reveal_strlit("8");
        reveal_strlit("9");
    }
    if d == 0 {
        "0"
    } else if d == 1 {
        "1"
    } else if d == 2 {
        "2"
    } else if d == 3 {
        "3"
    } else if d == 4 {
        "4"
    } else if d == 5 {
        "5"
    } else if d == 6 {
        "6"
    } else if d == 7 {
        "7"
    } else if d == 8 {
        "8"
    } else {
        "9"
    }
}

/// Appends the decimal notation of `n` to `out`.
pub fn push_decimal(out: &mut String, n: u64)
    ensures
        final(out)@ == old(out)@ + decimal(n as nat),
    decreases n,
{
    if n >= 10 {
        push_decimal(out, n / 10);
    }
    out.append(digit_str(n % 10));
    proof {
        if n >= 10 {
            assert(decimal(n as nat) == decimal((n / 10) as nat) + seq![digit_char((n % 10) as int)]);
        }
    }
}

/// Appends `[b0, b1, ...]` to `out`.
pub fn push_debug_bytes(out: &mut String, b: &[u8])
    ensures
        final(out)@ == old(out)@ + debug_bytes(b@),
{
    let ghost start = out@;
    out.append("[");
    let mut i: usize = 0;
    while i < b.len()
        invariant
            i <= b@.len(),
            out@ == start + "["@ + list_items(b@.subrange(0, i as int)),
        decreases b.len() - i,
    {
        let ghost before = out@;
        if i > 0 {
            out.append(", ");
        }
        push_decimal(out, b[i] as u64);
        proof {
            let pre = b@.subrange(0, i as int);
            let post = b@.subrange(0, i + 1);
            assert(post.drop_last() == pre);
            assert(post.last() == b@[i as int]);
            if i == 0 {
                assert(pre == Seq::<u8>::empty());
                assert(list_items(pre) == Seq::<char>::empty());
                assert(out@ == start + "["@ + list_items(post));
            } else {
                assert(out@ == start + "["@ + list_items(pre) + ", "@ + decimal(b@[i as int] as nat));
            }
        }
        i = i + 1;
    }
    out.append("]");
    proof {
        assert(b@.subrange(0, b@.len() as int) == b@);
    }
}

} // verus!

verus! {

/// Whether two strings hold the same characters.
pub fn str_eq(a: &str, b: &str) -> (r: bool)
    ensures
        r == (a@ == b@),
{
    let x = a.as_bytes();
    let y = b.as_bytes();
    proof {
        encode_utf8_decode_utf8(a@);
        encode_utf8_decode_utf8(b@);
    }
    if x.len() != y.len() {
        return false;
    }
    let n = x.len();
    let mut i: usize = 0;
    while i < n
        invariant
            n == x@.len(),
            n == y@.len(),
            x@ == encode_utf8(a@),
            y@ == encode_utf8(b@),
            decode_utf8(x@) == a@,
            decode_utf8(y@) == b@,
            i <= n,
            forall|j: int| 0 <= j < i ==> x@[j] == y@[j],
        decreases n - i,
    {
        if x[i] != y[i] {
            return false;
        }
        i = i + 1;
    }
    assert(x@ == y@);
    true
}

} // verus!
