use crate::constant::{MIN_TICKER_LEN, TICKER_LEN, TICKER_PAD};
use vstd::prelude::*;

verus! {

/// A byte that may stand in a ticker: an upper-case ASCII letter, a digit, a
/// hyphen or an underscore.
pub open spec fn is_ticker_byte(byte: u8) -> bool {
    ||| 65 <= byte <= 90
    ||| 48 <= byte <= 57
    ||| byte == 45
    ||| byte == 95
}

/// How many of the first `upto` bytes are not the pad byte.
pub open spec fn significant_bytes(ticker: Seq<u8>, upto: int) -> int
    decreases upto,
{
    if upto <= 0 {
        0
    } else {
        significant_bytes(ticker, upto - 1) + if ticker[upto - 1] != TICKER_PAD {
            1int
        } else {
            0int
        }
    }
}

/// A well-formed ticker: it does not start with the pad byte, nothing but
/// pad bytes follows a pad byte, every other byte may stand in a ticker, and
/// at least three bytes are not pad bytes.
pub open spec fn valid_ticker(ticker: Seq<u8>) -> bool {
    &&& ticker.len() == TICKER_LEN
    &&& ticker[0] != TICKER_PAD
    &&& forall|i: int, j: int|
        0 <= i < j < TICKER_LEN && ticker[i] == TICKER_PAD ==> ticker[j] == TICKER_PAD
    &&& forall|i: int| 0 <= i < TICKER_LEN && ticker[i] != TICKER_PAD ==> is_ticker_byte(ticker[i])
    &&& significant_bytes(ticker, TICKER_LEN as int) >= MIN_TICKER_LEN
}

/// A ticker made of `len` bytes that may stand in a ticker, padded to its
/// width.
pub open spec fn padded_ticker(ticker: Seq<u8>, len: int) -> bool {
    &&& ticker.len() == TICKER_LEN
    &&& forall|i: int| 0 <= i < len ==> is_ticker_byte(ticker[i])
    &&& forall|i: int| len <= i < TICKER_LEN ==> ticker[i] == TICKER_PAD
}

/// Of a ticker whose first `len` bytes are not pad bytes and whose other
/// bytes up to `upto` are, `len` bytes are significant.
proof fn lemma_significant_prefix(ticker: Seq<u8>, len: int, upto: int)
    requires
        0 <= len <= upto <= ticker.len(),
        forall|i: int| 0 <= i < len ==> ticker[i] != TICKER_PAD,
        forall|i: int| len <= i < upto ==> ticker[i] == TICKER_PAD,
    ensures
        significant_bytes(ticker, upto) == len,
    decreases upto,
{
    if upto > 0 {
        if len == upto {
            lemma_significant_prefix(ticker, len - 1, upto - 1);
        } else {
            lemma_significant_prefix(ticker, len, upto - 1);
        }
    }
}

/// A ticker is well formed exactly if it is three to sixteen bytes that may
/// stand in a ticker, padded to its width.
pub proof fn lemma_valid_ticker_shape(ticker: Seq<u8>)
    ensures
        valid_ticker(ticker) <==> exists|len: int|
            MIN_TICKER_LEN <= len <= TICKER_LEN && #[trigger] padded_ticker(ticker, len),
{
    if valid_ticker(ticker) {
        let len = significant_bytes(ticker, TICKER_LEN as int);
        lemma_pads_are_suffix(ticker, TICKER_LEN as int);
        assert(padded_ticker(ticker, len));
    }
    if exists|len: int|
        MIN_TICKER_LEN <= len <= TICKER_LEN && #[trigger] padded_ticker(ticker, len) {
        let len = choose|len: int|
            MIN_TICKER_LEN <= len <= TICKER_LEN && #[trigger] padded_ticker(ticker, len);
        assert forall|i: int| 0 <= i < len implies ticker[i] != TICKER_PAD by {
            assert(is_ticker_byte(ticker[i]));
        }
        lemma_significant_prefix(ticker, len, TICKER_LEN as int);
    }
}

/// Where nothing but pad bytes follows a pad byte, the bytes that are not
/// pad bytes come first: among the first `upto` bytes they are as many as
/// `significant_bytes` counts.
proof fn lemma_pads_are_suffix(ticker: Seq<u8>, upto: int)
    requires
        0 <= upto <= ticker.len(),
        forall|i: int, j: int|
            0 <= i < j < ticker.len() && ticker[i] == TICKER_PAD ==> ticker[j] == TICKER_PAD,
    ensures
        0 <= significant_bytes(ticker, upto) <= upto,
        forall|i: int| 0 <= i < significant_bytes(ticker, upto) ==> ticker[i] != TICKER_PAD,
        forall|i: int| significant_bytes(ticker, upto) <= i < upto ==> ticker[i] == TICKER_PAD,
    decreases upto,
{
    if upto > 0 {
        lemma_pads_are_suffix(ticker, upto - 1);
        let before = significant_bytes(ticker, upto - 1);
        if ticker[upto - 1] != TICKER_PAD {
            if before < upto - 1 {
                assert(ticker[before] == TICKER_PAD);
                assert(ticker[upto - 1] == TICKER_PAD);
            }
        }
    }
}

/// Tells whether a ticker is well formed.
pub fn is_valid_ticker(ticker: &[u8; 16]) -> (valid: bool)
    ensures
        valid == valid_ticker(ticker@),
{
    if ticker[0] == TICKER_PAD {
        return false;
    }
    let mut len: usize = 0;
    let mut i: usize = 0;
    while i < TICKER_LEN
        invariant
            i <= TICKER_LEN,
            len <= i,
            ticker@[0] != TICKER_PAD,
            forall|j: int| 0 <= j < len ==> is_ticker_byte(#[trigger] ticker@[j]),
            forall|j: int| len <= j < i ==> #[trigger] ticker@[j] == TICKER_PAD,
        decreases TICKER_LEN - i,
    {
        let byte = ticker[i];
        if byte != TICKER_PAD {
            if len < i {
                assert(ticker@[len as int] == TICKER_PAD);
                return false;
            }
            let allowed = (65 <= byte && byte <= 90) || (48 <= byte && byte <= 57) || byte == 45
                || byte == 95;
            if !allowed {
                return false;
            }
            len += 1;
        }
        i += 1;
    }
    proof {
        assert forall|j: int| 0 <= j < len implies ticker@[j] != TICKER_PAD by {
            assert(is_ticker_byte(ticker@[j]));
        }
        lemma_significant_prefix(ticker@, len as int, TICKER_LEN as int);
    }
    len >= MIN_TICKER_LEN
}

} // verus!
