//! Query parameters arrive as `key=value` fragments. Each fragment is split
//! here, before the parser sees any of it.
use vstd::prelude::*;
use vstd::string::StringSliceAdditionalSpecFns;
use vstd::utf8::*;
use crate::engine::{
    appended_len, encoded_len, is_kept_byte, pairs_encoded_len, pairs_model,
    URL_LIMIT,
};
use crate::error::violet_net_url_error_t;

verus! {

/// The byte that separates a key from its value.
pub const SEPARATOR: u8 = 0x3d;

/// The position of the first separator in `bytes`, or the length of `bytes`
/// where there is none.
pub open spec fn first_separator(bytes: Seq<u8>) -> int
    decreases bytes.len(),
{
    if bytes.len() == 0 || bytes[0] == SEPARATOR {
        0
    } else {
        1 + first_separator(bytes.skip(1))
    }
}

/// What splitting one fragment gives: the key before the first separator and
/// the value after it, or the reason why the fragment has the wrong shape.
pub open spec fn split_outcome(bytes: Seq<u8>) -> Result<(Seq<u8>, Seq<u8>), violet_net_url_error_t> {
    let at = first_separator(bytes);
    if !bytes.contains(SEPARATOR) {
        Err(violet_net_url_error_t::URL_INVALID_PARAM_STRING)
    } else if bytes.skip(at + 1).contains(SEPARATOR) {
        Err(violet_net_url_error_t::URL_EXTRA_CHAR_IN_PARAM_STRING)
    } else {
        Ok((bytes.take(at), bytes.skip(at + 1)))
    }
}

/// `first_separator` is the least position that holds a separator.
pub proof fn lemma_first_separator(bytes: Seq<u8>)
    ensures
        0 <= first_separator(bytes) <= bytes.len(),
        forall|j: int| 0 <= j < first_separator(bytes) ==> bytes[j] != SEPARATOR,
        first_separator(bytes) < bytes.len() ==> bytes[first_separator(bytes)] == SEPARATOR,
        first_separator(bytes) < bytes.len() <==> bytes.contains(SEPARATOR),
    decreases bytes.len(),
{
    if bytes.len() == 0 || bytes[0] == SEPARATOR {
    } else {
        let rest = bytes.skip(1);
        lemma_first_separator(rest);
        assert forall|j: int| 0 <= j < first_separator(bytes) implies bytes[j] != SEPARATOR by {
            if j > 0 {
                assert(bytes[j] == rest[j - 1]);
            }
        }
        if first_separator(bytes) < bytes.len() {
            assert(bytes[first_separator(bytes)] == rest[first_separator(rest)]);
        }
        if bytes.contains(SEPARATOR) {
            let k = choose|k: int| 0 <= k < bytes.len() && bytes[k] == SEPARATOR;
            assert(rest[k - 1] == SEPARATOR);
        }
    }
}

/// A fragment that splits is its key, one separator and its value, and
/// neither the key nor the value holds a separator.
pub proof fn lemma_split_rejoins(bytes: Seq<u8>)
    requires
        split_outcome(bytes) is Ok,
    ensures
        bytes == split_outcome(bytes).unwrap().0 + seq![SEPARATOR] + split_outcome(bytes).unwrap().1,
        !split_outcome(bytes).unwrap().0.contains(SEPARATOR),
        !split_outcome(bytes).unwrap().1.contains(SEPARATOR),
{
    lemma_first_separator(bytes);
    let at = first_separator(bytes);
    let key = bytes.take(at);
    let value = bytes.skip(at + 1);
    assert(bytes =~= key + seq![SEPARATOR] + value);
    if key.contains(SEPARATOR) {
        let k = choose|k: int| 0 <= k < key.len() && key[k] == SEPARATOR;
        assert(bytes[k] == SEPARATOR);
    }
}

/// A position with no separator before it and a separator at it is the first
/// separator.
proof fn lemma_first_separator_is(bytes: Seq<u8>, at: int)
    requires
        0 <= at <= bytes.len(),
        forall|j: int| 0 <= j < at ==> bytes[j] != SEPARATOR,
        at < bytes.len() ==> bytes[at] == SEPARATOR,
    ensures
        first_separator(bytes) == at,
{
    lemma_first_separator(bytes);
    let f = first_separator(bytes);
    if f < at {
        assert(bytes[f] != SEPARATOR);
    }
}

/// The position of the first separator at or after `from`, or the length of
/// `bytes` where none follows.
fn find_separator(bytes: &[u8], from: usize) -> (at: usize)
    requires
        from <= bytes@.len(),
    ensures
        from <= at <= bytes@.len(),
        forall|j: int| from <= j < at ==> bytes@[j] != SEPARATOR,
        at < bytes@.len() ==> bytes@[at as int] == SEPARATOR,
{
    let mut at: usize = from;
    while at < bytes.len() && bytes[at] != SEPARATOR
        invariant
            from <= at <= bytes@.len(),
            forall|j: int| from <= j < at ==> bytes@[j] != SEPARATOR,
        decreases bytes@.len() - at,
    {
        at += 1;
    }
    at
}

/// Splits one `key=value` fragment at its first separator. A fragment
/// without a separator is refused as `URL_INVALID_PARAM_STRING`, one whose
/// value holds a further separator as `URL_EXTRA_CHAR_IN_PARAM_STRING`.
pub fn split_pair<'a>(fragment: &'a str) -> (pair: Result<(&'a str, &'a str), violet_net_url_error_t>)
    ensures
        match pair {
            Ok((key, value)) => split_outcome(fragment.spec_bytes()) == Ok::<
                (Seq<u8>, Seq<u8>),
                violet_net_url_error_t,
            >((key.spec_bytes(), value.spec_bytes())),
            Err(kind) => split_outcome(fragment.spec_bytes()) == Err::<
                (Seq<u8>, Seq<u8>),
                violet_net_url_error_t,
            >(kind),
        },
{
    broadcast use group_utf8_lib;

    let bytes = fragment.as_bytes();
    let at = find_separator(bytes, 0);
    proof {
        lemma_first_separator_is(bytes@, at as int);
        lemma_first_separator(bytes@);
    }
    if at == bytes.len() {
        return Err(violet_net_url_error_t::URL_INVALID_PARAM_STRING);
    }
    let next = find_separator(bytes, at + 1);
    proof {
        let tail = bytes@.skip(at + 1);
        if next < bytes@.len() {
            assert(tail[next - at - 1] == SEPARATOR);
        } else {
            assert forall|k: int| 0 <= k < tail.len() implies tail[k] != SEPARATOR by {
                assert(tail[k] == bytes@[k + at + 1]);
            }
        }
    }
    if next < bytes.len() {
        return Err(violet_net_url_error_t::URL_EXTRA_CHAR_IN_PARAM_STRING);
    }
    assert(valid_utf8(bytes@));
    assert(!is_continuation_byte(bytes@[at as int]));
    assert(is_char_boundary(bytes@, at as int));
    let (key, rest) = fragment.split_at(at);
    proof {
        let r = rest.spec_bytes();
        assert(r.len() == bytes@.len() - at);
        assert(r[0] == SEPARATOR);
        assert(valid_utf8(r));
        assert(is_char_boundary(r, 1)) by {
            reveal_with_fuel(is_char_boundary, 2);
            reveal_with_fuel(valid_utf8, 2);
            assert(length_of_first_scalar(r) == 1);
        }
    }
    let (_, value) = rest.split_at(1);
    proof {
        assert(key.spec_bytes() =~= bytes@.take(at as int));
        assert(value.spec_bytes() =~= bytes@.skip(at + 1));
    }
    Ok((key, value))
}

/// The value at which counting stops: one more than `URL_LIMIT`.
const CAP: u64 = 0x1_0000_0000;

/// A count that stops at `CAP`.
spec fn capped(n: int) -> int {
    if n <= CAP {
        n
    } else {
        CAP as int
    }
}

/// The bytes of a text that may be absent.
pub open spec fn text_bytes(text: Option<&str>) -> Option<Seq<u8>> {
    match text {
        Some(t) => Some(t.spec_bytes()),
        None => None,
    }
}

/// A prefix of a text is encoded in no more bytes than the text.
proof fn lemma_encoded_len_prefix(bytes: Seq<u8>, n: int)
    requires
        0 <= n <= bytes.len(),
    ensures
        encoded_len(bytes.take(n)) <= encoded_len(bytes),
    decreases bytes.len(),
{
    if n == bytes.len() {
        assert(bytes.take(n) =~= bytes);
    } else {
        assert(bytes.drop_last().take(n) =~= bytes.take(n));
        lemma_encoded_len_prefix(bytes.drop_last(), n);
    }
}

/// Adds `n` to a count that stops at `CAP`.
fn add_capped(total: u64, n: u64) -> (sum: u64)
    requires
        total <= CAP,
    ensures
        sum == capped(total + n),
{
    if n >= CAP - total {
        CAP
    } else {
        total + n
    }
}

/// Adds the number of bytes that the form encoding writes for `bytes` to a
/// count that stops at `CAP`.
fn add_encoded(total: u64, bytes: &[u8]) -> (sum: u64)
    requires
        total <= CAP,
    ensures
        sum == capped(total + encoded_len(bytes@)),
{
    let mut sum: u64 = total;
    let mut at: usize = 0;
    assert(bytes@.take(0) =~= Seq::empty());
    while at < bytes.len() && sum < CAP
        invariant
            at <= bytes@.len(),
            total <= CAP,
            sum == capped(total + encoded_len(bytes@.take(at as int))),
        decreases bytes@.len() - at,
    {
        let byte = bytes[at];
        let kept = byte == 0x2a || byte == 0x2d || byte == 0x2e || byte == 0x5f || (0x30 <= byte
            && byte <= 0x39) || (0x41 <= byte && byte <= 0x5a) || (0x61 <= byte && byte <= 0x7a);
        assert(kept == is_kept_byte(byte));
        proof {
            let upto = bytes@.take(at + 1);
            assert(upto.drop_last() =~= bytes@.take(at as int));
            assert(upto.last() == byte);
        }
        sum = add_capped(sum, if kept || byte == 0x20 { 1 } else { 3 });
        at += 1;
    }
    proof {
        lemma_encoded_len_prefix(bytes@, at as int);
        if at == bytes@.len() {
            assert(bytes@.take(at as int) =~= bytes@);
        }
    }
    sum
}

/// Whether a URL of `text_len` bytes whose query is `query` stays within
/// `URL_LIMIT` once the pairs are appended to it.
pub fn params_fit(text_len: usize, query: Option<&str>, pairs: &Vec<(&str, &str)>) -> (fits: bool)
    ensures
        fits == (text_len + appended_len(text_bytes(query), pairs_model(pairs@)) <= URL_LIMIT),
{
    let ghost model = pairs_model(pairs@);
    let ghost before = text_bytes(query);
    let mut total: u64 = add_capped(0, text_len as u64);
    let joint: u64 = match query {
        None => {
            total = add_capped(total, 1);
            0
        },
        Some(text) => if text.as_bytes().len() > 0 {
            1
        } else {
            0
        },
    };
    let mut at: usize = 0;
    assert(model.take(0) =~= Seq::empty());
    while at < pairs.len()
        invariant
            at <= pairs@.len(),
            model == pairs_model(pairs@),
            before == text_bytes(query),
            joint == (if before is Some && before.unwrap().len() > 0 {
                1int
            } else {
                0int
            }),
            total == capped(text_len + appended_len(before, model.take(at as int))),
        decreases pairs@.len() - at,
    {
        let (key, value) = pairs[at];
        proof {
            let upto = model.take(at + 1);
            assert(upto.drop_last() =~= model.take(at as int));
            assert(upto.last() == (key.spec_bytes(), value.spec_bytes()));
            assert(pairs_encoded_len(model.take(0)) == 0);
        }
        total = add_capped(total, if at == 0 { joint } else { 1 });
        total = add_encoded(total, key.as_bytes());
        total = add_capped(total, 1);
        total = add_encoded(total, value.as_bytes());
        at += 1;
    }
    assert(model.take(at as int) =~= model);
    total <= URL_LIMIT
}

} // verus!
