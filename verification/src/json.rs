//! Framing of the JSON replies that the mod index commands send back.
//!
//! Each mod is serialised on its own; this module joins those encodings
//! into the arrays and the `{"count":..,"mods":[..]}` object the frontend
//! reads.
use vstd::prelude::*;

verus! {

/// The encodings of `items` separated by commas: the body of a JSON array.
pub open spec fn joined(items: Seq<Seq<u8>>) -> Seq<u8>
    decreases items.len(),
{
    if items.len() == 0 {
        Seq::empty()
    } else if items.len() == 1 {
        items[0]
    } else {
        joined(items.drop_last()) + seq![COMMA] + items.last()
    }
}

pub const COMMA: u8 = 44;

pub const OPEN_BRACKET: u8 = 91;

pub const CLOSE_BRACKET: u8 = 93;

/// A JSON array whose elements are the given encodings.
pub open spec fn json_array(items: Seq<Seq<u8>>) -> Seq<u8> {
    seq![OPEN_BRACKET] + joined(items) + seq![CLOSE_BRACKET]
}

/// The ASCII decimal digits of `n`, without leading zeros: how JSON writes
/// an unsigned integer.
pub open spec fn decimal(n: nat) -> Seq<u8>
    decreases n,
{
    if n < 10 {
        seq![(48 + n) as u8]
    } else {
        decimal(n / 10) + seq![(48 + n % 10) as u8]
    }
}

/// The text `{"count":`.
pub open spec fn count_prefix() -> Seq<u8> {
    seq![123u8, 34, 99, 111, 117, 110, 116, 34, 58]
}

/// The text `,"mods":[`.
pub open spec fn mods_infix() -> Seq<u8> {
    seq![44u8, 34, 109, 111, 100, 115, 34, 58, 91]
}

/// The text `]}`.
pub open spec fn reply_suffix() -> Seq<u8> {
    seq![93u8, 125]
}

/// Which of `len` query results a reply lists: it drops the first `skip`
/// (none when absent) and keeps at most `limit` of the rest (all when absent).
pub open spec fn window(items: Seq<Seq<u8>>, skip: Option<usize>, limit: Option<usize>) -> Seq<Seq<u8>> {
    let start: int = match skip {
        Some(s) => if s < items.len() { s as int } else { items.len() as int },
        None => 0,
    };
    let rest = items.subrange(start, items.len() as int);
    match limit {
        Some(l) => if l < rest.len() { rest.subrange(0, l as int) } else { rest },
        None => rest,
    }
}

/// The whole reply to a query whose results, in order, have the encodings
/// `items`.
pub open spec fn reply_to_query(items: Seq<Seq<u8>>, skip: Option<usize>, limit: Option<usize>) -> Seq<u8> {
    count_prefix() + decimal(items.len()) + mods_infix() + joined(window(items, skip, limit))
        + reply_suffix()
}

pub proof fn lemma_joined_push(items: Seq<Seq<u8>>, item: Seq<u8>)
    requires
        items.len() > 0,
    ensures
        joined(items.push(item)) == joined(items) + seq![COMMA] + item,
{
    assert(items.push(item).drop_last() == items);
}

fn push_bytes(buf: &mut Vec<u8>, bytes: &Vec<u8>)
    ensures
        final(buf)@ == old(buf)@ + bytes@,
{
    let n = bytes.len();
    let mut i: usize = 0;
    while i < n
        invariant
            n == bytes@.len(),
            i <= n,
            buf@ == old(buf)@ + bytes@.subrange(0, i as int),
        decreases n - i,
    {
        buf.push(bytes[i]);
        i = i + 1;
        assert(bytes@.subrange(0, i as int) == bytes@.subrange(0, (i - 1) as int).push(bytes@[i - 1]));
    }
    assert(bytes@.subrange(0, n as int) == bytes@);
}

/// Appends to `buf` the encodings `items[lo..hi]`, separated by commas.
fn push_joined(buf: &mut Vec<u8>, items: &[Vec<u8>], lo: usize, hi: usize)
    requires
        lo <= hi <= items@.len(),
    ensures
        final(buf)@ == old(buf)@ + joined(
            items@.map_values(|v: Vec<u8>| v@).subrange(lo as int, hi as int),
        ),
{
    let ghost views = items@.map_values(|v: Vec<u8>| v@);
    let mut i: usize = lo;
    while i < hi
        invariant
            hi <= items@.len(),
            views == items@.map_values(|v: Vec<u8>| v@),
            lo <= i <= hi,
            buf@ == old(buf)@ + joined(views.subrange(lo as int, i as int)),
        decreases hi - i,
    {
        if i > lo {
            buf.push(COMMA);
        }
        push_bytes(buf, &items[i]);
        proof {
            let prev = views.subrange(lo as int, i as int);
            let next = views.subrange(lo as int, i + 1);
            assert(next == prev.push(views[i as int]));
            if i > lo {
                lemma_joined_push(prev, views[i as int]);
            } else {
                assert(next.len() == 1);
                assert(prev.len() == 0);
            }
        }
        i = i + 1;
    }
}

/// Appends to `buf` the encodings in `items`, separated by commas.
pub fn map_to_json(buf: &mut Vec<u8>, items: &[Vec<u8>])
    ensures
        final(buf)@ == old(buf)@ + joined(items@.map_values(|v: Vec<u8>| v@)),
{
    push_joined(buf, items, 0, items.len());
    assert(items@.map_values(|v: Vec<u8>| v@).subrange(0, items@.len() as int) == items@.map_values(
        |v: Vec<u8>| v@,
    ));
}

/// `simd_json::serde::to_writer` with `n` into `buf`. Serde hands a `usize`
/// to the serializer as a `u64`, which simd-json writes with `itoa`: the
/// decimal digits of `n`, without sign, leading zeros or quotes, appended to
/// what `buf` held. Writing into a `Vec` cannot fail.
#[verifier::external_body]
fn write_json_usize(buf: &mut Vec<u8>, n: usize)
    ensures
        final(buf)@ == old(buf)@ + decimal(n as nat),
{
    simd_json::serde::to_writer(&mut *buf, &n).unwrap();
}

fn push_literal(buf: &mut Vec<u8>, bytes: Vec<u8>)
    ensures
        final(buf)@ == old(buf)@ + bytes@,
{
    push_bytes(buf, &bytes);
}

/// The reply to `get_from_mod_index`: a JSON array of the given encodings.
pub fn array_reply(items: &[Vec<u8>]) -> (r: Vec<u8>)
    ensures
        r@ == json_array(items@.map_values(|v: Vec<u8>| v@)),
{
    let mut out: Vec<u8> = Vec::new();
    out.push(OPEN_BRACKET);
    map_to_json(&mut out, items);
    out.push(CLOSE_BRACKET);
    out
}

/// The reply to `query_mod_index`: the number of results, then the window
/// of them that `skip` and `limit` select.
pub fn query_reply(items: &[Vec<u8>], skip: Option<usize>, limit: Option<usize>) -> (r: Vec<u8>)
    ensures
        r@ == reply_to_query(items@.map_values(|v: Vec<u8>| v@), skip, limit),
{
    let ghost views = items@.map_values(|v: Vec<u8>| v@);
    let count = items.len();
    let mut out: Vec<u8> = Vec::new();
    push_literal(&mut out, vec![123u8, 34, 99, 111, 117, 110, 116, 34, 58]);
    write_json_usize(&mut out, count);
    push_literal(&mut out, vec![44u8, 34, 109, 111, 100, 115, 34, 58, 91]);
    let start: usize = match skip {
        Some(s) => if s < count { s } else { count },
        None => 0,
    };
    let end: usize = match limit {
        Some(l) => if l < count - start { start + l } else { count },
        None => count,
    };
    push_joined(&mut out, items, start, end);
    push_literal(&mut out, vec![93u8, 125]);
    proof {
        let rest = views.subrange(start as int, count as int);
        assert(views.subrange(start as int, end as int) == window(views, skip, limit)) by {
            if let Some(l) = limit {
                if l < rest.len() {
                    assert(rest.subrange(0, l as int) == views.subrange(start as int, end as int));
                }
            }
        }
    }
    out
}


/// The body of a JSON array of no items is empty.
pub proof fn lemma_joined_empty()
    ensures
        joined(Seq::empty()) == Seq::<u8>::empty(),
{
}

/// The body of a JSON array of one item is that item's encoding.
pub proof fn lemma_joined_single(item: Seq<u8>)
    ensures
        joined(seq![item]) == item,
{
}

/// Adding an item to a non-empty array body adds a comma and its encoding.
pub proof fn lemma_joined_append(items: Seq<Seq<u8>>, item: Seq<u8>)
    requires
        items.len() > 0,
    ensures
        joined(items.push(item)) == joined(items) + seq![44u8] + item,
{
    lemma_joined_push(items, item);
}

/// A reply listing mods is a JSON array, whatever the number of items:
/// `[`, the encodings joined by commas, `]`.
pub proof fn lemma_array_is_bracketed(items: Seq<Seq<u8>>)
    ensures
        json_array(items).len() == joined(items).len() + 2,
        json_array(items)[0] == 91u8,
        json_array(items)[json_array(items).len() - 1] == 93u8,
        json_array(items).subrange(1, json_array(items).len() - 1) == joined(items),
{
    let a = json_array(items);
    assert(a.subrange(1, a.len() - 1) =~= joined(items));
}

/// The results a query reply lists are a skip followed by a take: with `n`
/// results, it drops the first `min(skip, n)` (none without a skip) and
/// lists the next `min(limit, n - min(skip, n))` of them (all the rest
/// without a limit), in order.
pub proof fn lemma_window_skips_then_takes(
    items: Seq<Seq<u8>>,
    skip: Option<usize>,
    limit: Option<usize>,
)
    ensures
        ({
            let n = items.len() as int;
            let start: int = match skip {
                Some(s) => if s <= n {
                    s as int
                } else {
                    n
                },
                None => 0,
            };
            let rest = n - start;
            let count: int = match limit {
                Some(l) => if l <= rest {
                    l as int
                } else {
                    rest
                },
                None => rest,
            };
            let w = window(items, skip, limit);
            &&& w.len() == count
            &&& forall|i: int| 0 <= i < count ==> #[trigger] w[i] == items[start + i]
        }),
{
}

/// A limit only cuts the listed results short: the reply with a limit lists
/// a prefix of what the reply without one lists, as many as the limit
/// allows.
pub proof fn lemma_limit_takes_a_prefix(items: Seq<Seq<u8>>, skip: Option<usize>, l: usize)
    ensures
        ({
            let all = window(items, skip, None);
            let some = window(items, skip, Some(l));
            &&& some.len() == if l <= all.len() {
                l as int
            } else {
                all.len() as int
            }
            &&& some == all.subrange(0, some.len() as int)
        }),
{
    let all = window(items, skip, None);
    let some = window(items, skip, Some(l));
    assert(some =~= all.subrange(0, some.len() as int));
}

/// A reply to a query is `{"count":`, the decimal number of all results,
/// `,"mods":[`, the listed results joined by commas, and `]}`; the count
/// does not depend on `skip` and `limit`.
pub proof fn lemma_query_reply_layout(items: Seq<Seq<u8>>, skip: Option<usize>, limit: Option<usize>)
    ensures
        reply_to_query(items, skip, limit) == seq![123u8, 34, 99, 111, 117, 110, 116, 34, 58]
            + decimal(items.len()) + seq![44u8, 34, 109, 111, 100, 115, 34, 58, 91] + joined(
            window(items, skip, limit),
        ) + seq![93u8, 125],
        reply_to_query(items, skip, limit).subrange(0, 9 + decimal(items.len()).len() as int)
            == reply_to_query(items, None, None).subrange(0, 9 + decimal(items.len()).len() as int),
{
    let k: int = 9 + decimal(items.len()).len() as int;
    let head = count_prefix() + decimal(items.len());
    assert(reply_to_query(items, skip, limit).subrange(0, k) =~= head);
    assert(reply_to_query(items, None, None).subrange(0, k) =~= head);
}

/// JSON writes 0 as `0` and a larger number as the digits of its tenth
/// followed by its last digit.
pub proof fn lemma_decimal_digits(n: nat)
    ensures
        n < 10 ==> decimal(n) == seq![(48 + n) as u8],
        n >= 10 ==> decimal(n) == decimal(n / 10) + seq![(48 + n % 10) as u8],
{
}


/// The number that a sequence of ASCII decimal digits spells.
pub open spec fn digits_value(digits: Seq<u8>) -> int
    decreases digits.len(),
{
    if digits.len() == 0 {
        0
    } else {
        digits_value(digits.drop_last()) * 10 + (digits.last() - 48)
    }
}

/// The count of a reply is written in ASCII decimal digits, without a
/// leading zero, and spells the number of results.
pub proof fn lemma_decimal_spells_number(n: nat)
    ensures
        decimal(n).len() >= 1,
        forall|i: int| 0 <= i < decimal(n).len() ==> 48 <= #[trigger] decimal(n)[i] <= 57,
        n > 0 ==> decimal(n)[0] != 48,
        digits_value(decimal(n)) == n,
    decreases n,
{
    if n >= 10 {
        lemma_decimal_spells_number(n / 10);
        let d = decimal(n);
        let head = decimal(n / 10);
        assert(d == head + seq![(48 + n % 10) as u8]);
        assert(d.drop_last() == head);
        assert forall|i: int| 0 <= i < d.len() implies 48 <= #[trigger] d[i] <= 57 by {
            if i < head.len() {
                assert(d[i] == head[i]);
            }
        }
        assert(d[0] == head[0]);
        assert(d.last() == (48 + n % 10) as u8);
        assert(((48 + n % 10) as u8) as int == 48 + n % 10);
        assert(digits_value(d) == digits_value(head) * 10 + (d.last() - 48));
        assert((n / 10) * 10 + n % 10 == n) by (nonlinear_arith);
    } else {
        let d = decimal(n);
        assert(d.drop_last() == Seq::<u8>::empty());
        assert(d.last() == (48 + n) as u8);
        assert(digits_value(d) == digits_value(d.drop_last()) * 10 + (d.last() - 48));
    }
}

} // verus!
