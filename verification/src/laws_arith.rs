//! Laws about the aggregates and encodings the rules rely on, stated independently of
//! their recursive definitions.
use vstd::prelude::*;
use vstd::utf8::encode_utf8;
use crate::digest::{framed, hex_digit, lower_hex};
use crate::model::{SpecPost, SpecRespondent};
use crate::report::decimal;
use crate::rules::{count_qualifying, count_true, qualifies, sum_views};

verus! {

/// The positive-answer count starts at zero and grows by exactly one for each `true`
/// answer appended, whatever the answers before it and however many there are.
pub proof fn law_count_true_appends(s: Seq<bool>, b: bool)
    ensures
        count_true(Seq::<bool>::empty()) == 0,
        count_true(s.push(b)) == count_true(s) + if b {
            1int
        } else {
            0int
        },
{
    assert(s.push(b).drop_last() =~= s);
}

/// The positive-answer count is the number of positions holding `true`, and never
/// exceeds the number of answers.
pub proof fn law_count_true_counts_positions(s: Seq<bool>)
    ensures
        count_true(s) == s.filter(|b: bool| b).len(),
        count_true(s) <= s.len(),
        (forall|i: int| 0 <= i < s.len() ==> s[i]) ==> count_true(s) == s.len(),
        (forall|i: int| 0 <= i < s.len() ==> !s[i]) ==> count_true(s) == 0,
    decreases s.len(),
{
    reveal_with_fuel(Seq::filter, 1);
    if s.len() > 0 {
        law_count_true_counts_positions(s.drop_last());
        assert(s.drop_last().filter(|b: bool| b) =~= s.filter(|b: bool| b).drop_last()
            || s.filter(|b: bool| b) =~= s.drop_last().filter(|b: bool| b));
        if forall|i: int| 0 <= i < s.len() ==> s[i] {
            assert forall|i: int| 0 <= i < s.drop_last().len() implies s.drop_last()[i] by {
                assert(s.drop_last()[i] == s[i]);
            }
        }
        if forall|i: int| 0 <= i < s.len() ==> !s[i] {
            assert forall|i: int| 0 <= i < s.drop_last().len() implies !s.drop_last()[i] by {
                assert(s.drop_last()[i] == s[i]);
            }
        }
    }
}

/// The view total starts at zero and grows by exactly the appended post's views,
/// whatever the earlier posts' view counts.
pub proof fn law_sum_views_appends(posts: Seq<SpecPost>, p: SpecPost)
    ensures
        sum_views(Seq::<SpecPost>::empty()) == 0,
        sum_views(posts.push(p)) == sum_views(posts) + p.views,
{
    assert(posts.push(p).drop_last() =~= posts);
}

/// The view total of two lists put together is the sum of their totals.
pub proof fn law_sum_views_concat(a: Seq<SpecPost>, b: Seq<SpecPost>)
    ensures
        sum_views(a + b) == sum_views(a) + sum_views(b),
    decreases b.len(),
{
    if b.len() == 0 {
        assert(a + b =~= a);
    } else {
        law_sum_views_concat(a, b.drop_last());
        assert((a + b).drop_last() =~= a + b.drop_last());
    }
}

/// Every post's views are part of the total, and so is every prefix's total.
pub proof fn law_sum_views_bounds(posts: Seq<SpecPost>, k: int)
    requires
        0 <= k <= posts.len(),
    ensures
        sum_views(posts.take(k)) <= sum_views(posts),
        k < posts.len() ==> posts[k].views <= sum_views(posts),
{
    law_sum_views_concat(posts.take(k), posts.skip(k));
    assert(posts.take(k) + posts.skip(k) =~= posts);
    if k < posts.len() {
        law_sum_views_concat(posts.take(k), posts.skip(k));
        let rest = posts.skip(k);
        law_sum_views_concat(seq![rest[0]], rest.skip(1));
        assert(seq![rest[0]] + rest.skip(1) =~= rest);
        law_sum_views_appends(Seq::<SpecPost>::empty(), rest[0]);
        assert(Seq::<SpecPost>::empty().push(rest[0]) =~= seq![rest[0]]);
    }
}

/// The positive-respondent count grows by one exactly when the appended respondent
/// has `count_true(answers) * 10000 >= questions * bps`.
pub proof fn law_count_qualifying_appends(
    rs: Seq<SpecRespondent>,
    r: SpecRespondent,
    questions: nat,
    bps: u32,
)
    ensures
        count_qualifying(Seq::<SpecRespondent>::empty(), questions, bps) == 0,
        qualifies(r, questions, bps) <==> count_true(r.positive_answers) * 10_000 >= questions
            * bps,
        count_qualifying(rs.push(r), questions, bps) == count_qualifying(rs, questions, bps)
            + if count_true(r.positive_answers) * 10_000 >= questions * bps {
            1int
        } else {
            0int
        },
        count_qualifying(rs, questions, bps) <= rs.len(),
    decreases rs.len(),
{
    assert(rs.push(r).drop_last() =~= rs);
    if rs.len() > 0 {
        law_count_qualifying_appends(rs.drop_last(), rs.last(), questions, bps);
        assert(rs.drop_last().push(rs.last()) =~= rs);
    }
}

/// The hashed message is the domain's UTF-8 bytes, one zero byte, and the whole
/// serialization: its length counts every byte, the serialization can be read back
/// from it, and two serializations that differ anywhere give different messages.
pub proof fn law_framed_holds_whole_serialization(domain: Seq<char>, v: Seq<u8>, w: Seq<u8>)
    ensures
        framed(domain, v).len() == encode_utf8(domain).len() + 1 + v.len(),
        framed(domain, v).take(encode_utf8(domain).len() as int) == encode_utf8(domain),
        framed(domain, v)[encode_utf8(domain).len() as int] == 0u8,
        framed(domain, v).skip(encode_utf8(domain).len() as int + 1) == v,
        framed(domain, v) == framed(domain, w) ==> v == w,
{
    let d = encode_utf8(domain);
    assert(framed(domain, v).take(d.len() as int) =~= d);
    assert(framed(domain, v).skip(d.len() as int + 1) =~= v);
    assert(framed(domain, w).skip(d.len() as int + 1) =~= w);
}

/// Lowercase hex spells each byte as two digits, high nibble first: its length is
/// twice the byte count, each digit is `0`–`9` or `a`–`f`, and the digits at positions
/// `2i` and `2i + 1` give back byte `i`.
pub proof fn law_lower_hex_spells_bytes(bytes: Seq<u8>)
    ensures
        lower_hex(bytes).len() == 2 * bytes.len(),
        forall|i: int|
            0 <= i < lower_hex(bytes).len() ==> {
                let c = #[trigger] lower_hex(bytes)[i] as int;
                (48 <= c <= 57) || (97 <= c <= 102)
            },
        forall|i: int|
            0 <= i < bytes.len() ==> hex_value(lower_hex(bytes)[2 * i]) * 16 + hex_value(
                lower_hex(bytes)[2 * i + 1],
            ) == #[trigger] bytes[i],
    decreases bytes.len(),
{
    if bytes.len() > 0 {
        let init = bytes.drop_last();
        law_lower_hex_spells_bytes(init);
        let b = bytes.last();
        assert forall|i: int| 0 <= i < bytes.len() implies hex_value(lower_hex(bytes)[2 * i]) * 16
            + hex_value(lower_hex(bytes)[2 * i + 1]) == #[trigger] bytes[i] by {
            if i < init.len() {
                assert(bytes[i] == init[i]);
                assert(lower_hex(bytes)[2 * i] == lower_hex(init)[2 * i]);
                assert(lower_hex(bytes)[2 * i + 1] == lower_hex(init)[2 * i + 1]);
            } else {
                assert(lower_hex(bytes)[2 * i] == hex_digit((b / 16) as nat));
                assert(lower_hex(bytes)[2 * i + 1] == hex_digit((b % 16) as nat));
            }
        }
    }
}

/// The value of a lowercase hex digit character.
pub open spec fn hex_value(c: char) -> int {
    let u = c as int;
    if 48 <= u <= 57 {
        u - 48
    } else {
        u - 87
    }
}

/// Different byte strings have different lowercase hex spellings.
pub proof fn law_lower_hex_injective(a: Seq<u8>, b: Seq<u8>)
    requires
        lower_hex(a) == lower_hex(b),
    ensures
        a == b,
{
    law_lower_hex_spells_bytes(a);
    law_lower_hex_spells_bytes(b);
    assert forall|i: int| 0 <= i < a.len() implies a[i] == b[i] by {
        assert(hex_value(lower_hex(a)[2 * i]) * 16 + hex_value(lower_hex(a)[2 * i + 1]) == a[i]);
        assert(hex_value(lower_hex(b)[2 * i]) * 16 + hex_value(lower_hex(b)[2 * i + 1]) == b[i]);
    }
    assert(a =~= b);
}

/// The number that a string of decimal digits spells.
pub open spec fn digits_value(s: Seq<char>) -> int
    decreases s.len(),
{
    if s.len() == 0 {
        0
    } else {
        digits_value(s.drop_last()) * 10 + (s.last() as int - 48)
    }
}

/// Decimal rendering spells the number back: only digits `0`–`9`, no leading zero
/// except for zero itself, and the digits' value is the number.
pub proof fn law_decimal_spells_number(n: nat)
    ensures
        digits_value(decimal(n)) == n,
        decimal(n).len() > 0,
        forall|i: int| 0 <= i < decimal(n).len() ==> 48 <= #[trigger] (decimal(n)[i] as int) <= 57,
        decimal(n)[0] as int == 48 ==> n == 0,
    decreases n,
{
    if n >= 10 {
        law_decimal_spells_number(n / 10);
        let d = decimal(n);
        assert(d.drop_last() =~= decimal(n / 10));
        assert forall|i: int| 0 <= i < d.len() implies 48 <= #[trigger] (d[i] as int) <= 57 by {
            if i < d.len() - 1 {
                assert(d[i] == decimal(n / 10)[i]);
            }
        }
        assert(d[0] == decimal(n / 10)[0]);
        assert(d.last() == hex_digit(n % 10));
        assert(hex_digit(n % 10) as int == 48 + n % 10);
        assert(digits_value(d) == digits_value(decimal(n / 10)) * 10 + (n % 10) as int);
        assert((n / 10) * 10 + n % 10 == n) by (nonlinear_arith);
    } else {
        assert(hex_digit(n) as int == 48 + n);
        assert(decimal(n).drop_last() =~= Seq::<char>::empty());
        assert(digits_value(decimal(n).drop_last()) == 0);
        assert(digits_value(decimal(n)) == n);
    }
}

} // verus!
