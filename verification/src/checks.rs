//! Shared checks: identifier text, unique identifier lists, and first-failure scans.
use vstd::prelude::*;
use vstd::utf8::*;
use crate::model::strings_view;

verus! {

/// The first reported problem in a sequence of per-record checks, scanning in order.
pub open spec fn first_some(s: Seq<Option<Seq<char>>>) -> Option<Seq<char>>
    decreases s.len(),
{
    if s.len() == 0 {
        None
    } else {
        match first_some(s.drop_last()) {
            Some(e) => Some(e),
            None => s.last(),
        }
    }
}

/// Scanning one more record keeps an earlier problem, or reports this record's one.
pub proof fn lemma_first_some_step(s: Seq<Option<Seq<char>>>, i: int)
    requires
        0 <= i < s.len(),
    ensures
        first_some(s.take(i + 1)) == (match first_some(s.take(i)) {
            Some(e) => Some(e),
            None => s[i],
        }),
{
    assert(s.take(i + 1).drop_last() =~= s.take(i));
}

/// A problem found in a prefix is the problem reported for the whole sequence.
pub proof fn lemma_first_some_prefix(s: Seq<Option<Seq<char>>>, k: int)
    requires
        0 <= k <= s.len(),
        first_some(s.take(k)) is Some,
    ensures
        first_some(s) == first_some(s.take(k)),
    decreases s.len(),
{
    if k == s.len() {
        assert(s.take(k) =~= s);
    } else {
        assert(s.drop_last().take(k) =~= s.take(k));
        lemma_first_some_prefix(s.drop_last(), k);
    }
}

/// A scan that found nothing in the whole sequence reports nothing.
pub proof fn lemma_first_some_all(s: Seq<Option<Seq<char>>>)
    ensures
        s.take(s.len() as int) == s,
{
    assert(s.take(s.len() as int) =~= s);
}

/// A scan that reports nothing found nothing at any position.
pub proof fn lemma_first_some_none(s: Seq<Option<Seq<char>>>)
    requires
        first_some(s) is None,
    ensures
        forall|i: int| 0 <= i < s.len() ==> #[trigger] s[i] is None,
    decreases s.len(),
{
    if s.len() > 0 {
        lemma_first_some_none(s.drop_last());
        assert forall|i: int| 0 <= i < s.len() implies #[trigger] s[i] is None by {
            if i < s.len() - 1 {
                assert(s.drop_last()[i] == s[i]);
            }
        }
    }
}

/// A scan over positions that all report nothing reports nothing.
pub proof fn lemma_first_some_none_if_all(s: Seq<Option<Seq<char>>>)
    requires
        forall|i: int| 0 <= i < s.len() ==> #[trigger] s[i] is None,
    ensures
        first_some(s) is None,
    decreases s.len(),
{
    if s.len() > 0 {
        assert forall|i: int| 0 <= i < s.drop_last().len() implies #[trigger] s.drop_last()[i] is None by {
            assert(s.drop_last()[i] == s[i]);
        }
        lemma_first_some_none_if_all(s.drop_last());
    }
}

/// The reported problem is the one at the first position that has a problem.
pub proof fn law_first_some_is_first_problem(s: Seq<Option<Seq<char>>>, i: int)
    requires
        0 <= i < s.len(),
        s[i] is Some,
        forall|j: int| 0 <= j < i ==> #[trigger] s[j] is None,
    ensures
        first_some(s) == s[i],
{
    assert forall|j: int| 0 <= j < s.take(i).len() implies #[trigger] s.take(i)[j] is None by {
        assert(s.take(i)[j] == s[j]);
    }
    lemma_first_some_none_if_all(s.take(i));
    lemma_first_some_step(s, i);
    lemma_first_some_prefix(s, i + 1);
}

/// Unicode general category Cc (control codes), as `char::is_control` documents it.
pub open spec fn is_control(c: char) -> bool {
    let u = c as int;
    u <= 0x1f || (0x7f <= u && u <= 0x9f)
}

/// The Unicode White_Space property, which `str::trim` strips.
pub open spec fn is_white_space(c: char) -> bool {
    let u = c as int;
    ||| 0x09 <= u <= 0x0d
    ||| u == 0x20
    ||| u == 0x85
    ||| u == 0xa0
    ||| u == 0x1680
    ||| 0x2000 <= u <= 0x200a
    ||| u == 0x2028
    ||| u == 0x2029
    ||| u == 0x202f
    ||| u == 0x205f
    ||| u == 0x3000
}

/// An identifier: 1–256 UTF-8 bytes, not starting or ending with whitespace (so that
/// trimming leaves it unchanged), with no control characters.
pub open spec fn valid_text(s: Seq<char>) -> bool {
    &&& s.len() > 0
    &&& encode_utf8(s).len() <= 256
    &&& !is_white_space(s[0])
    &&& !is_white_space(s.last())
    &&& forall|i: int| 0 <= i < s.len() ==> !is_control(#[trigger] s[i])
}

/// The message for an identifier that is not valid text.
pub open spec fn text_message() -> Seq<char> {
    "identifiers must be 1–256 bytes without surrounding whitespace or control characters"@
}

/// `Ok` when `ok` holds, else the error `message`.
pub fn require(ok: bool, message: &str) -> (r: Result<(), String>)
    ensures
        r is Ok <==> ok,
        r matches Err(e) ==> e@ == message@,
{
    if ok {
        Ok(())
    } else {
        Err(message.to_owned())
    }
}

fn control_char(c: char) -> (b: bool)
    ensures
        b == is_control(c),
{
    let u = c as u32;
    u <= 0x1f || (0x7f <= u && u <= 0x9f)
}

fn white_space_char(c: char) -> (b: bool)
    ensures
        b == is_white_space(c),
{
    let u = c as u32;
    (0x09 <= u && u <= 0x0d) || u == 0x20 || u == 0x85 || u == 0xa0 || u == 0x1680 || (0x2000
        <= u && u <= 0x200a) || u == 0x2028 || u == 0x2029 || u == 0x202f || u == 0x205f || u
        == 0x3000
}

pub proof fn lemma_utf8_len_bounds(s: Seq<char>)
    ensures
        s.len() <= encode_utf8(s).len() <= 4 * s.len(),
    decreases s.len(),
{
    if s.len() > 0 {
        lemma_utf8_len_bounds(s.drop_first());
    }
}

fn text_ok(value: &str) -> (b: bool)
    ensures
        b == valid_text(value@),
{
    let n = value.unicode_len();
    if n == 0 || n > 256 {
        proof {
            lemma_utf8_len_bounds(value@);
        }
        return false;
    }
    proof {
        lemma_utf8_len_bounds(value@);
    }
    if value.len() > 256 {
        return false;
    }
    if white_space_char(value.get_char(0)) || white_space_char(value.get_char(n - 1)) {
        return false;
    }
    for c in it: value.chars()
        invariant
            it.seq() == value@,
            value@.len() > 0,
            encode_utf8(value@).len() <= 256,
            !is_white_space(value@[0]),
            !is_white_space(value@.last()),
            forall|j: int| 0 <= j < it.index() ==> !is_control(#[trigger] it.seq()[j]),
    {
        if control_char(c) {
            return false;
        }
    }
    true
}

/// Check one identifier.
pub fn text(value: &str) -> (r: Result<(), String>)
    ensures
        r is Ok <==> valid_text(value@),
        r matches Err(e) ==> e@ == text_message(),
{
    require(
        text_ok(value),
        "identifiers must be 1–256 bytes without surrounding whitespace or control characters",
    )
}


/// What is wrong with the identifier at position `i` of a list, if anything: it is not
/// valid text, or it repeats an earlier identifier.
pub open spec fn list_item_error(ids: Seq<Seq<char>>, i: int) -> Option<Seq<char>> {
    if !valid_text(ids[i]) {
        Some(text_message())
    } else if exists|j: int| 0 <= j < i && ids[j] == ids[i] {
        Some("duplicate identifier"@)
    } else {
        None
    }
}

/// The per-identifier problems of a list, in order.
pub open spec fn list_errors(ids: Seq<Seq<char>>) -> Seq<Option<Seq<char>>> {
    Seq::new(ids.len(), |i: int| list_item_error(ids, i))
}

/// A non-empty list of at most `max` valid, pairwise distinct identifiers; otherwise
/// the first problem found.
pub open spec fn unique_list_check(ids: Seq<Seq<char>>, max: int) -> Result<(), Seq<char>> {
    if !(0 < ids.len() <= max) {
        Err("invalid list length"@)
    } else {
        match first_some(list_errors(ids)) {
            Some(e) => Err(e),
            None => Ok(()),
        }
    }
}

fn repeats_earlier(values: &[String], i: usize) -> (b: bool)
    requires
        i < values@.len(),
    ensures
        b == exists|j: int| 0 <= j < i && values@[j]@ == values@[i as int]@,
{
    for j in 0..i
        invariant
            i < values@.len(),
            forall|k: int| 0 <= k < j ==> values@[k]@ != values@[i as int]@,
    {
        if values[j] == values[i] {
            return true;
        }
    }
    false
}

/// Check a list of identifiers: its length is 1..=max, and each identifier is valid and
/// distinct from the earlier ones.
pub fn unique_strings(values: &[String], max: usize) -> (r: Result<(), String>)
    ensures
        match r {
            Ok(_) => unique_list_check(strings_view(values@), max as int) is Ok,
            Err(e) => unique_list_check(strings_view(values@), max as int) == Err::<(), _>(e@),
        },
{
    require(values.len() != 0 && values.len() <= max, "invalid list length")?;
    let ghost ids = strings_view(values@);
    let ghost errs = list_errors(ids);
    let n = values.len();
    for i in 0..n
        invariant
            n == values@.len(),
            0 < n <= max,
            ids == strings_view(values@),
            errs == list_errors(ids),
            first_some(errs.take(i as int)) is None,
    {
        proof {
            lemma_first_some_step(errs, i as int);
            assert(ids[i as int] == values@[i as int]@);
        }
        let checked = text(values[i].as_str());
        if checked.is_err() {
            proof {
                lemma_first_some_prefix(errs, i + 1);
            }
            return checked;
        }
        if repeats_earlier(values, i) {
            proof {
                let j = choose|j: int| 0 <= j < i && values@[j]@ == values@[i as int]@;
                assert(ids[j] == ids[i as int]);
                lemma_first_some_prefix(errs, i + 1);
            }
            return Err("duplicate identifier".to_owned());
        }
    }
    proof {
        lemma_first_some_all(errs);
    }
    Ok(())
}

} // verus!
