//! Text that comes from and goes to the host: white space at the ends of a
//! command's output, and numbers written in decimal.

use vstd::prelude::*;
use vstd::string::*;

verus! {

/// The characters that Unicode gives the property `White_Space`.
pub open spec fn spec_is_space(c: char) -> bool {
    let code = c as u32;
    ||| 0x09 <= code <= 0x0D
    ||| code == 0x20
    ||| code == 0x85
    ||| code == 0xA0
    ||| code == 0x1680
    ||| 0x2000 <= code <= 0x200A
    ||| code == 0x2028
    ||| code == 0x2029
    ||| code == 0x202F
    ||| code == 0x205F
    ||| code == 0x3000
}

/// How many characters are left of `text` once the white space at its end is
/// taken away.
pub open spec fn spec_trimmed_end(text: Seq<char>) -> nat
    decreases text.len(),
{
    if text.len() > 0 && spec_is_space(text.last()) {
        spec_trimmed_end(text.drop_last())
    } else {
        text.len()
    }
}

/// How many characters of white space stand at the start of `text`.
pub open spec fn spec_leading_space(text: Seq<char>) -> nat
    decreases text.len(),
{
    if text.len() > 0 && spec_is_space(text[0]) {
        1 + spec_leading_space(text.drop_first())
    } else {
        0
    }
}

/// `text` without the white space at its start and at its end.
pub open spec fn spec_trim(text: Seq<char>) -> Seq<char> {
    let kept = text.take(spec_trimmed_end(text) as int);
    kept.skip(spec_leading_space(kept) as int)
}

/// The counts that `spec_trim` goes by stay within the text.
pub proof fn lemma_trim_bounds(text: Seq<char>)
    ensures
        spec_trimmed_end(text) <= text.len(),
        spec_leading_space(text) <= text.len(),
    decreases text.len(),
{
    if text.len() > 0 {
        lemma_trim_bounds(text.drop_last());
        lemma_trim_bounds(text.drop_first());
    }
}

/// What was trimmed has no white space at either end, and nothing but white
/// space was taken away.
pub proof fn lemma_trim_is_tight(text: Seq<char>)
    ensures
        spec_trim(text).len() > 0 ==> !spec_is_space(spec_trim(text)[0]) && !spec_is_space(
            spec_trim(text).last(),
        ),
        forall|i: int|
            spec_trimmed_end(text) <= i < text.len() ==> spec_is_space(#[trigger] text[i]),
        forall|i: int|
            0 <= i < spec_leading_space(text.take(spec_trimmed_end(text) as int))
                ==> spec_is_space(#[trigger] text[i]),
{
    lemma_trim_bounds(text);
    lemma_end_is_space(text);
    let kept = text.take(spec_trimmed_end(text) as int);
    lemma_trim_bounds(kept);
    lemma_start_is_space(kept);
    lemma_trimmed_end_last(text);
    assert forall|i: int| 0 <= i < spec_leading_space(kept) implies spec_is_space(
        #[trigger] text[i],
    ) by {
        assert(text[i] == kept[i]);
    }
    if spec_trim(text).len() > 0 {
        assert(spec_trim(text).last() == kept.last());
        assert(spec_trim(text)[0] == kept[spec_leading_space(kept) as int]);
    }
}

proof fn lemma_end_is_space(text: Seq<char>)
    ensures
        spec_trimmed_end(text) <= text.len(),
        forall|i: int|
            spec_trimmed_end(text) <= i < text.len() ==> spec_is_space(#[trigger] text[i]),
    decreases text.len(),
{
    if text.len() > 0 && spec_is_space(text.last()) {
        lemma_end_is_space(text.drop_last());
        assert forall|i: int| spec_trimmed_end(text) <= i < text.len() implies spec_is_space(
            #[trigger] text[i],
        ) by {
            if i < text.len() - 1 {
                assert(text[i] == text.drop_last()[i]);
            }
        }
    }
}

proof fn lemma_start_is_space(text: Seq<char>)
    ensures
        spec_leading_space(text) <= text.len(),
        forall|i: int| 0 <= i < spec_leading_space(text) ==> spec_is_space(#[trigger] text[i]),
        spec_leading_space(text) < text.len() ==> !spec_is_space(
            text[spec_leading_space(text) as int],
        ),
    decreases text.len(),
{
    if text.len() > 0 && spec_is_space(text[0]) {
        lemma_start_is_space(text.drop_first());
        assert forall|i: int| 0 <= i < spec_leading_space(text) implies spec_is_space(
            #[trigger] text[i],
        ) by {
            if i > 0 {
                assert(text[i] == text.drop_first()[i - 1]);
            }
        }
        let n = spec_leading_space(text.drop_first());
        if spec_leading_space(text) < text.len() {
            assert(text[spec_leading_space(text) as int] == text.drop_first()[n as int]);
        }
    }
}

proof fn lemma_trimmed_end_last(text: Seq<char>)
    ensures
        spec_trimmed_end(text) > 0 ==> !spec_is_space(text[spec_trimmed_end(text) - 1]),
        spec_trimmed_end(text) <= text.len(),
    decreases text.len(),
{
    if text.len() > 0 && spec_is_space(text.last()) {
        lemma_trimmed_end_last(text.drop_last());
        let n = spec_trimmed_end(text);
        if n > 0 {
            assert(text[n - 1] == text.drop_last()[n - 1]);
        }
    }
}

/// Whether `c` is white space.
pub fn is_space(c: char) -> (space: bool)
    ensures
        space == spec_is_space(c),
{
    let code: u32 = c as u32;
    (0x09 <= code && code <= 0x0D) || code == 0x20 || code == 0x85 || code == 0xA0 || code
        == 0x1680 || (0x2000 <= code && code <= 0x200A) || code == 0x2028 || code == 0x2029
        || code == 0x202F || code == 0x205F || code == 0x3000
}

/// `text` without the white space at its start and at its end.
pub fn trim(text: &str) -> (trimmed: String)
    ensures
        trimmed@ == spec_trim(text@),
{
    let total: usize = text.unicode_len();
    let mut end: usize = total;
    assert(text@.take(end as int) =~= text@);
    while end > 0 && is_space(text.get_char(end - 1))
        invariant
            end <= total == text@.len(),
            spec_trimmed_end(text@.take(end as int)) == spec_trimmed_end(text@),
        decreases end,
    {
        assert(text@.take(end as int).drop_last() =~= text@.take(end - 1));
        end = end - 1;
    }
    let ghost kept = text@.take(end as int);
    let mut start: usize = 0;
    assert(kept.skip(0) =~= kept);
    while start < end && is_space(text.get_char(start))
        invariant
            start <= end <= total == text@.len(),
            kept == text@.take(end as int),
            start + spec_leading_space(kept.skip(start as int)) == spec_leading_space(kept),
        decreases end - start,
    {
        assert(kept.skip(start as int).drop_first() =~= kept.skip(start + 1));
        start = start + 1;
    }
    let trimmed = String::from_str(text.substring_char(start, end));
    assert(trimmed@ =~= kept.skip(start as int));
    trimmed
}

/// The character that stands for a digit below ten.
pub open spec fn spec_digit(d: nat) -> char {
    if d == 0 {
        '0'
    } else if d == 1 {
        '1'
    } else if d == 2 {
        '2'
    } else if d == 3 {
        '3'
    } else if d == 4 {
        '4'
    } else if d == 5 {
        '5'
    } else if d == 6 {
        '6'
    } else if d == 7 {
        '7'
    } else if d == 8 {
        '8'
    } else {
        '9'
    }
}

/// `n` written in decimal, without leading zeros.
pub open spec fn spec_decimal(n: nat) -> Seq<char>
    decreases n,
{
    if n < 10 {
        seq![spec_digit(n)]
    } else {
        spec_decimal(n / 10).push(spec_digit(n % 10))
    }
}

/// The text of one digit.
fn digit(d: u16) -> (text: &'static str)
    requires
        d < 10,
    ensures
        text@ == seq![spec_digit(d as nat)],
{
    proof {
        reveal_strlit("0");
        reveal_strlit("1");
        reveal_strlit("2");
        reveal_strlit("3");
        reveal_strlit("4");
        reveal_strlit("5");
        reveal_strlit("6");
        reveal_strlit("7");
        reveal_strlit("8");
        reveal_strlit("9");
    }
    let text = if d == 0 {
        "0"
    } else if d == 1 {
        "1"
    } else if d == 2 {
        "2"
    } else if d == 3 {
        "3"
    } else if d == 4 {
        "4"
    } else if d == 5 {
        "5"
    } else if d == 6 {
        "6"
    } else if d == 7 {
        "7"
    } else if d == 8 {
        "8"
    } else {
        "9"
    };
    assert(text@ =~= seq![spec_digit(d as nat)]);
    text
}

/// Writes `n` in decimal.
pub fn decimal(n: u16) -> (text: String)
    ensures
        text@ == spec_decimal(n as nat),
    decreases n,
{
    if n < 10 {
        String::from_str(digit(n))
    } else {
        let mut text = decimal(n / 10);
        text.append(digit(n % 10));
        assert(text@ =~= spec_decimal(n as nat / 10).push(spec_digit(n as nat % 10)));
        text
    }
}

} // verus!
