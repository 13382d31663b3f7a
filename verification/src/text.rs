//! Text shaping for list display: each line is prefixed with its one-based
//! position, padded to a fixed-width number column.

use vstd::prelude::*;

use crate::chars::{chars_to_string, str_to_chars};

verus! {

/// The decimal digit character for `d`.
pub open spec fn digit_char(d: int) -> char
    recommends
        0 <= d < 10,
{
    ((d + 48) as u8) as char
}

/// The decimal representation of `n`, most significant digit first.
pub open spec fn dec_digits(n: int) -> Seq<char>
    recommends
        n >= 0,
    decreases n,
{
    if n < 10 {
        seq![digit_char(n)]
    } else {
        dec_digits(n / 10).push(digit_char(n % 10))
    }
}

/// `n` space characters (none for negative `n`).
pub open spec fn spaces(n: int) -> Seq<char> {
    if n >= 0 {
        Seq::new(n as nat, |i: int| ' ')
    } else {
        Seq::<char>::empty()
    }
}

/// Line `k` of a numbered list: the number, right-padded with spaces to a
/// four-character column, one separating space, then the text.
pub open spec fn numbered_line(k: int, s: Seq<char>) -> Seq<char> {
    dec_digits(k) + spaces(4 - dec_digits(k).len()) + seq![' '] + s
}

/// The decimal digits of `n`, as characters.
fn num_digits(n: usize) -> (r: Vec<char>)
    ensures
        r@ == dec_digits(n as int),
{
    let ghost whole = dec_digits(n as int);
    let mut stack: Vec<char> = Vec::new();
    let mut v: usize = n;
    while v >= 10
        invariant
            whole == dec_digits(n as int),
            whole.len() == stack@.len() + dec_digits(v as int).len(),
            dec_digits(v as int) == whole.take(dec_digits(v as int).len() as int),
            forall|k: int| 0 <= k < stack@.len() ==> #[trigger] stack@[k]
                == whole[whole.len() - 1 - k],
        decreases v,
    {
        let ghost vo = v as int;
        let ghost sl = stack@.len() as int;
        let d: u8 = (v % 10) as u8 + 48;
        stack.push(d as char);
        v = v / 10;
        proof {
            let l = dec_digits(vo).len() as int;
            assert(dec_digits(vo) == dec_digits(vo / 10).push(digit_char(vo % 10)));
            assert(d as char == digit_char(vo % 10));
            assert(dec_digits(v as int) =~= whole.take(l - 1)) by {
                assert(dec_digits(vo).drop_last() =~= dec_digits(v as int));
                assert(whole.take(l).drop_last() =~= whole.take(l - 1));
            }
            assert(stack@[sl] == whole[l - 1]) by {
                assert(dec_digits(vo)[l - 1] == whole.take(l)[l - 1]);
            }
        }
    }
    let ghost sl = stack@.len() as int;
    stack.push((v as u8 + 48) as char);
    proof {
        assert((v as u8 + 48) as char == digit_char(v as int));
        assert(dec_digits(v as int).len() == 1);
        assert(stack@[sl] == whole[whole.len() - 1 - sl]) by {
            assert(dec_digits(v as int)[0] == whole.take(1)[0]);
        }
    }
    let mut r: Vec<char> = Vec::new();
    let mut i: usize = stack.len();
    while i > 0
        invariant
            i <= stack@.len(),
            stack@.len() == whole.len(),
            forall|k: int| 0 <= k < stack@.len() ==> #[trigger] stack@[k]
                == whole[whole.len() - 1 - k],
            r@.len() == stack@.len() - i,
            forall|k: int| 0 <= k < r@.len() ==> #[trigger] r@[k] == whole[whole.len() - 1 - (
            stack@.len() - 1 - k)],
        decreases i,
    {
        i = i - 1;
        r.push(stack[i]);
    }
    proof {
        assert forall|k: int| 0 <= k < whole.len() implies #[trigger] r@[k] == whole[k] by {}
        assert(r@ =~= whole);
    }
    r
}

/// Prefixes each line with its one-based position in a four-character
/// column: line `i` becomes `numbered_line(i + 1, line)`.
pub fn add_nums_to_text(text: Vec<String>) -> (r: Vec<String>)
    ensures
        r@.len() == text@.len(),
        forall|i: int| 0 <= i < text@.len() ==> #[trigger] r@[i]@
            == numbered_line(i + 1, text@[i]@),
{
    let mut r: Vec<String> = Vec::new();
    let mut i: usize = 0;
    while i < text.len()
        invariant
            i <= text@.len(),
            r@.len() == i,
            forall|j: int| 0 <= j < i ==> #[trigger] r@[j]@
                == numbered_line(j + 1, text@[j]@),
        decreases text@.len() - i,
    {
        let mut line = num_digits(i + 1);
        proof {
            assert(line@ =~= dec_digits(i + 1) + spaces(0));
        }
        while line.len() < 4
            invariant
                dec_digits(i + 1).len() <= line@.len(),
                line@.len() <= 4 || line@.len() == dec_digits(i + 1).len(),
                line@ == dec_digits(i + 1) + spaces(line@.len() - dec_digits(i + 1).len()),
            decreases 4 - line@.len(),
        {
            line.push(' ');
            proof {
                assert(line@ =~= dec_digits(i + 1) + spaces(
                    line@.len() - dec_digits(i + 1).len(),
                ));
            }
        }
        proof {
            assert(spaces(line@.len() - dec_digits(i + 1).len()) =~= spaces(
                4 - dec_digits(i + 1).len(),
            ));
        }
        line.push(' ');
        let body = str_to_chars(text[i].as_str());
        proof {
            assert(line@ =~= dec_digits(i + 1) + spaces(4 - dec_digits(i + 1).len()) + seq![' ']
                + body@.take(0));
        }
        let mut k: usize = 0;
        while k < body.len()
            invariant
                k <= body@.len(),
                body@ == text@[i as int]@,
                line@ == dec_digits(i + 1) + spaces(4 - dec_digits(i + 1).len()) + seq![' ']
                    + body@.take(k as int),
            decreases body@.len() - k,
        {
            line.push(body[k]);
            k = k + 1;
            proof {
                assert(line@ =~= dec_digits(i + 1) + spaces(4 - dec_digits(i + 1).len())
                    + seq![' '] + body@.take(k as int));
            }
        }
        proof {
            assert(body@.take(body@.len() as int) =~= body@);
            assert(line@ == numbered_line(i + 1, text@[i as int]@));
        }
        r.push(chars_to_string(&line));
        i = i + 1;
    }
    r
}

} // verus!
