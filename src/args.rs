use vstd::prelude::*;
use crate::task::texts;

verus! {

/// An ASCII decimal digit.
pub open spec fn is_digit(c: char) -> bool {
    '0' <= c && c <= '9'
}

/// The value of a digit character.
pub open spec fn digit_value(c: char) -> nat {
    (c as int - '0' as int) as nat
}

/// The value of a run of decimal digits, most significant first.
pub open spec fn digits_value(d: Seq<char>) -> nat
    decreases d.len(),
{
    if d.len() == 0 {
        0
    } else {
        digits_value(d.drop_last()) * 10 + digit_value(d.last())
    }
}

/// The digits of a number word: what follows an optional leading `+`.
pub open spec fn unsigned_digits(word: Seq<char>) -> Seq<char> {
    if word.len() > 0 && word[0] == '+' {
        word.drop_first()
    } else {
        word
    }
}

/// The number that a word writes in decimal, if it is one: an optional `+`,
/// then one or more digits.
pub open spec fn number_named(word: Seq<char>) -> Option<nat> {
    let d = unsigned_digits(word);
    if d.len() > 0 && forall|i: int| 0 <= i < d.len() ==> is_digit(d[i]) {
        Some(digits_value(d))
    } else {
        None
    }
}

/// The id that a word names: its number where it writes one that fits, else 0.
pub open spec fn id_named(word: Seq<char>) -> usize {
    match number_named(word) {
        Some(n) => if n <= usize::MAX { n as usize } else { 0 },
        None => 0,
    }
}

/// Reads an id argument; a word that is no number, or too large, gives 0.
pub fn parse_id(word: &str) -> (r: usize)
    ensures
        r == id_named(word@),
{
    let n = word.unicode_len();
    let start: usize = if n > 0 && word.get_char(0) == '+' { 1 } else { 0 };
    let ghost d = unsigned_digits(word@);
    assert(d =~= word@.subrange(start as int, n as int));
    if start == n {
        return 0;
    }
    let mut acc: usize = 0;
    let mut over = false;
    let mut i: usize = start;
    while i < n
        invariant
            n == word@.len(),
            start <= i <= n,
            d == word@.subrange(start as int, n as int),
            d == unsigned_digits(word@),
            forall|j: int| 0 <= j < i - start ==> is_digit(d[j]),
            !over ==> acc == digits_value(d.take(i - start)),
            over ==> digits_value(d.take(i - start)) > usize::MAX,
        decreases n - i,
    {
        let c = word.get_char(i);
        if !('0' <= c && c <= '9') {
            assert(!is_digit(d[i - start]));
            return 0;
        }
        let dv = (c as u32 - '0' as u32) as usize;
        let ghost k = (i - start) as int;
        assert(d.take(k + 1).drop_last() =~= d.take(k));
        assert(d.take(k + 1).last() == c);
        let ghost before = digits_value(d.take(k));
        assert(digits_value(d.take(k + 1)) == before * 10 + dv);
        if !over {
            if acc <= (usize::MAX - dv) / 10 {
                assert(acc * 10 + dv <= usize::MAX) by (nonlinear_arith)
                    requires
                        acc <= (usize::MAX - dv) / 10,
                        dv <= 9,
                ;
                acc = acc * 10 + dv;
            } else {
                assert(acc * 10 + dv > usize::MAX) by (nonlinear_arith)
                    requires
                        acc > (usize::MAX - dv) / 10,
                        dv <= 9,
                ;
                over = true;
            }
        } else {
            assert(before * 10 + dv > usize::MAX) by (nonlinear_arith)
                requires
                    before > usize::MAX,
            ;
        }
        i = i + 1;
    }
    assert(d.take(n - start) =~= d);
    if over {
        0
    } else {
        acc
    }
}

/// Words put together with a single space between each two.
pub open spec fn joined(words: Seq<Seq<char>>) -> Seq<char>
    decreases words.len(),
{
    if words.len() == 0 {
        Seq::empty()
    } else if words.len() == 1 {
        words[0]
    } else {
        joined(words.drop_last()) + " "@ + words.last()
    }
}

/// The arguments from position `from` on, joined by spaces.
pub fn join_from(args: &Vec<String>, from: usize) -> (r: String)
    requires
        from < args.len(),
    ensures
        r@ == joined(texts(args@).subrange(from as int, args.len() as int)),
{
    let ghost t = texts(args@);
    let mut r = args[from].clone();
    let mut i: usize = from + 1;
    assert(t.subrange(from as int, i as int) =~= seq![t[from as int]]);
    while i < args.len()
        invariant
            t == texts(args@),
            from < i <= args.len(),
            r@ == joined(t.subrange(from as int, i as int)),
        decreases args.len() - i,
    {
        assert(t.subrange(from as int, i + 1).drop_last() =~= t.subrange(from as int, i as int));
        r.append(" ");
        r.append(args[i].as_str());
        i = i + 1;
    }
    r
}

} // verus!
