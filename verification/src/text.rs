//! Text that ends up in messages and in the printed form of objects.
use vstd::prelude::*;
use vstd::string::*;

verus! {

/// `String::push`: appends one character to the end of the string.
pub assume_specification[ String::push ](text: &mut String, c: char)
    ensures
        final(text)@ == old(text)@.push(c),
;

/// The decimal digit `d`.
pub open spec fn digit(d: nat) -> char {
    (0x30 + d) as char
}

/// `n` written in decimal, without leading zeros.
pub open spec fn decimal(n: nat) -> Seq<char>
    decreases n,
{
    if n < 10 {
        seq![digit(n)]
    } else {
        decimal(n / 10).push(digit(n % 10))
    }
}

/// Writes `n` in decimal.
pub fn to_decimal(n: u64) -> (text: String)
    ensures
        text@ == decimal(n as nat),
    decreases n,
{
    let mut text: String = if n < 10 {
        String::new()
    } else {
        to_decimal(n / 10)
    };
    let low: u8 = (n % 10) as u8;
    text.push((0x30u8 + low) as char);
    text
}

/// Whether `c` ends a line.
pub open spec fn is_newline(c: char) -> bool {
    c == '\n'
}

/// The number of lines of `s`: a line ends with a newline or with the text,
/// and the empty piece after a final newline is no line.
pub open spec fn line_count(s: Seq<char>) -> nat {
    let ended = s.filter(|c: char| is_newline(c)).len();
    if s.len() > 0 && !is_newline(s.last()) {
        ended + 1
    } else {
        ended
    }
}

/// The characters of `s` as a vector.
pub fn chars_of(s: &str) -> (chars: Vec<char>)
    ensures
        chars@ == s@,
{
    let mut chars: Vec<char> = Vec::new();
    for c in it: s.chars()
        invariant
            it.seq() == s@,
            chars@ == s@.take(it.index()),
    {
        chars.push(c);
        assert(s@.take(it.index()).push(c) =~= s@.take(it.index() + 1));
    }
    assert(s@.take(s@.len() as int) =~= s@);
    chars
}

/// Counts the lines of `s`.
pub fn count_lines(s: &str) -> (n: usize)
    ensures
        n == line_count(s@),
{
    let chars = chars_of(s);
    let ghost newline = |c: char| is_newline(c);
    let mut ended: usize = 0;
    let mut i: usize = 0;
    proof {
        reveal(Seq::filter);
        assert(s@.take(0).filter(newline).len() == 0);
    }
    while i < chars.len()
        invariant
            chars@ == s@,
            i <= chars.len(),
            ended <= i,
            newline == (|c: char| is_newline(c)),
            ended == s@.take(i as int).filter(newline).len(),
        decreases chars.len() - i,
    {
        proof {
            reveal(Seq::filter);
            assert(s@.take(i + 1).drop_last() =~= s@.take(i as int));
            assert(s@.take(i + 1).last() == s@[i as int]);
        }
        if chars[i] == '\n' {
            ended = ended + 1;
        }
        i = i + 1;
    }
    assert(s@.take(chars@.len() as int) =~= s@);
    if chars.len() > 0 && chars[chars.len() - 1] != '\n' {
        proof {
            reveal(Seq::filter);
            s@.drop_last().lemma_filter_len(newline);
        }
        ended + 1
    } else {
        ended
    }
}

/// `s` with every occurrence of `from`, found from the left and without
/// overlap, replaced by `to`.
pub open spec fn replaced(s: Seq<char>, from: Seq<char>, to: Seq<char>) -> Seq<char>
    recommends
        from.len() > 0,
    decreases s.len(),
{
    if from.len() == 0 || s.len() < from.len() {
        s
    } else if s.take(from.len() as int) == from {
        to + replaced(s.skip(from.len() as int), from, to)
    } else {
        seq![s[0]] + replaced(s.skip(1), from, to)
    }
}

/// Whether `from` stands in `s` at position `at`.
pub open spec fn occurs_at(s: Seq<char>, from: Seq<char>, at: int) -> bool {
    0 <= at && at + from.len() <= s.len() && s.subrange(at, at + from.len()) == from
}

/// A text in which `from` does not occur is not changed by replacing it.
pub proof fn replaced_without_occurrence(s: Seq<char>, from: Seq<char>, to: Seq<char>)
    requires
        from.len() > 0,
        forall|at: int| !occurs_at(s, from, at),
    ensures
        replaced(s, from, to) == s,
    decreases s.len(),
{
    if s.len() >= from.len() {
        assert(s.take(from.len() as int) =~= s.subrange(0, from.len() as int));
        assert(!occurs_at(s, from, 0));
        assert forall|at: int| !occurs_at(s.skip(1), from, at) by {
            if occurs_at(s.skip(1), from, at) {
                assert(s.skip(1).subrange(at, at + from.len()) =~= s.subrange(
                    at + 1,
                    at + 1 + from.len(),
                ));
                assert(occurs_at(s, from, at + 1));
            }
        }
        replaced_without_occurrence(s.skip(1), from, to);
        assert(seq![s[0]] + s.skip(1) =~= s);
    }
}

/// Whether `from` stands in `s` at position `at`.
fn stands_at(s: &Vec<char>, from: &Vec<char>, at: usize) -> (found: bool)
    requires
        at + from.len() <= s.len(),
    ensures
        found == (s@.subrange(at as int, at + from@.len()) == from@),
{
    let mut k: usize = 0;
    while k < from.len()
        invariant
            k <= from.len(),
            at + from.len() <= s.len(),
            forall|j: int| 0 <= j < k ==> s@[at + j] == from@[j],
        decreases from.len() - k,
    {
        if s[at + k] != from[k] {
            assert(s@.subrange(at as int, at + from@.len())[k as int] != from@[k as int]);
            return false;
        }
        k = k + 1;
    }
    assert(s@.subrange(at as int, at + from@.len()) =~= from@);
    true
}

/// Replaces every occurrence of `from` in `s` by `to`.
pub fn replace_all(s: &str, from: &str, to: &str) -> (out: String)
    requires
        from@.len() > 0,
    ensures
        out@ == replaced(s@, from@, to@),
{
    let chars = chars_of(s);
    let pattern = chars_of(from);
    let mut out: String = String::new();
    let mut i: usize = 0;
    assert(s@.skip(0) =~= s@);
    while chars.len() - i >= pattern.len()
        invariant
            chars@ == s@,
            pattern@ == from@,
            from@.len() > 0,
            i <= chars.len(),
            replaced(s@, from@, to@) == out@ + replaced(s@.skip(i as int), from@, to@),
        decreases chars.len() - i,
    {
        let ghost rest = s@.skip(i as int);
        assert(rest.take(from@.len() as int) =~= s@.subrange(i as int, i + from@.len()));
        if stands_at(&chars, &pattern, i) {
            assert(rest.skip(from@.len() as int) =~= s@.skip(i + from@.len()));
            assert(out@ + (to@ + replaced(s@.skip(i + from@.len()), from@, to@)) =~= (out@ + to@)
                + replaced(s@.skip(i + from@.len()), from@, to@));
            out.append(to);
            i = i + pattern.len();
        } else {
            assert(rest.skip(1) =~= s@.skip(i + 1));
            assert(out@ + (seq![rest[0]] + replaced(s@.skip(i + 1), from@, to@)) =~= out@.push(
                rest[0],
            ) + replaced(s@.skip(i + 1), from@, to@));
            out.push(chars[i]);
            i = i + 1;
        }
    }
    while i < chars.len()
        invariant
            chars@ == s@,
            i <= chars.len(),
            replaced(s@, from@, to@) == out@ + s@.skip(i as int),
        decreases chars.len() - i,
    {
        assert(out@ + s@.skip(i as int) =~= out@.push(s@[i as int]) + s@.skip(i + 1));
        out.push(chars[i]);
        i = i + 1;
    }
    assert(out@ + s@.skip(s@.len() as int) =~= out@);
    out
}

/// `parts` with `", "` between neighbours.
pub open spec fn listed(parts: Seq<Seq<char>>) -> Seq<char>
    decreases parts.len(),
{
    if parts.len() == 0 {
        seq![]
    } else if parts.len() == 1 {
        parts[0]
    } else {
        listed(parts.drop_last()) + ", "@ + parts.last()
    }
}

/// A list of identifiers as it is printed, `[1, 2, 3]`.
pub open spec fn id_list(ids: Seq<u32>) -> Seq<char> {
    "["@ + listed(ids.map_values(|id: u32| decimal(id as nat))) + "]"@
}

/// Prints a list of identifiers.
pub fn print_ids(ids: &Vec<u32>) -> (text: String)
    ensures
        text@ == id_list(ids@),
{
    let mut inner: String = String::new();
    let ghost parts = ids@.map_values(|id: u32| decimal(id as nat));
    let mut i: usize = 0;
    assert(parts.take(0) =~= Seq::<Seq<char>>::empty());
    while i < ids.len()
        invariant
            i <= ids.len(),
            parts == ids@.map_values(|id: u32| decimal(id as nat)),
            inner@ == listed(parts.take(i as int)),
        decreases ids.len() - i,
    {
        assert(parts.take(i + 1).drop_last() =~= parts.take(i as int));
        if i > 0 {
            inner.append(", ");
        }
        inner.append(to_decimal(ids[i] as u64).as_str());
        assert(i == 0 ==> inner@ =~= parts[0]);
        i = i + 1;
    }
    assert(parts.take(parts.len() as int) =~= parts);
    let mut text: String = "[".to_owned();
    text.append(inner.as_str());
    text.append("]");
    text
}

/// The texts of a list of strings.
pub open spec fn texts(names: Seq<String>) -> Seq<Seq<char>> {
    names.map_values(|name: String| name@)
}

/// What `{:?}` prints for a list of strings: each string quoted and escaped.
pub uninterp spec fn debug_text(names: Seq<Seq<char>>) -> Seq<char>;

/// `format!("{:?}", names)`: the debug form of a vector of strings, which is a
/// function of the strings it holds.
#[verifier::external_body]
pub(crate) fn debug_names(names: &Vec<String>) -> (text: String)
    ensures
        text@ == debug_text(texts(names@)),
{
    format!("{:?}", names)
}

/// A number is written with its decimal digits: a number below ten is its digit,
/// and a digit behind the number `n`, which is not zero, makes ten times `n` and
/// the digit.
pub proof fn decimal_digits(n: nat, d: nat)
    requires
        d < 10,
    ensures
        decimal(d).len() == 1,
        decimal(d)[0] as u32 == '0' as u32 + d,
        n > 0 ==> decimal(10 * n + d) == decimal(n) + decimal(d),
{
    if n > 0 {
        assert((10 * n + d) / 10 == n);
        assert((10 * n + d) % 10 == d);
        assert(decimal(n) + decimal(d) =~= decimal(n).push(digit(d)));
    }
}

/// Each newline ends a line, and text behind the last newline is one more line;
/// without any text behind it there is none.
pub proof fn newlines_end_lines(line: Seq<char>, rest: Seq<char>)
    requires
        forall|i: int| 0 <= i < line.len() ==> #[trigger] line[i] != '\n',
    ensures
        line.len() == 0 ==> line_count(line) == 0,
        line.len() > 0 ==> line_count(line) == 1,
        line_count(line.push('\n') + rest) == 1 + line_count(rest),
{
    let newline = |c: char| is_newline(c);
    let first = line.push('\n');
    line.lemma_all_neg_filter_empty(newline);
    line.lemma_filter_len_push(newline, '\n');
    Seq::filter_distributes_over_add(first, rest, newline);
    if rest.len() > 0 {
        assert((first + rest).last() == rest.last());
    } else {
        assert(first + rest =~= first);
        assert(first.last() == '\n');
        assert(rest.filter(newline).len() == 0) by {
            rest.lemma_filter_len(newline);
        }
    }
}

/// The first occurrence is replaced, and what stands behind it is searched on;
/// what stands before it stays.
pub proof fn first_occurrence_is_replaced(
    before: Seq<char>,
    from: Seq<char>,
    to: Seq<char>,
    rest: Seq<char>,
)
    requires
        from.len() > 0,
        forall|at: int|
            0 <= at < before.len() ==> !(#[trigger] occurs_at(before + from + rest, from, at)),
    ensures
        replaced(before + from + rest, from, to) == before + to + replaced(rest, from, to),
    decreases before.len(),
{
    let s = before + from + rest;
    assert(s.take(from.len() as int) =~= s.subrange(0, from.len() as int));
    if before.len() == 0 {
        assert(s.take(from.len() as int) =~= from);
        assert(s.skip(from.len() as int) =~= rest);
        assert(before + to + replaced(rest, from, to) =~= to + replaced(rest, from, to));
    } else {
        let others = before.skip(1);
        let behind = others + from + rest;
        assert(s.skip(1) =~= behind);
        assert(!occurs_at(s, from, 0));
        assert forall|at: int| 0 <= at < others.len() implies !(#[trigger] occurs_at(
            behind,
            from,
            at,
        )) by {
            if occurs_at(behind, from, at) {
                assert(behind.subrange(at, at + from.len()) =~= s.subrange(
                    at + 1,
                    at + 1 + from.len(),
                ));
                assert(occurs_at(s, from, at + 1));
            }
        }
        first_occurrence_is_replaced(others, from, to, rest);
        assert(seq![s[0]] + (others + to + replaced(rest, from, to)) =~= before + to + replaced(
            rest,
            from,
            to,
        ));
    }
}

/// A text occurs at a place if and only if its characters stand there one after
/// the other.
pub proof fn occurrence_is_character_by_character(s: Seq<char>, from: Seq<char>, at: int)
    ensures
        occurs_at(s, from, at) <==> 0 <= at && at + from.len() <= s.len() && forall|i: int|
            0 <= i < from.len() ==> #[trigger] from[i] == s[at + i],
{
    if 0 <= at && at + from.len() <= s.len() {
        let part = s.subrange(at, at + from.len());
        if forall|i: int| 0 <= i < from.len() ==> #[trigger] from[i] == s[at + i] {
            assert(part =~= from);
        }
        if part == from {
            assert forall|i: int| 0 <= i < from.len() implies #[trigger] from[i] == s[at + i] by {
                assert(part[i] == s[at + i]);
            }
        }
    }
}

/// A list of identifiers is printed in brackets, in its order, each identifier
/// in decimal and each but the first behind a comma and a space.
pub proof fn identifiers_are_listed_in_order(ids: Seq<u32>, id: u32)
    ensures
        id_list(seq![]) == "[]"@,
        id_list(seq![id]) == "["@ + decimal(id as nat) + "]"@,
        ids.len() > 0 ==> id_list(ids.push(id)) == id_list(ids).drop_last() + ", "@ + decimal(
            id as nat,
        ) + "]"@,
{
    reveal_strlit("[]");
    reveal_strlit("[");
    reveal_strlit("]");
    let written = |id: u32| decimal(id as nat);
    let none: Seq<u32> = seq![];
    assert(none.map_values(written).len() == 0);
    assert(id_list(none) =~= "[]"@);
    assert(seq![id].map_values(written)[0] == decimal(id as nat));
    let parts = ids.map_values(written);
    let more = ids.push(id).map_values(written);
    assert(more.drop_last() =~= parts);
    assert(more.last() == decimal(id as nat));
    if ids.len() > 0 {
        assert(id_list(ids).drop_last() =~= "["@ + listed(parts));
        assert(id_list(ids.push(id)) =~= id_list(ids).drop_last() + ", "@ + decimal(id as nat)
            + "]"@);
    }
}

/// The texts of strings are theirs, one for one.
pub proof fn texts_are_those_of_the_strings(names: Seq<String>)
    ensures
        texts(names).len() == names.len(),
        forall|i: int| 0 <= i < names.len() ==> #[trigger] texts(names)[i] == names[i]@,
{
}

} // verus!
