//! Text building shared by the services: decimal numbers and joined lists.
use vstd::prelude::*;

verus! {

/// The decimal digit character of `d` (for `0 <= d < 10`).
pub open spec fn digit_char(d: int) -> char {
    (48 + d) as char
}

/// The decimal text of `n`, without leading zeros.
pub open spec fn decimal_text(n: nat) -> Seq<char>
    decreases n,
{
    if n < 10 {
        seq![digit_char(n as int)]
    } else {
        decimal_text(n / 10).push(digit_char((n % 10) as int))
    }
}

/// The texts of `list`, with `sep` between each two neighbours.
pub open spec fn seq_join(list: Seq<Seq<char>>, sep: Seq<char>) -> Seq<char>
    decreases list.len(),
{
    if list.len() == 0 {
        Seq::empty()
    } else if list.len() == 1 {
        list[0]
    } else {
        seq_join(list.drop_last(), sep) + sep + list.last()
    }
}

/// The number that the decimal digits `s` stand for.
pub open spec fn decimal_value(s: Seq<char>) -> int
    decreases s.len(),
{
    if s.len() == 0 {
        0
    } else {
        decimal_value(s.drop_last()) * 10 + (s.last() as int - 48)
    }
}

/// The decimal text of a number is its canonical decimal form: only digits,
/// no leading zero but for zero itself, and read back it gives the number.
pub proof fn lemma_decimal_text_reads_back(n: nat)
    ensures
        decimal_text(n).len() > 0,
        forall|i: int|
            0 <= i < decimal_text(n).len() ==> '0' <= #[trigger] decimal_text(n)[i] <= '9',
        decimal_value(decimal_text(n)) == n,
        n > 0 ==> decimal_text(n)[0] != '0',
        n == 0 ==> decimal_text(n) == seq!['0'],
    decreases n,
{
    if n >= 10 {
        let q: nat = n / 10;
        lemma_decimal_text_reads_back(q);
        let t = decimal_text(n);
        assert(t.drop_last() =~= decimal_text(q));
        assert(t[0] == decimal_text(q)[0]);
        assert(n == q * 10 + n % 10);
        assert(t.last() == digit_char((n % 10) as int));
        assert(digit_char((n % 10) as int) as int == 48 + n % 10);
        assert(decimal_value(t) == decimal_value(decimal_text(q)) * 10 + (n % 10));
    } else {
        let t = decimal_text(n);
        assert(digit_char(n as int) as int == 48 + n);
        assert(t.drop_last() =~= Seq::<char>::empty());
        assert(decimal_value(t) == decimal_value(t.drop_last()) * 10 + (t.last() as int - 48));
    }
}

/// The views of a list of strings.
pub open spec fn string_views(list: Seq<String>) -> Seq<Seq<char>> {
    list.map_values(|s: String| s@)
}

fn digit_str(d: u64) -> (s: &'static str)
    requires
        d < 10,
    ensures
        s@ == seq![digit_char(d as int)],
{
    proof {
        reveal_strlit("0");
        reveal_strlit("1");
        reveal_strlit("2");
        reveal_strlit("3");
        reveal_strlit("4");
        reveal_strlit("5");
        reveal_strlit("6");
        reveal_strlit("7");
        reveal_strlit("8");
        reveal_strlit("9");
    }
    match d {
        0 => "0",
        1 => "1",
        2 => "2",
        3 => "3",
        4 => "4",
        5 => "5",
        6 => "6",
        7 => "7",
        8 => "8",
        _ => "9",
    }
}

/// The decimal text of `n`.
pub fn u64_to_text(n: u64) -> (s: String)
    ensures
        s@ == decimal_text(n as nat),
    decreases n,
{
    if n < 10 {
        String::from_str(digit_str(n))
    } else {
        let mut s = u64_to_text(n / 10);
        s.append(digit_str(n % 10));
        s
    }
}

/// Joins `list` with `sep` between each two neighbours.
pub fn join_strings(list: &Vec<String>, sep: &str) -> (res: String)
    ensures
        res@ == seq_join(string_views(list@), sep@),
{
    let mut res = String::new();
    let ghost views = string_views(list@);
    let n = list.len();
    for i in 0..n
        invariant
            n == list.len(),
            views == string_views(list@),
            res@ == seq_join(views.take(i as int), sep@),
    {
        assert(views.take(i + 1).drop_last() =~= views.take(i as int));
        if i != 0 {
            res.append(sep);
        } else {
            assert(views.take(0) =~= Seq::<Seq<char>>::empty());
        }
        res.append(list[i].as_str());
    }
    assert(views.take(n as int) =~= views);
    res
}

/// The total length of the texts of `list`.
pub open spec fn total_len(list: Seq<Seq<char>>) -> nat
    decreases list.len(),
{
    if list.len() == 0 {
        0
    } else {
        total_len(list.drop_last()) + list.last().len()
    }
}

/// Joining keeps every text, in order, with the separator between each two
/// neighbours: nothing for no text, the text itself for one, and for more the
/// join of all but the last, the separator, then the last. So the joined
/// text is as long as the texts together plus one separator fewer than there
/// are texts.
pub proof fn lemma_join_keeps_every_text(list: Seq<Seq<char>>, sep: Seq<char>)
    ensures
        list.len() == 0 ==> seq_join(list, sep) == Seq::<char>::empty(),
        list.len() == 1 ==> seq_join(list, sep) == list[0],
        list.len() >= 2 ==> seq_join(list, sep) == seq_join(list.drop_last(), sep) + sep + list.last(),
        list.len() > 0 ==> seq_join(list, sep).len() + sep.len() == total_len(list) + list.len()
            * sep.len(),
    decreases list.len(),
{
    if list.len() >= 2 {
        let d = list.drop_last();
        lemma_join_keeps_every_text(d, sep);
        let k: int = d.len() as int;
        let m: int = sep.len() as int;
        assert(list.len() * sep.len() == k * m + m) by (nonlinear_arith)
            requires
                list.len() == k + 1,
                sep.len() == m,
        ;
        assert(seq_join(d, sep).len() + m == total_len(d) + k * m);
        assert(seq_join(list, sep) == seq_join(d, sep) + sep + list.last());
        assert(seq_join(list, sep).len() == seq_join(d, sep).len() + m + list.last().len());
        assert(total_len(list) == total_len(d) + list.last().len());
    } else if list.len() == 1 {
        assert(list.drop_last().len() == 0);
        assert(total_len(list) == total_len(list.drop_last()) + list[0].len());
        assert(list.len() * sep.len() == sep.len()) by (nonlinear_arith)
            requires
                list.len() == 1,
        ;
    }
}

/// Where the `i`-th text of `list` starts in the joined text: after the texts
/// before it and one separator behind each of them.
pub open spec fn text_offset(list: Seq<Seq<char>>, sep: Seq<char>, i: int) -> int {
    total_len(list.take(i)) + i * sep.len()
}

/// Each text of `list` stands whole in the joined text at its offset, and
/// each separator right behind every text but the last.
pub proof fn lemma_join_places_every_text(list: Seq<Seq<char>>, sep: Seq<char>)
    ensures
        forall|i: int, j: int|
            0 <= i < list.len() && 0 <= j < list[i].len() ==> seq_join(list, sep)[text_offset(
                list,
                sep,
                i,
            ) + j] == #[trigger] list[i][j],
        forall|i: int, j: int|
            0 <= i < list.len() - 1 && 0 <= j < sep.len() ==> #[trigger] seq_join(list, sep)[text_offset(
                list,
                sep,
                i,
            ) + list[i].len() + j] == sep[j],
    decreases list.len(),
{
    if list.len() == 1 {
        assert(list.take(0) =~= Seq::<Seq<char>>::empty());
        assert(total_len(list.take(0)) == 0);
        assert(0 * (sep.len() as int) == 0) by (nonlinear_arith);
        assert(text_offset(list, sep, 0) == 0);
    } else if list.len() >= 2 {
        let d = list.drop_last();
        let n: int = list.len() as int;
        let m: int = sep.len() as int;
        lemma_join_places_every_text(d, sep);
        lemma_join_keeps_every_text(list, sep);
        lemma_join_keeps_every_text(d, sep);
        let left = seq_join(d, sep);
        assert(d.take(n - 1) =~= d);
        assert(list.take(n - 1) =~= d);
        assert((n - 1) * m == (n - 2) * m + m) by (nonlinear_arith);
        assert(left.len() + m == total_len(d) + (n - 1) * m);
        assert forall|i: int| 0 <= i < n - 1 implies text_offset(list, sep, i) == text_offset(
            d,
            sep,
            i,
        ) && text_offset(list, sep, i) + list[i].len() <= left.len() by {
            assert(list.take(i) =~= d.take(i));
            assert(d.take(i + 1).drop_last() =~= d.take(i));
            assert(d.take(i + 1).last() == list[i]);
            assert(total_len(d.take(i + 1)) == total_len(d.take(i)) + list[i].len());
            lemma_total_len_prefix(d, n - 1);
            assert(total_len(d.take(i + 1)) <= total_len(d));
            assert(i * m <= (n - 2) * m) by (nonlinear_arith)
                requires
                    i <= n - 2,
                    m >= 0,
            ;
        }
        assert forall|i: int, j: int|
            0 <= i < list.len() && 0 <= j < list[i].len() implies seq_join(list, sep)[text_offset(
            list,
            sep,
            i,
        ) + j] == #[trigger] list[i][j] by {
            if i < n - 1 {
                assert(d[i][j] == list[i][j]);
            } else {
                assert(text_offset(list, sep, i) == left.len() + m);
            }
        }
        assert forall|i: int, j: int|
            0 <= i < list.len() - 1 && 0 <= j < sep.len() implies #[trigger] seq_join(
            list,
            sep,
        )[text_offset(list, sep, i) + list[i].len() + j] == sep[j] by {
            if i < n - 2 {
                assert(d[i] == list[i]);
                assert(text_offset(d, sep, i) + d[i].len() + j < left.len()) by {
                    assert(d.take(i + 1).drop_last() =~= d.take(i));
                    assert(d.take(i + 1).last() == d[i]);
                    assert(total_len(d.take(i + 1)) == total_len(d.take(i)) + d[i].len());
                    lemma_total_len_prefix(d, n - 1);
                    assert(total_len(d.take(i + 1)) <= total_len(d));
                    assert(i * m + m <= (n - 2) * m) by (nonlinear_arith)
                        requires
                            i + 1 <= n - 2,
                            m >= 0,
                    ;
                }
            } else {
                assert(i == n - 2);
                assert(d.take(n - 2 + 1) =~= d);
                assert(d.drop_last() =~= d.take(n - 2));
                assert(text_offset(list, sep, i) + list[i].len() == total_len(d) + (n - 2) * m);
                assert(total_len(d) + (n - 2) * m == left.len());
            }
        }
    }
}

/// The `i`-th text of `list` lies within the joined text.
pub proof fn lemma_text_offset_in_join(list: Seq<Seq<char>>, sep: Seq<char>, i: int)
    requires
        0 <= i < list.len(),
    ensures
        0 <= text_offset(list, sep, i),
        text_offset(list, sep, i) + list[i].len() <= seq_join(list, sep).len(),
{
    let n: int = list.len() as int;
    let m: int = sep.len() as int;
    lemma_join_keeps_every_text(list, sep);
    lemma_total_len_prefix(list, n);
    assert(list.take(n) =~= list);
    assert(list.take(i + 1).drop_last() =~= list.take(i));
    assert(list.take(i + 1).last() == list[i]);
    assert(total_len(list.take(i + 1)) == total_len(list.take(i)) + list[i].len());
    assert(0 <= i * m <= (n - 1) * m) by (nonlinear_arith)
        requires
            0 <= i <= n - 1,
            m >= 0,
    ;
    assert(n * m == (n - 1) * m + m) by (nonlinear_arith);
}

/// The texts of a prefix of `list` are no longer together than those of a
/// longer prefix.
proof fn lemma_total_len_prefix(list: Seq<Seq<char>>, k: int)
    requires
        0 <= k <= list.len(),
    ensures
        forall|i: int| 0 <= i <= k ==> total_len(#[trigger] list.take(i)) <= total_len(list.take(k)),
    decreases k,
{
    if k > 0 {
        lemma_total_len_prefix(list, k - 1);
        assert(list.take(k).drop_last() =~= list.take(k - 1));
    }
}

} // verus!
