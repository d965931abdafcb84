//! Text building blocks shared by the report formatters: decimal digits,
//! tab-joined rows and space padding, each with its mathematical model.

use vstd::prelude::*;

verus! {

/// The ASCII digit for `d`, which must be below ten.
pub open spec fn digit_char(d: nat) -> char {
    if d == 0 { '0' }
    else if d == 1 { '1' }
    else if d == 2 { '2' }
    else if d == 3 { '3' }
    else if d == 4 { '4' }
    else if d == 5 { '5' }
    else if d == 6 { '6' }
    else if d == 7 { '7' }
    else if d == 8 { '8' }
    else { '9' }
}

/// The base-ten rendering of `n`, most significant digit first, without
/// leading zeros (zero renders as `"0"`).
pub open spec fn decimal(n: nat) -> Seq<char>
    decreases n,
{
    if n < 10 {
        seq![digit_char(n)]
    } else {
        decimal(n / 10).push(digit_char(n % 10))
    }
}

/// The base-ten rendering of `n` left-padded with zeros to at least two digits.
pub open spec fn decimal2(n: nat) -> Seq<char> {
    if n < 10 {
        seq!['0'] + decimal(n)
    } else {
        decimal(n)
    }
}

/// The cells of a row separated by single tab characters.
pub open spec fn join_tab(cells: Seq<Seq<char>>) -> Seq<char>
    decreases cells.len(),
{
    if cells.len() == 0 {
        Seq::empty()
    } else if cells.len() == 1 {
        cells[0]
    } else {
        join_tab(cells.drop_last()) + seq!['\t'] + cells.last()
    }
}

/// The views of a sequence of strings.
pub open spec fn views(v: Seq<String>) -> Seq<Seq<char>> {
    v.map_values(|s: String| s@)
}

/// `n` copies of `c`.
pub open spec fn repeated(c: char, n: nat) -> Seq<char> {
    Seq::new(n, |i: int| c)
}

/// `s` followed by spaces up to `w` characters (left-aligned in a field of `w`).
pub open spec fn pad_right(s: Seq<char>, w: nat) -> Seq<char> {
    if s.len() < w {
        s + repeated(' ', (w - s.len()) as nat)
    } else {
        s
    }
}

/// `s` preceded by spaces up to `w` characters (right-aligned in a field of `w`).
pub open spec fn pad_left(s: Seq<char>, w: nat) -> Seq<char> {
    if s.len() < w {
        repeated(' ', (w - s.len()) as nat) + s
    } else {
        s
    }
}

/// The length in bytes of the UTF-8 encoding of `s`, as `str::len` reports it.
pub open spec fn byte_len(s: Seq<char>) -> usize {
    vstd::utf8::encode_utf8(s).len() as usize
}

/// Every character of `s` is at least one byte in UTF-8.
pub proof fn lemma_chars_le_bytes(s: Seq<char>)
    ensures
        s.len() <= vstd::utf8::encode_utf8(s).len(),
    decreases s.len(),
{
    if s.len() > 0 {
        lemma_chars_le_bytes(s.drop_first());
    }
}

/// Joining a concatenation of two non-empty rows puts one tab between them.
pub proof fn lemma_join_tab_concat(a: Seq<Seq<char>>, b: Seq<Seq<char>>)
    requires
        a.len() > 0,
        b.len() > 0,
    ensures
        join_tab(a + b) == join_tab(a) + seq!['\t'] + join_tab(b),
    decreases b.len(),
{
    if b.len() == 1 {
        assert((a + b).drop_last() =~= a);
    } else {
        lemma_join_tab_concat(a, b.drop_last());
        assert((a + b).drop_last() =~= a + b.drop_last());
        assert(join_tab(a + b) == join_tab(a + b.drop_last()) + seq!['\t'] + b.last());
        assert(join_tab(a) + seq!['\t'] + join_tab(b) =~= join_tab(a) + seq!['\t'] + join_tab(
            b.drop_last(),
        ) + seq!['\t'] + b.last());
    }
}

/// The one-character string for the digit `d`.
fn digit_str(d: u64) -> (s: &'static str)
    requires
        d < 10,
    ensures
        s@ == seq![digit_char(d as nat)],
{
    proof {
        reveal_strlit("0");
        reveal_strlit("1");
        reveal_strlit("2");
        reveal_strlit("3");
        reveal_strlit("4");
        reveal_strlit("5");
        reveal_strlit("6");
        reveal_strlit("7");
        reveal_strlit("8");
        reveal_strlit("9");
    }
    if d == 0 {
        "0"
    } else if d == 1 {
        "1"
    } else if d == 2 {
        "2"
    } else if d == 3 {
        "3"
    } else if d == 4 {
        "4"
    } else if d == 5 {
        "5"
    } else if d == 6 {
        "6"
    } else if d == 7 {
        "7"
    } else if d == 8 {
        "8"
    } else {
        "9"
    }
}

/// A new string holding `s`.
pub fn owned(s: &str) -> (r: String)
    ensures
        r@ == s@,
{
    let mut r = String::new();
    r.append(s);
    r
}

/// The lines one after the other.
pub open spec fn concat_lines(lines: Seq<Seq<char>>) -> Seq<char>
    decreases lines.len(),
{
    if lines.len() == 0 {
        Seq::empty()
    } else {
        concat_lines(lines.drop_last()) + lines.last()
    }
}

/// Render `n` in base ten.
pub fn decimal_string(n: u64) -> (s: String)
    ensures
        s@ == decimal(n as nat),
    decreases n,
{
    if n < 10 {
        let mut s = String::new();
        s.append(digit_str(n));
        s
    } else {
        let mut s = decimal_string(n / 10);
        s.append(digit_str(n % 10));
        s
    }
}

/// Render `n` in base ten, zero-padded to at least two digits.
pub fn decimal2_string(n: u64) -> (s: String)
    ensures
        s@ == decimal2(n as nat),
{
    if n < 10 {
        let mut s = String::new();
        s.append(digit_str(0));
        s.append(digit_str(n));
        proof {
            reveal_with_fuel(decimal, 1);
        }
        s
    } else {
        decimal_string(n)
    }
}

/// Append `n` copies of the one-character string `c` to `out`.
pub fn append_repeated(out: &mut String, c: &str, n: usize)
    requires
        c@.len() == 1,
    ensures
        final(out)@ == old(out)@ + repeated(c@[0], n as nat),
{
    let mut i: usize = 0;
    while i < n
        invariant
            i <= n,
            c@.len() == 1,
            out@ == old(out)@ + repeated(c@[0], i as nat),
        decreases n - i,
    {
        out.append(c);
        i = i + 1;
        assert(out@ =~= old(out)@ + repeated(c@[0], i as nat));
    }
}

/// Append `s` to `out`, left-aligned in a field of `w` characters.
pub fn append_padded_right(out: &mut String, s: &str, w: usize)
    ensures
        final(out)@ == old(out)@ + pad_right(s@, w as nat),
{
    let n = s.unicode_len();
    out.append(s);
    if n < w {
        proof {
            reveal_strlit(" ");
        }
        append_repeated(out, " ", w - n);
        assert(final(out)@ =~= old(out)@ + pad_right(s@, w as nat)) by {
            assert(" "@[0] == ' ');
        }
    }
}

/// Append `s` to `out`, right-aligned in a field of `w` characters.
pub fn append_padded_left(out: &mut String, s: &str, w: usize)
    ensures
        final(out)@ == old(out)@ + pad_left(s@, w as nat),
{
    let n = s.unicode_len();
    if n < w {
        proof {
            reveal_strlit(" ");
        }
        append_repeated(out, " ", w - n);
        assert(" "@[0] == ' ');
    }
    out.append(s);
    assert(out@ =~= old(out)@ + pad_left(s@, w as nat));
}

/// The cells joined by tabs.
pub fn join_tab_strings(cells: &Vec<String>) -> (s: String)
    ensures
        s@ == join_tab(views(cells@)),
{
    let mut out = String::new();
    let ghost all = views(cells@);
    let n = cells.len();
    let mut i: usize = 0;
    proof {
        reveal_strlit("\t");
    }
    while i < n
        invariant
            i <= n,
            n == cells@.len(),
            all == views(cells@),
            out@ == join_tab(all.take(i as int)),
        decreases n - i,
    {
        let ghost before = out@;
        if i > 0 {
            out.append("\t");
        }
        let cell: &str = cells[i].as_str();
        out.append(cell);
        proof {
            reveal_strlit("\t");
            assert(cell@ == cells@[i as int]@);
            let t = all.take(i + 1);
            assert(t.drop_last() =~= all.take(i as int));
            assert(all[i as int] == cells@[i as int]@);
            assert(t.last() == all[i as int]);
            if i == 0 {
                assert(all.take(0).len() == 0);
                assert(before =~= Seq::<char>::empty());
                assert(t.len() == 1);
                assert(join_tab(t) == t[0]);
                assert(out@ =~= join_tab(t));
            } else {
                assert(out@ =~= join_tab(t));
            }
        }
        i = i + 1;
    }
    assert(all.take(n as int) =~= all);
    out
}


/// The largest `byte_len` among `cells`, and at least `floor`.
pub open spec fn max_byte_len(cells: Seq<Seq<char>>, floor: usize) -> usize
    decreases cells.len(),
{
    if cells.len() == 0 {
        floor
    } else {
        let w = max_byte_len(cells.drop_last(), floor);
        if byte_len(cells.last()) > w {
            byte_len(cells.last())
        } else {
            w
        }
    }
}

/// One line of a two-column Markdown table: the metric left-aligned in a
/// field of `mw`, the value right-aligned in a field of `vw`.
pub open spec fn table_line(m: Seq<char>, v: Seq<char>, mw: usize, vw: usize) -> Seq<char> {
    "| "@ + pad_right(m, mw as nat) + " | "@ + pad_left(v, vw as nat) + " |\n"@
}

/// The alignment line of a two-column Markdown table whose first column is
/// left-aligned and second column right-aligned.
pub open spec fn rule_line(mw: usize, vw: usize) -> Seq<char> {
    "|:"@ + repeated('-', (mw + 1) as nat) + "|"@ + repeated('-', (vw + 1) as nat) + ":|\n"@
}

/// The lines of the two-column `metric | value` Markdown table with one row
/// per label, each column as wide as its widest cell.
pub open spec fn markdown_lines(labels: Seq<Seq<char>>, values: Seq<Seq<char>>) -> Seq<Seq<char>> {
    let mw = max_byte_len(labels, 6);
    let vw = max_byte_len(values, 5);
    seq![table_line("metric"@, "value"@, mw, vw), rule_line(mw, vw)] + Seq::new(
        labels.len(),
        |i: int| table_line(labels[i], values[i], mw, vw),
    )
}

/// The first components of the pairs.
pub open spec fn labels_of(rows: Seq<(&'static str, String)>) -> Seq<Seq<char>> {
    rows.map_values(|r: (&'static str, String)| r.0@)
}

/// The second components of the pairs.
pub open spec fn values_of(rows: Seq<(&'static str, String)>) -> Seq<Seq<char>> {
    rows.map_values(|r: (&'static str, String)| r.1@)
}

/// Render `(metric, value)` pairs as a two-column Markdown table.
pub fn markdown_table(rows: &Vec<(&'static str, String)>) -> (doc: String)
    ensures
        doc@ == concat_lines(markdown_lines(labels_of(rows@), values_of(rows@))),
{
    let ghost labels = labels_of(rows@);
    let ghost values = values_of(rows@);
    let n = rows.len();
    let mut metric_w: usize = 6;
    let mut value_w: usize = 5;
    let mut i: usize = 0;
    while i < n
        invariant
            i <= n,
            n == rows@.len(),
            labels == labels_of(rows@),
            values == values_of(rows@),
            metric_w == max_byte_len(labels.take(i as int), 6),
            value_w == max_byte_len(values.take(i as int), 5),
        decreases n - i,
    {
        let m = rows[i].0.len();
        let v = rows[i].1.as_str().len();
        proof {
            assert(labels.take(i + 1).drop_last() =~= labels.take(i as int));
            assert(values.take(i + 1).drop_last() =~= values.take(i as int));
            assert(labels.take(i + 1).last() == rows@[i as int].0@);
            assert(values.take(i + 1).last() == rows@[i as int].1@);
        }
        if m > metric_w {
            metric_w = m;
        }
        if v > value_w {
            value_w = v;
        }
        i = i + 1;
    }
    assert(labels.take(n as int) =~= labels);
    assert(values.take(n as int) =~= values);
    let ghost lines = markdown_lines(labels, values);
    proof {
        reveal_strlit("-");
    }
    let mut out = String::new();
    out.append("| ");
    append_padded_right(&mut out, "metric", metric_w);
    out.append(" | ");
    append_padded_left(&mut out, "value", value_w);
    out.append(" |\n");
    assert(out@ =~= lines[0]);
    let ghost first = out@;
    out.append("|:");
    append_repeated(&mut out, "-", metric_w);
    out.append("-");
    out.append("|");
    append_repeated(&mut out, "-", value_w);
    out.append("-");
    out.append(":|\n");
    proof {
        assert("-"@[0] == '-');
        assert(repeated('-', metric_w as nat) + "-"@ =~= repeated('-', (metric_w + 1) as nat));
        assert(repeated('-', value_w as nat) + "-"@ =~= repeated('-', (value_w + 1) as nat));
        assert(out@ =~= first + lines[1]);
        assert(lines.take(2).drop_last() =~= lines.take(1));
        assert(lines.take(1).drop_last() =~= lines.take(0));
        assert(concat_lines(lines.take(0)) =~= Seq::<char>::empty());
        assert(lines.take(1).last() == lines[0]);
        assert(lines.take(2).last() == lines[1]);
        assert(concat_lines(lines.take(1)) =~= lines[0]);
        assert(out@ =~= concat_lines(lines.take(2)));
    }
    let mut j: usize = 0;
    while j < n
        invariant
            j <= n,
            n == rows@.len(),
            labels == labels_of(rows@),
            values == values_of(rows@),
            lines == markdown_lines(labels, values),
            metric_w == max_byte_len(labels, 6),
            value_w == max_byte_len(values, 5),
            out@ == concat_lines(lines.take(j + 2)),
        decreases n - j,
    {
        let ghost before = out@;
        out.append("| ");
        append_padded_right(&mut out, rows[j].0, metric_w);
        out.append(" | ");
        append_padded_left(&mut out, rows[j].1.as_str(), value_w);
        out.append(" |\n");
        proof {
            assert(lines[j + 2] == table_line(labels[j as int], values[j as int], metric_w, value_w));
            assert(labels[j as int] == rows@[j as int].0@);
            assert(values[j as int] == rows@[j as int].1@);
            assert(out@ =~= before + lines[j + 2]);
            assert(lines.take(j + 3).drop_last() =~= lines.take(j + 2));
        }
        j = j + 1;
    }
    assert(lines.take(n + 2) =~= lines);
    out
}


/// No character of `s` is `c`.
pub open spec fn lacks(s: Seq<char>, c: char) -> bool {
    forall|i: int| 0 <= i < s.len() ==> #[trigger] s[i] != c
}

/// `s` can stand as one field of a tab-separated line: it is non-empty and
/// holds neither a tab nor a newline.
pub open spec fn is_field(s: Seq<char>) -> bool {
    &&& s.len() > 0
    &&& lacks(s, '\t')
    &&& lacks(s, '\n')
}

/// Every character of `s` is ASCII.
pub open spec fn is_ascii_text(s: Seq<char>) -> bool {
    forall|i: int| 0 <= i < s.len() ==> (#[trigger] s[i] as u32) < 0x80
}

/// How many characters of `s` are `c`.
pub open spec fn count_char(s: Seq<char>, c: char) -> nat
    decreases s.len(),
{
    if s.len() == 0 {
        0
    } else {
        count_char(s.drop_last(), c) + if s.last() == c {
            1nat
        } else {
            0nat
        }
    }
}

/// Counting characters adds up over a concatenation.
pub proof fn lemma_count_char_concat(a: Seq<char>, b: Seq<char>, c: char)
    ensures
        count_char(a + b, c) == count_char(a, c) + count_char(b, c),
    decreases b.len(),
{
    if b.len() == 0 {
        assert(a + b =~= a);
    } else {
        lemma_count_char_concat(a, b.drop_last(), c);
        assert((a + b).drop_last() =~= a + b.drop_last());
    }
}

/// A character that does not occur is counted zero times.
pub proof fn lemma_count_char_absent(s: Seq<char>, c: char)
    requires
        lacks(s, c),
    ensures
        count_char(s, c) == 0,
    decreases s.len(),
{
    if s.len() > 0 {
        assert(s[s.len() - 1] != c);
        assert forall|i: int| 0 <= i < s.drop_last().len() implies #[trigger] s.drop_last()[i]
            != c by {
            assert(s.drop_last()[i] == s[i]);
        }
        lemma_count_char_absent(s.drop_last(), c);
    }
}

/// A concatenation lacks what both parts lack.
pub proof fn lemma_lacks_concat(a: Seq<char>, b: Seq<char>, c: char)
    requires
        lacks(a, c),
        lacks(b, c),
    ensures
        lacks(a + b, c),
{
    assert forall|i: int| 0 <= i < (a + b).len() implies #[trigger] (a + b)[i] != c by {
        if i < a.len() {
            assert((a + b)[i] == a[i]);
        } else {
            assert((a + b)[i] == b[i - a.len()]);
        }
    }
}

/// A concatenation of ASCII texts is ASCII.
pub proof fn lemma_ascii_concat(a: Seq<char>, b: Seq<char>)
    requires
        is_ascii_text(a),
        is_ascii_text(b),
    ensures
        is_ascii_text(a + b),
{
    assert forall|i: int| 0 <= i < (a + b).len() implies (#[trigger] (a + b)[i] as u32) < 0x80 by {
        if i < a.len() {
            assert((a + b)[i] == a[i]);
        } else {
            assert((a + b)[i] == b[i - a.len()]);
        }
    }
}

/// ASCII text is as many bytes as characters.
pub proof fn lemma_ascii_bytes(s: Seq<char>)
    requires
        is_ascii_text(s),
    ensures
        vstd::utf8::encode_utf8(s).len() == s.len(),
    decreases s.len(),
{
    if s.len() > 0 {
        assert forall|i: int| 0 <= i < s.drop_first().len() implies (
        #[trigger] s.drop_first()[i] as u32) < 0x80 by {
            assert(s.drop_first()[i] == s[i + 1]);
        }
        assert((s[0] as u32) < 0x80);
        lemma_ascii_bytes(s.drop_first());
    }
}

/// A row of fields joined by tabs has one tab fewer than it has fields, and
/// no newline.
pub proof fn lemma_join_tab_fields(cells: Seq<Seq<char>>)
    requires
        cells.len() > 0,
        forall|i: int| 0 <= i < cells.len() ==> is_field(#[trigger] cells[i]),
    ensures
        count_char(join_tab(cells), '\t') + 1 == cells.len(),
        lacks(join_tab(cells), '\n'),
    decreases cells.len(),
{
    let last = cells[cells.len() - 1];
    assert(is_field(last));
    lemma_count_char_absent(last, '\t');
    if cells.len() == 1 {
    } else {
        let front = cells.drop_last();
        assert forall|i: int| 0 <= i < front.len() implies is_field(#[trigger] front[i]) by {
            assert(front[i] == cells[i]);
        }
        lemma_join_tab_fields(front);
        let tab = seq!['\t'];
        assert(lacks(tab, '\n'));
        lemma_lacks_concat(join_tab(front), tab, '\n');
        lemma_lacks_concat(join_tab(front) + tab, last, '\n');
        lemma_count_char_concat(join_tab(front), tab, '\t');
        lemma_count_char_concat(join_tab(front) + tab, last, '\t');
        assert(count_char(tab, '\t') == 1) by {
            assert(tab.drop_last() =~= Seq::<char>::empty());
            assert(tab.last() == '\t');
            assert(count_char(tab.drop_last(), '\t') == 0);
        }
    }
}

/// `10` to the power `k`.
pub open spec fn pow10(k: nat) -> nat
    decreases k,
{
    if k == 0 {
        1
    } else {
        10 * pow10((k - 1) as nat)
    }
}

/// The rendering of a number is a non-empty run of digits, no longer than
/// any power of ten above the number allows.
pub proof fn lemma_decimal_digits(n: nat)
    ensures
        decimal(n).len() > 0,
        forall|i: int|
            0 <= i < decimal(n).len() ==> 48 <= (#[trigger] decimal(n)[i] as u32) <= 57,
        forall|k: nat| 0 < k && n < #[trigger] pow10(k) ==> decimal(n).len() <= k,
    decreases n,
{
    assert(48 <= (digit_char(n % 10) as u32) <= 57);
    if n < 10 {
    } else {
        lemma_decimal_digits(n / 10);
        let d = decimal(n / 10);
        assert forall|i: int| 0 <= i < decimal(n).len() implies 48 <= (
        #[trigger] decimal(n)[i] as u32) <= 57 by {
            if i < d.len() {
                assert(decimal(n)[i] == d[i]);
            }
        }
        assert forall|k: nat| 0 < k && n < #[trigger] pow10(k) implies decimal(n).len() <= k by {
            if k == 1 {
                assert(pow10(1) == 10 * pow10(0));
            } else {
                let p = pow10((k - 1) as nat);
                assert(pow10(k) == 10 * p);
                assert(n / 10 < p) by (nonlinear_arith)
                    requires
                        n < 10 * p,
                ;
                assert(n / 10 < pow10((k - 1) as nat));
            }
        }
    }
}

/// The rendering of a `u64` has at most twenty digits.
pub proof fn lemma_decimal_u64_len(n: u64)
    ensures
        decimal(n as nat).len() <= 20,
{
    lemma_decimal_digits(n as nat);
    reveal_with_fuel(pow10, 21);
    assert(n < pow10(20));
}


/// The value of an ASCII digit, read from its character code.
pub open spec fn digit_value(c: char) -> int {
    (c as u32) - 48
}

/// The number written by a run of ASCII digits, most significant first.
pub open spec fn digits_value(s: Seq<char>) -> int
    decreases s.len(),
{
    if s.len() == 0 {
        0
    } else {
        digits_value(s.drop_last()) * 10 + digit_value(s.last())
    }
}

/// The digit for `d` is the ASCII character `'0' + d`.
pub proof fn lemma_digit_char_code(d: nat)
    requires
        d < 10,
    ensures
        digit_char(d) as u32 == 48 + d,
        digit_value(digit_char(d)) == d,
{
}

/// The rendering of `n` reads back as `n`: `decimal` writes the number
/// itself, not just some digits.
pub proof fn lemma_decimal_reads_back(n: nat)
    ensures
        digits_value(decimal(n)) == n,
    decreases n,
{
    lemma_digit_char_code(n % 10);
    let d = decimal(n);
    assert(d.last() == digit_char(n % 10));
    if n < 10 {
        assert(d.drop_last() =~= Seq::<char>::empty());
        assert(digits_value(d.drop_last()) == 0);
        assert(digits_value(d) == digits_value(d.drop_last()) * 10 + digit_value(d.last()));
    } else {
        lemma_decimal_reads_back(n / 10);
        assert(d.drop_last() =~= decimal(n / 10));
        assert(digits_value(d) == digits_value(d.drop_last()) * 10 + digit_value(d.last()));
        assert(n == (n / 10) * 10 + n % 10);
    }
}

/// Below a hundred, the zero-padded rendering is exactly the tens digit
/// followed by the units digit.
pub proof fn lemma_decimal2_two_digits(n: nat)
    requires
        n < 100,
    ensures
        decimal2(n) == seq![digit_char(n / 10), digit_char(n % 10)],
        decimal2(n).len() == 2,
{
    if n < 10 {
        assert(decimal2(n) =~= seq![digit_char(n / 10), digit_char(n % 10)]);
    } else {
        assert(n / 10 < 10);
        assert(decimal(n / 10) == seq![digit_char(n / 10)]);
        assert(decimal2(n) =~= seq![digit_char(n / 10), digit_char(n % 10)]);
    }
}

} // verus!
