use vstd::prelude::*;

verus! {

broadcast use vstd::string::group_string_axioms;

/// The pieces of `s` between the occurrences of `sep`, in order: one more
/// piece than `s` has separators.
pub open spec fn split_on(s: Seq<char>, sep: char) -> Seq<Seq<char>>
    decreases s.len(),
{
    if s.len() == 0 {
        seq![Seq::empty()]
    } else {
        let p = split_on(s.drop_last(), sep);
        if s.last() == sep {
            p.push(Seq::empty())
        } else {
            p.update(p.len() - 1, p.last().push(s.last()))
        }
    }
}

/// `l` without its final carriage return, where it ends with one.
pub open spec fn strip_cr(l: Seq<char>) -> Seq<char> {
    if l.len() > 0 && l.last() == '\r' {
        l.drop_last()
    } else {
        l
    }
}

/// The lines of `s`: the pieces between line feeds, each without a carriage
/// return just before its line feed, and no empty line after a final line feed.
pub open spec fn lines_of(s: Seq<char>) -> Seq<Seq<char>> {
    let p = split_on(s, '\n');
    let ended = p.drop_last().map_values(|l: Seq<char>| strip_cr(l));
    if p.last().len() == 0 {
        ended
    } else {
        ended.push(p.last())
    }
}

/// The rows of a report: its lines, each cut into the cells between `|`.
pub open spec fn rows_of(s: Seq<char>) -> Seq<Seq<Seq<char>>> {
    lines_of(s).map_values(|l: Seq<char>| split_on(l, '|'))
}

/// The text of each cell of a row.
pub open spec fn cells_view(row: Seq<String>) -> Seq<Seq<char>> {
    row.map_values(|c: String| c@)
}

/// The text of each cell of each row.
pub open spec fn rows_view(rows: Seq<Vec<String>>) -> Seq<Seq<Seq<char>>> {
    rows.map_values(|r: Vec<String>| cells_view(r@))
}

/// Splitting gives at least one piece.
proof fn lemma_split_nonempty(s: Seq<char>, sep: char)
    ensures
        split_on(s, sep).len() >= 1,
    decreases s.len(),
{
    if s.len() > 0 {
        lemma_split_nonempty(s.drop_last(), sep);
    }
}

/// Where the last piece is not empty, it ends with the last character of `s`,
/// which is no separator.
proof fn lemma_split_last_piece(s: Seq<char>, sep: char)
    ensures
        split_on(s, sep).last().len() > 0 ==> s.len() > 0 && s.last() != sep
            && split_on(s, sep).last().last() == s.last(),
        s.len() > 0 && s.last() != sep ==> split_on(s, sep).last().len() > 0,
{
    if s.len() > 0 {
        lemma_split_nonempty(s.drop_last(), sep);
    }
}

/// Appending a character to `s` either starts a new piece (a separator) or
/// extends the last one.
proof fn lemma_split_push(s: Seq<char>, c: char, sep: char)
    ensures
        split_on(s.push(c), sep) == (if c == sep {
            split_on(s, sep).push(Seq::empty())
        } else {
            split_on(s, sep).update(split_on(s, sep).len() - 1, split_on(s, sep).last().push(c))
        }),
{
    assert(s.push(c).drop_last() =~= s);
}

/// Dropping a final character other than the separator drops it from the last piece.
proof fn lemma_split_drop_last(s: Seq<char>, sep: char)
    requires
        s.len() > 0,
        s.last() != sep,
    ensures
        split_on(s.drop_last(), sep) == split_on(s, sep).drop_last().push(
            split_on(s, sep).last().drop_last(),
        ),
{
    let p = split_on(s.drop_last(), sep);
    lemma_split_nonempty(s.drop_last(), sep);
    assert(p.last().push(s.last()).drop_last() =~= p.last());
    assert(p =~= split_on(s, sep).drop_last().push(split_on(s, sep).last().drop_last()));
}

/// Calls `String::from_iter` on the characters of `v`: the string made of
/// them, in order.
#[verifier::external_body]
fn string_from_chars(v: Vec<char>) -> (s: String)
    ensures
        s@ == v@,
{
    String::from_iter(v)
}

/// The characters of `text`, in order.
fn chars_of(text: &str) -> (v: Vec<char>)
    ensures
        v@ == text@,
{
    let mut v: Vec<char> = Vec::new();
    for c in it: text.chars()
        invariant
            v@ == it.seq().take(it.index() as int),
    {
        v.push(c);
    }
    assert(v@ =~= text@);
    v
}

/// Cuts a report into rows and cells: one row for each line of `text` (line
/// feeds end lines, a carriage return before a line feed is dropped, and a
/// final line feed starts no further line), each line cut at every `|`.
pub fn report_rows(text: &str) -> (rows: Vec<Vec<String>>)
    ensures
        rows_view(rows@) == rows_of(text@),
{
    let cs = chars_of(text);
    let mut rows: Vec<Vec<String>> = Vec::new();
    let mut row: Vec<String> = Vec::new();
    let mut cell: Vec<char> = Vec::new();
    let mut line_started = false;
    let mut i: usize = 0;
    while i < cs.len()
        invariant
            i <= cs@.len(),
            cs@ == text@,
            ({
                let p = split_on(cs@.take(i as int), '\n');
                &&& rows_view(rows@) == p.drop_last().map_values(
                    |l: Seq<char>| split_on(strip_cr(l), '|'),
                )
                &&& cells_view(row@).push(cell@) == split_on(p.last(), '|')
                &&& line_started == (p.last().len() > 0)
            }),
        decreases cs@.len() - i,
    {
        let c = cs[i];
        let ghost t = cs@.take(i as int);
        let ghost p = split_on(t, '\n');
        let ghost line = p.last();
        let ghost q = split_on(line, '|');
        proof {
            assert(cs@.take(i + 1) =~= t.push(c));
            lemma_split_push(t, c, '\n');
            lemma_split_nonempty(t, '\n');
            lemma_split_nonempty(line, '|');
        }
        if c == '\n' {
            proof {
                lemma_split_last_piece(line, '|');
                if line.len() > 0 && line.last() == '\r' {
                    lemma_split_drop_last(line, '|');
                }
            }
            if cell.len() > 0 && cell[cell.len() - 1] == '\r' {
                cell.pop();
            }
            proof {
                assert(cells_view(row@).push(cell@) == split_on(strip_cr(line), '|'));
            }
            let s = string_from_chars(cell);
            row.push(s);
            proof {
                assert(cells_view(row@) =~= split_on(strip_cr(line), '|'));
                let p2 = split_on(cs@.take(i + 1), '\n');
                assert(p2.drop_last() =~= p);
                assert(p2.last() =~= Seq::<char>::empty());
            }
            let ghost old_rows = rows@;
            rows.push(row);
            row = Vec::new();
            cell = Vec::new();
            line_started = false;
            proof {
                let p2 = split_on(cs@.take(i + 1), '\n');
                let f = |l: Seq<char>| split_on(strip_cr(l), '|');
                assert(p =~= p.drop_last().push(line));
                assert(p.map_values(f) =~= p.drop_last().map_values(f).push(f(line)));
                assert(rows_view(rows@) =~= rows_view(old_rows).push(f(line)));
                assert(rows_view(rows@) =~= p2.drop_last().map_values(
                    |l: Seq<char>| split_on(strip_cr(l), '|'),
                ));
                assert(cells_view(row@).push(cell@) =~= split_on(p2.last(), '|'));
            }
        } else if c == '|' {
            let s = string_from_chars(cell);
            row.push(s);
            cell = Vec::new();
            line_started = true;
            proof {
                let p2 = split_on(cs@.take(i + 1), '\n');
                assert(p2.drop_last() =~= p.drop_last());
                assert(p2.last() =~= line.push(c));
                lemma_split_push(line, c, '|');
                assert(cells_view(row@).push(cell@) =~= split_on(p2.last(), '|'));
            }
        } else {
            cell.push(c);
            line_started = true;
            proof {
                let p2 = split_on(cs@.take(i + 1), '\n');
                assert(p2.drop_last() =~= p.drop_last());
                assert(p2.last() =~= line.push(c));
                lemma_split_push(line, c, '|');
                assert(cells_view(row@).push(cell@) =~= split_on(p2.last(), '|'));
            }
        }
        i = i + 1;
    }
    proof {
        assert(cs@.take(i as int) =~= text@);
    }
    if line_started {
        let ghost row_before = row@;
        let ghost cell_v = cell@;
        let s = string_from_chars(cell);
        row.push(s);
        assert(cells_view(row@) =~= cells_view(row_before).push(cell_v));
        let ghost old_rows = rows@;
        rows.push(row);
        proof {
            let p = split_on(text@, '\n');
            lemma_split_nonempty(text@, '\n');
            let ended = p.drop_last().map_values(|l: Seq<char>| strip_cr(l));
            assert(lines_of(text@) =~= ended.push(p.last()));
            assert(rows_view(rows@) =~= rows_view(old_rows).push(split_on(p.last(), '|')));
            assert(rows_view(rows@) =~= rows_of(text@));
        }
    } else {
        proof {
            assert(rows_view(rows@) =~= rows_of(text@));
        }
    }
    rows
}

/// The pieces joined again, with `sep` between each two.
pub open spec fn join_with(pieces: Seq<Seq<char>>, sep: char) -> Seq<char>
    decreases pieces.len(),
{
    if pieces.len() == 0 {
        Seq::empty()
    } else if pieces.len() == 1 {
        pieces[0]
    } else {
        join_with(pieces.drop_last(), sep).push(sep) + pieces.last()
    }
}

/// Cutting a text at a separator loses nothing: the pieces, joined again with
/// the separator, give the text back, and no piece holds the separator.
pub proof fn law_split_then_join(s: Seq<char>, sep: char)
    ensures
        join_with(split_on(s, sep), sep) == s,
        forall|i: int| 0 <= i < split_on(s, sep).len() ==> !(#[trigger] split_on(s, sep)[i]).contains(sep),
    decreases s.len(),
{
    if s.len() == 0 {
        assert(join_with(split_on(s, sep), sep) =~= s);
        assert forall|i: int| 0 <= i < split_on(s, sep).len() implies !(#[trigger] split_on(s, sep)[i]).contains(sep) by {
            assert(split_on(s, sep)[i] =~= Seq::<char>::empty());
        }
    } else {
        let t = s.drop_last();
        let c = s.last();
        law_split_then_join(t, sep);
        lemma_split_nonempty(t, sep);
        let p = split_on(t, sep);
        let q = split_on(s, sep);
        assert(s =~= t.push(c));
        if c == sep {
            assert(q.drop_last() =~= p);
            assert(join_with(q, sep) =~= s);
            assert forall|i: int| 0 <= i < q.len() implies !(#[trigger] q[i]).contains(sep) by {
                if i < p.len() {
                    assert(q[i] == p[i]);
                } else {
                    assert(q[i] =~= Seq::<char>::empty());
                }
            }
        } else {
            if p.len() == 1 {
                assert(join_with(q, sep) =~= s);
            } else {
                assert(q.drop_last() =~= p.drop_last());
                assert(join_with(q, sep) =~= s);
            }
            assert forall|i: int| 0 <= i < q.len() implies !(#[trigger] q[i]).contains(sep) by {
                if i < p.len() - 1 {
                    assert(q[i] == p[i]);
                } else {
                    assert(q[i] == p.last().push(c));
                    assert(!p[p.len() - 1].contains(sep));
                    if q[i].contains(sep) {
                        let k = choose|k: int| 0 <= k < q[i].len() && q[i][k] == sep;
                        if k < p.last().len() {
                            assert(p.last()[k] == sep);
                        }
                    }
                }
            }
        }
    }
}

/// Every character of a piece occurs in the joined text.
proof fn lemma_piece_chars_in_join(pieces: Seq<Seq<char>>, sep: char, i: int, x: char)
    requires
        0 <= i < pieces.len(),
        pieces[i].contains(x),
    ensures
        join_with(pieces, sep).contains(x),
    decreases pieces.len(),
{
    let j = choose|j: int| 0 <= j < pieces[i].len() && pieces[i][j] == x;
    if pieces.len() == 1 {
        assert(join_with(pieces, sep)[j] == x);
    } else {
        let head = join_with(pieces.drop_last(), sep).push(sep);
        if i < pieces.len() - 1 {
            lemma_piece_chars_in_join(pieces.drop_last(), sep, i, x);
            let k = choose|k: int| 0 <= k < join_with(pieces.drop_last(), sep).len()
                && join_with(pieces.drop_last(), sep)[k] == x;
            assert(join_with(pieces, sep)[k] == x);
        } else {
            assert(join_with(pieces, sep)[head.len() + j] == x);
        }
    }
}

/// Cutting loses nothing but the `|` separators: for every row, its cells
/// joined again with `|` give the line of the text it came from (without the
/// carriage return before its line feed), and no cell holds a `|` or a line
/// feed, so a cell may hold any other character, spaces included.
pub proof fn law_rows_rejoin_to_lines(s: Seq<char>)
    ensures
        rows_of(s).len() == lines_of(s).len(),
        forall|k: int| 0 <= k < rows_of(s).len() ==> join_with(#[trigger] rows_of(s)[k], '|') == lines_of(s)[k],
        forall|k: int, j: int| 0 <= k < rows_of(s).len() && 0 <= j < rows_of(s)[k].len()
            ==> !(#[trigger] rows_of(s)[k][j]).contains('|') && !rows_of(s)[k][j].contains('\n'),
{
    law_lines_hold_no_line_feed(s);
    assert forall|k: int| 0 <= k < rows_of(s).len() implies join_with(#[trigger] rows_of(s)[k], '|') == lines_of(s)[k] by {
        law_split_then_join(lines_of(s)[k], '|');
    }
    assert forall|k: int, j: int| 0 <= k < rows_of(s).len() && 0 <= j < rows_of(s)[k].len()
        implies !(#[trigger] rows_of(s)[k][j]).contains('|') && !rows_of(s)[k][j].contains('\n') by {
        let l = lines_of(s)[k];
        law_split_then_join(l, '|');
        if rows_of(s)[k][j].contains('\n') {
            lemma_piece_chars_in_join(split_on(l, '|'), '|', j, '\n');
        }
    }
}

/// No line holds a line feed.
pub proof fn law_lines_hold_no_line_feed(s: Seq<char>)
    ensures
        forall|k: int| 0 <= k < lines_of(s).len() ==> !(#[trigger] lines_of(s)[k]).contains('\n'),
{
    let p = split_on(s, '\n');
    law_split_then_join(s, '\n');
    lemma_split_nonempty(s, '\n');
    assert forall|k: int| 0 <= k < lines_of(s).len() implies !(#[trigger] lines_of(s)[k]).contains('\n') by {
        assert(!p[k].contains('\n'));
        if k < p.len() - 1 {
            assert(lines_of(s)[k] == strip_cr(p[k]));
            if strip_cr(p[k]).contains('\n') {
                let j = choose|j: int| 0 <= j < strip_cr(p[k]).len() && strip_cr(p[k])[j] == '\n';
                assert(p[k][j] == '\n');
            }
        } else {
            assert(lines_of(s)[k] == p.last());
        }
    }
}

/// For a text without carriage returns, the lines joined again with line
/// feeds give the text back, less its final line feed if it ends with one.
pub proof fn law_lines_rejoin_to_text(s: Seq<char>)
    requires
        !s.contains('\r'),
    ensures
        join_with(lines_of(s), '\n') == (if s.len() > 0 && s.last() == '\n' {
            s.drop_last()
        } else {
            s
        }),
{
    let p = split_on(s, '\n');
    law_split_then_join(s, '\n');
    lemma_split_nonempty(s, '\n');
    lemma_split_last_piece(s, '\n');
    assert forall|k: int| 0 <= k < p.len() implies strip_cr(#[trigger] p[k]) == p[k] by {
        if p[k].len() > 0 && p[k].last() == '\r' {
            assert(p[k].contains('\r'));
            lemma_piece_chars_in_join(p, '\n', k, '\r');
        }
    }
    let ended = p.drop_last().map_values(|l: Seq<char>| strip_cr(l));
    assert(ended =~= p.drop_last());
    if p.last().len() == 0 {
        if p.len() == 1 {
            assert(s =~= Seq::<char>::empty());
        } else {
            assert(join_with(p, '\n') == join_with(p.drop_last(), '\n').push('\n') + p.last());
            assert(join_with(p.drop_last(), '\n').push('\n') + p.last() =~= join_with(p.drop_last(), '\n').push('\n'));
            assert(s.drop_last() =~= join_with(p.drop_last(), '\n'));
        }
    } else {
        assert(p =~= p.drop_last().push(p.last()));
        assert(lines_of(s) =~= p);
    }
}

} // verus!
