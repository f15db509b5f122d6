//! Finds which program occupies the focused pane, from the text that the
//! multiplexer's "list clients" command prints.
use vstd::prelude::*;
use crate::text::{is_white, starts_with, is_whitespace, str_eq, str_starts_with};

verus! {

/// The first index at or after `i` that holds `c`, or the length of `s`.
pub open spec fn find_char(s: Seq<char>, c: char, i: int) -> int
    decreases s.len() - i,
{
    if i >= s.len() {
        s.len() as int
    } else if s[i] == c {
        i
    } else {
        find_char(s, c, i + 1)
    }
}

/// The first index at or after `i` whose character is whitespace exactly when
/// `white` is set, or the length of `s`.
pub open spec fn skip_until(s: Seq<char>, white: bool, i: int) -> int
    decreases s.len() - i,
{
    if i >= s.len() {
        s.len() as int
    } else if is_white(s[i]) == white {
        i
    } else {
        skip_until(s, white, i + 1)
    }
}

/// Where the `k`-th whitespace-separated column of `line` starts.
pub open spec fn col_start(line: Seq<char>, k: nat) -> int
    decreases k,
{
    if k == 0 {
        skip_until(line, false, 0)
    } else {
        skip_until(line, false, skip_until(line, true, col_start(line, (k - 1) as nat)))
    }
}

/// Where the `k`-th whitespace-separated column of `line` ends.
pub open spec fn col_end(line: Seq<char>, k: nat) -> int {
    skip_until(line, true, col_start(line, k))
}

pub open spec fn has_column(line: Seq<char>, k: nat) -> bool {
    col_start(line, k) < line.len()
}

/// The `k`-th column of `line`, as `split_whitespace` yields it.
pub open spec fn column(line: Seq<char>, k: nat) -> Seq<char> {
    line.subrange(col_start(line, k), col_end(line, k))
}

/// Where the segment after the last `/` among the first `i` characters starts.
pub open spec fn seg_start(t: Seq<char>, i: int) -> int
    decreases i,
{
    if i <= 0 {
        0
    } else if t[i - 1] == '/' {
        i
    } else {
        seg_start(t, i - 1)
    }
}

/// The final `/`-separated segment of a path.
pub open spec fn last_segment(t: Seq<char>) -> Seq<char> {
    t.subrange(seg_start(t, t.len() as int), t.len() as int)
}

/// Whether the output has a line after its header.
pub open spec fn has_data_line(s: Seq<char>) -> bool {
    find_char(s, '\n', 0) < s.len()
}

/// The first line after the header.
pub open spec fn data_line(s: Seq<char>) -> Seq<char> {
    let a = find_char(s, '\n', 0);
    s.subrange(a + 1, find_char(s, '\n', a + 1))
}

/// The occupant named by a client listing: the last path segment of the
/// third column of the first data line, when the second column marks a
/// terminal pane and the third is not `N/A`.
pub open spec fn classify(s: Seq<char>) -> Option<Seq<char>> {
    if !has_data_line(s) {
        None
    } else {
        let line = data_line(s);
        if !has_column(line, 2) || !starts_with(column(line, 1), "terminal"@) || column(line, 2)
            == "N/A"@ {
            None
        } else {
            Some(last_segment(column(line, 2)))
        }
    }
}

fn find_newline(s: &str, n: usize, i: usize) -> (j: usize)
    requires
        n == s@.len(),
        i <= n,
    ensures
        j == find_char(s@, '\n', i as int),
        i <= j <= n,
{
    let mut j = i;
    while j < n && s.get_char(j) != '\n'
        invariant
            n == s@.len(),
            i <= j <= n,
            find_char(s@, '\n', j as int) == find_char(s@, '\n', i as int),
        decreases n - j,
    {
        j += 1;
    }
    j
}

fn skip_from(s: &str, n: usize, white: bool, i: usize) -> (j: usize)
    requires
        n == s@.len(),
        i <= n,
    ensures
        j == skip_until(s@, white, i as int),
        i <= j <= n,
{
    let mut j = i;
    while j < n && is_whitespace(s.get_char(j)) != white
        invariant
            n == s@.len(),
            i <= j <= n,
            skip_until(s@, white, j as int) == skip_until(s@, white, i as int),
        decreases n - j,
    {
        j += 1;
    }
    j
}

fn segment_from(t: &str) -> (i: usize)
    ensures
        i == seg_start(t@, t@.len() as int),
        i <= t@.len(),
{
    let n = t.unicode_len();
    let mut i = n;
    while i > 0 && t.get_char(i - 1) != '/'
        invariant
            n == t@.len(),
            i <= n,
            seg_start(t@, i as int) == seg_start(t@, n as int),
        decreases i,
    {
        i -= 1;
    }
    i
}

/// The program in the pane of the first listed client, if the listing names one.
pub fn term_command_from_client_list(cl: &str) -> (r: Option<String>)
    ensures
        r matches Some(c) ==> classify(cl@) == Some(c@),
        r is None ==> classify(cl@) is None,
{
    let n = cl.unicode_len();
    let a = find_newline(cl, n, 0);
    if a >= n {
        return None;
    }
    let e = find_newline(cl, n, a + 1);
    let line = cl.substring_char(a + 1, e);
    let m = line.unicode_len();
    let s0 = skip_from(line, m, false, 0);
    let e0 = skip_from(line, m, true, s0);
    let s1 = skip_from(line, m, false, e0);
    let e1 = skip_from(line, m, true, s1);
    let s2 = skip_from(line, m, false, e1);
    proof {
        assert(col_start(line@, 0) == s0);
        assert(col_start(line@, 1) == s1);
        assert(col_start(line@, 2) == s2);
    }
    if s2 >= m {
        return None;
    }
    let e2 = skip_from(line, m, true, s2);
    let kind = line.substring_char(s1, e1);
    let path = line.substring_char(s2, e2);
    if !str_starts_with(kind, "terminal") || str_eq(path, "N/A") {
        return None;
    }
    let k = segment_from(path);
    let name = path.substring_char(k, path.unicode_len());
    Some(name.to_string())
}

/// A segment search that starts inside the last segment ends where that segment starts.
proof fn lemma_seg_start(t: Seq<char>, p: int, i: int)
    requires
        0 <= p < t.len(),
        t[p] == '/',
        p < i <= t.len(),
        forall|j: int| p < j < t.len() ==> t[j] != '/',
    ensures
        seg_start(t, i) == p + 1,
    decreases i,
{
    if i > p + 1 {
        lemma_seg_start(t, p, i - 1);
    }
}

/// A path that ends in `/` and a name without `/` has that name as its last segment.
pub proof fn lemma_last_segment(dir: Seq<char>, name: Seq<char>)
    requires
        forall|j: int| 0 <= j < name.len() ==> name[j] != '/',
    ensures
        last_segment(dir + seq!['/'] + name) == name,
{
    let t = dir + seq!['/'] + name;
    let p = dir.len() as int;
    assert(t[p] == '/');
    assert forall|j: int| p < j < t.len() implies t[j] != '/' by {
        assert(t[j] == name[j - p - 1]);
    }
    lemma_seg_start(t, p, t.len() as int);
    assert(last_segment(t) =~= name);
}

/// A terminal pane whose command column is `N/A` names no occupant.
pub proof fn lemma_no_command_is_absent(s: Seq<char>)
    requires
        has_data_line(s),
        has_column(data_line(s), 2),
        column(data_line(s), 2) == "N/A"@,
    ensures
        classify(s) is None,
{
}

/// When the first data line shows a terminal pane whose command is a path
/// ending in `/nvim` or `/vim`, the occupant is `nvim` or `vim`.
pub proof fn lemma_editor_path(s: Seq<char>, dir: Seq<char>)
    requires
        has_data_line(s),
        has_column(data_line(s), 2),
        starts_with(column(data_line(s), 1), "terminal"@),
    ensures
        column(data_line(s), 2) == dir + "/nvim"@ ==> classify(s) == Some("nvim"@),
        column(data_line(s), 2) == dir + "/vim"@ ==> classify(s) == Some("vim"@),
{
    reveal_strlit("/nvim");
    reveal_strlit("nvim");
    reveal_strlit("/vim");
    reveal_strlit("vim");
    reveal_strlit("N/A");
    let col = column(data_line(s), 2);
    if col == dir + "/nvim"@ {
        assert(dir + "/nvim"@ =~= dir + seq!['/'] + "nvim"@);
        lemma_last_segment(dir, "nvim"@);
        assert(col.len() >= 5);
        assert(col != "N/A"@);
    }
    if col == dir + "/vim"@ {
        assert(dir + "/vim"@ =~= dir + seq!['/'] + "vim"@);
        lemma_last_segment(dir, "vim"@);
        assert(col[col.len() - 1] == 'm');
        assert(col != "N/A"@);
    }
}

} // verus!
