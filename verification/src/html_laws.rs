//! How many file cards, function entries and finding entries the HTML report
//! holds, counted as occurrences of their opening tags in the page text.
use vstd::prelude::*;

use crate::laws::law_escape_removes_markup;
use crate::model::{severity_name, AnalysisReportView, FileReportView, FunctionInfoView, IssueView};
use crate::report::{
    escape_text, html_file, html_files, html_head, html_function, html_function_section, html_functions,
    html_issue, html_issue_section, html_issues, html_report, html_snippet, metric_box_text,
    severity_class_text, severity_label_text, visible_only, visible_total, HTML_HEAD, HTML_HERO, HTML_STYLE, HTML_TAIL,
};
use crate::text::{decimal, matches_at, trim};

verus! {

// ---------------------------------------------------------------------------
// Occurrences of a tag
// ---------------------------------------------------------------------------

/// Occurrences of `m` in `s` that start at or after index `i`.
pub open spec fn occ_from(s: Seq<char>, m: Seq<char>, i: int) -> nat
    decreases s.len() - i,
{
    if 0 <= i < s.len() {
        occ_from(s, m, i + 1) + (if matches_at(s, m, i) {
            1nat
        } else {
            0nat
        })
    } else {
        0
    }
}

/// Number of occurrences of `m` in `s`.
pub open spec fn occurrences(s: Seq<char>, m: Seq<char>) -> nat {
    occ_from(s, m, 0)
}

/// No proper, non-empty tail of `m` begins `y`: an occurrence of `m` cannot
/// straddle the point where `y` is appended.
pub open spec fn no_split(y: Seq<char>, m: Seq<char>) -> bool {
    forall|j: int|
        0 < j < m.len() && m.len() - j <= y.len() ==> #[trigger] y.take(m.len() - j) != m.skip(
            j,
        )
}

/// A text without `<` and `>`.
pub open spec fn tag_free(y: Seq<char>) -> bool {
    forall|k: int| 0 <= k < y.len() ==> #[trigger] y[k] != '<' && y[k] != '>'
}

/// A tag: it opens with `<` and closes with `>`.
pub open spec fn is_tag(m: Seq<char>) -> bool {
    m.len() > 0 && m[0] == '<' && m[m.len() - 1] == '>'
}

/// The tag that opens a file card.
pub open spec fn card_tag() -> Seq<char> {
    "<article class=\"file-card\">"@
}

/// The tag that opens a function entry.
pub open spec fn function_tag() -> Seq<char> {
    "<li class=\"list-card\"><strong>"@
}

/// The tag that opens a finding entry.
pub open spec fn finding_tag() -> Seq<char> {
    "<div class=\"issue-top\">"@
}

/// The counts of the three tags in a text.
pub open spec fn tag_counts(s: Seq<char>) -> (nat, nat, nat) {
    (occurrences(s, card_tag()), occurrences(s, function_tag()), occurrences(s, finding_tag()))
}

/// No occurrence of any of the three tags straddles the start of `y`.
pub open spec fn splits_none(y: Seq<char>) -> bool {
    no_split(y, card_tag()) && no_split(y, function_tag()) && no_split(y, finding_tag())
}

pub open spec fn add3(a: (nat, nat, nat), b: (nat, nat, nat)) -> (nat, nat, nat) {
    (a.0 + b.0, a.1 + b.1, a.2 + b.2)
}

pub proof fn lemma_reveal_tags()
    ensures
        card_tag() == seq![
            '<', 'a', 'r', 't', 'i', 'c', 'l', 'e', ' ', 'c', 'l', 'a', 's', 's', '=', '"', 'f',
            'i', 'l', 'e', '-', 'c', 'a', 'r', 'd', '"', '>',
        ],
        function_tag() == seq![
            '<', 'l', 'i', ' ', 'c', 'l', 'a', 's', 's', '=', '"', 'l', 'i', 's', 't', '-', 'c',
            'a', 'r', 'd', '"', '>', '<', 's', 't', 'r', 'o', 'n', 'g', '>',
        ],
        finding_tag() == seq![
            '<', 'd', 'i', 'v', ' ', 'c', 'l', 'a', 's', 's', '=', '"', 'i', 's', 's', 'u', 'e',
            '-', 't', 'o', 'p', '"', '>',
        ],
        is_tag(card_tag()),
        is_tag(function_tag()),
        is_tag(finding_tag()),
{
    reveal_strlit("<article class=\"file-card\">");
    reveal_strlit("<li class=\"list-card\"><strong>");
    reveal_strlit("<div class=\"issue-top\">");
    assert(card_tag() =~= seq![
        '<', 'a', 'r', 't', 'i', 'c', 'l', 'e', ' ', 'c', 'l', 'a', 's', 's', '=', '"', 'f',
        'i', 'l', 'e', '-', 'c', 'a', 'r', 'd', '"', '>',
    ]);
    assert(function_tag() =~= seq![
        '<', 'l', 'i', ' ', 'c', 'l', 'a', 's', 's', '=', '"', 'l', 'i', 's', 't', '-', 'c',
        'a', 'r', 'd', '"', '>', '<', 's', 't', 'r', 'o', 'n', 'g', '>',
    ]);
    assert(finding_tag() =~= seq![
        '<', 'd', 'i', 'v', ' ', 'c', 'l', 'a', 's', 's', '=', '"', 'i', 's', 's', 'u', 'e',
        '-', 't', 'o', 'p', '"', '>',
    ]);
}

proof fn lemma_occ_shift(x: Seq<char>, y: Seq<char>, m: Seq<char>, i: int)
    requires
        0 <= i,
    ensures
        occ_from(x + y, m, x.len() + i) == occ_from(y, m, i),
    decreases y.len() - i,
{
    if i < y.len() {
        lemma_occ_shift(x, y, m, i + 1);
        if i + m.len() <= y.len() {
            assert((x + y).subrange(x.len() + i, x.len() + i + m.len()) =~= y.subrange(
                i,
                i + m.len(),
            ));
        }
    }
}

proof fn lemma_occ_join_from(x: Seq<char>, y: Seq<char>, m: Seq<char>, i: int)
    requires
        0 <= i <= x.len(),
        m.len() > 0,
        no_split(y, m),
    ensures
        occ_from(x + y, m, i) == occ_from(x, m, i) + occ_from(y, m, 0),
    decreases x.len() - i,
{
    if i == x.len() {
        lemma_occ_shift(x, y, m, 0);
    } else {
        lemma_occ_join_from(x, y, m, i + 1);
        if i + m.len() <= x.len() {
            assert((x + y).subrange(i, i + m.len()) =~= x.subrange(i, i + m.len()));
        } else if matches_at(x + y, m, i) {
            let j = x.len() - i;
            assert((x + y).subrange(i, i + m.len()).skip(j) =~= y.take(m.len() - j));
            assert(y.take(m.len() - j) == m.skip(j));
        }
    }
}

/// Counting a tag in a concatenation, when no occurrence straddles the join.
pub proof fn lemma_occ_join(x: Seq<char>, y: Seq<char>, m: Seq<char>)
    requires
        m.len() > 0,
        no_split(y, m),
    ensures
        occurrences(x + y, m) == occurrences(x, m) + occurrences(y, m),
{
    lemma_occ_join_from(x, y, m, 0);
}

pub proof fn lemma_join(x: Seq<char>, y: Seq<char>)
    requires
        splits_none(y),
    ensures
        tag_counts(x + y) == add3(tag_counts(x), tag_counts(y)),
{
    lemma_reveal_tags();
    lemma_occ_join(x, y, card_tag());
    lemma_occ_join(x, y, function_tag());
    lemma_occ_join(x, y, finding_tag());
}

/// No proper, non-empty head of `m` ends `x`: an occurrence of `m` cannot
/// straddle the point where something is appended to `x`.
pub open spec fn no_end_split(x: Seq<char>, m: Seq<char>) -> bool {
    forall|j: int| 0 < j < m.len() && j <= x.len() ==> #[trigger] x.skip(x.len() - j) != m.take(j)
}

pub open spec fn ends_none(x: Seq<char>) -> bool {
    no_end_split(x, card_tag()) && no_end_split(x, function_tag()) && no_end_split(
        x,
        finding_tag(),
    )
}

proof fn lemma_occ_join_x_from(x: Seq<char>, y: Seq<char>, m: Seq<char>, i: int)
    requires
        0 <= i <= x.len(),
        m.len() > 0,
        no_end_split(x, m),
    ensures
        occ_from(x + y, m, i) == occ_from(x, m, i) + occ_from(y, m, 0),
    decreases x.len() - i,
{
    if i == x.len() {
        lemma_occ_shift(x, y, m, 0);
    } else {
        lemma_occ_join_x_from(x, y, m, i + 1);
        if i + m.len() <= x.len() {
            assert((x + y).subrange(i, i + m.len()) =~= x.subrange(i, i + m.len()));
        } else if matches_at(x + y, m, i) {
            let j = x.len() - i;
            assert((x + y).subrange(i, i + m.len()).take(j) =~= x.skip(x.len() - j));
            assert(x.skip(x.len() - j) == m.take(j));
        }
    }
}

/// Counting in a concatenation, when no occurrence straddles the end of `x`.
pub proof fn lemma_join_x(x: Seq<char>, y: Seq<char>)
    requires
        ends_none(x),
    ensures
        tag_counts(x + y) == add3(tag_counts(x), tag_counts(y)),
{
    lemma_reveal_tags();
    lemma_occ_join_x_from(x, y, card_tag(), 0);
    lemma_occ_join_x_from(x, y, function_tag(), 0);
    lemma_occ_join_x_from(x, y, finding_tag(), 0);
}

/// An end that no tag straddles stays so after a long enough text is put in
/// front of it.
pub proof fn lemma_ends_none_prefixed(a: Seq<char>, x: Seq<char>)
    requires
        ends_none(x),
        x.len() >= 30,
    ensures
        ends_none(a + x),
{
    lemma_reveal_tags();
    assert forall|m: Seq<char>| no_end_split(x, m) && m.len() <= 31 implies no_end_split(a + x, m) by {
        assert forall|j: int| 0 < j < m.len() && j <= (a + x).len() implies #[trigger] (a + x).skip(
            (a + x).len() - j,
        ) != m.take(j) by {
            assert((a + x).skip((a + x).len() - j) =~= x.skip(x.len() - j));
        }
    }
}

/// Appending a text without `<` and `>` keeps an end that no tag straddles.
pub proof fn lemma_ends_none_tag_free(x: Seq<char>, c: Seq<char>)
    requires
        ends_none(x),
        tag_free(c),
    ensures
        ends_none(x + c),
{
    lemma_reveal_tags();
    assert forall|m: Seq<char>| no_end_split(x, m) && is_tag(m) implies no_end_split(x + c, m) by {
        assert forall|j: int| 0 < j < m.len() && j <= (x + c).len() implies #[trigger] (x + c).skip(
            (x + c).len() - j,
        ) != m.take(j) by {
            let t = (x + c).skip((x + c).len() - j);
            if t == m.take(j) {
                if j <= c.len() {
                    assert(t[0] == c[c.len() - j]);
                    assert(m.take(j)[0] == '<');
                } else {
                    let h = j - c.len();
                    assert(t.take(h) =~= x.skip(x.len() - h));
                    assert(m.take(j).take(h) =~= m.take(h));
                }
            }
        }
    }
}

proof fn lemma_occ_none_from(s: Seq<char>, m: Seq<char>, i: int)
    requires
        forall|k: int| k >= i ==> !matches_at(s, m, k),
    ensures
        occ_from(s, m, i) == 0,
    decreases s.len() - i,
{
    if 0 <= i < s.len() {
        lemma_occ_none_from(s, m, i + 1);
    }
}

proof fn lemma_occ_one_from(s: Seq<char>, m: Seq<char>, p: int, i: int)
    requires
        0 <= i <= p < s.len(),
        matches_at(s, m, p),
        forall|k: int| k != p ==> !matches_at(s, m, k),
    ensures
        occ_from(s, m, i) == 1,
    decreases p - i,
{
    if i < p {
        lemma_occ_one_from(s, m, p, i + 1);
    } else {
        lemma_occ_none_from(s, m, i + 1);
    }
}

/// A text where the tag stands nowhere has no occurrence of it.
pub proof fn lemma_occ_none(s: Seq<char>, m: Seq<char>)
    requires
        forall|k: int| !matches_at(s, m, k),
    ensures
        occurrences(s, m) == 0,
{
    lemma_occ_none_from(s, m, 0);
}

/// A text where the tag stands at exactly one index has one occurrence of it.
pub proof fn lemma_occ_one(s: Seq<char>, m: Seq<char>, p: int)
    requires
        m.len() > 0,
        matches_at(s, m, p),
        forall|k: int| k != p ==> !matches_at(s, m, k),
    ensures
        occurrences(s, m) == 1,
{
    lemma_occ_one_from(s, m, p, 0);
}

/// A text without `<` and `>` holds no tag, and no tag straddles its start.
pub proof fn lemma_tag_free(y: Seq<char>)
    requires
        tag_free(y),
    ensures
        tag_counts(y) == (0nat, 0nat, 0nat),
        splits_none(y),
{
    lemma_reveal_tags();
    assert forall|m: Seq<char>| is_tag(m) implies occurrences(y, m) == 0 && no_split(y, m) by {
        assert forall|k: int| !matches_at(y, m, k) by {
            if matches_at(y, m, k) {
                assert(y.subrange(k, k + m.len())[0] == m[0]);
            }
        }
        lemma_occ_none(y, m);
        assert forall|j: int| 0 < j < m.len() && m.len() - j <= y.len() implies #[trigger] y.take(
            m.len() - j,
        ) != m.skip(j) by {
            if y.take(m.len() - j) == m.skip(j) {
                assert(m.skip(j)[m.len() - j - 1] == '>');
                assert(y[m.len() - j - 1] == '>');
            }
        }
    }
}

/// A start that no tag straddles stays so when more text follows it.
pub proof fn lemma_splits_none_extends(x: Seq<char>, y: Seq<char>)
    requires
        splits_none(x),
        x.len() >= 29,
    ensures
        splits_none(x + y),
{
    lemma_reveal_tags();
    assert forall|m: Seq<char>| no_split(x, m) && m.len() <= 30 implies no_split(x + y, m) by {
        assert forall|j: int| 0 < j < m.len() && m.len() - j <= (x + y).len() implies #[trigger] (x
            + y).take(m.len() - j) != m.skip(j) by {
            assert((x + y).take(m.len() - j) =~= x.take(m.len() - j));
        }
    }
}

pub proof fn lemma_empty_counts()
    ensures
        tag_counts(Seq::<char>::empty()) == (0nat, 0nat, 0nat),
        splits_none(Seq::<char>::empty()),
{
    lemma_tag_free(Seq::<char>::empty());
}

// ---------------------------------------------------------------------------
// Tag-free pieces
// ---------------------------------------------------------------------------

pub proof fn lemma_decimal_tag_free(n: nat)
    ensures
        tag_free(decimal(n)),
    decreases n,
{
    if n >= 10 {
        lemma_decimal_tag_free(n / 10);
    }
}

pub proof fn lemma_escape_tag_free(s: Seq<char>)
    ensures
        tag_free(escape_text(s)),
{
    law_escape_removes_markup(s);
}

// ---------------------------------------------------------------------------
// A text against a tag, character by character
// ---------------------------------------------------------------------------

/// `m` stands in `s` nowhere but possibly at `p`: at every other start one of
/// the first two characters differs.
proof fn lemma_absent_except(s: Seq<char>, m: Seq<char>, p: int)
    requires
        m.len() >= 2,
        forall|k: int|
            0 <= k && k + m.len() <= s.len() && k != p ==> #[trigger] s[k] != m[0] || s[k + 1]
                != m[1],
    ensures
        forall|k: int| k != p ==> !matches_at(s, m, k),
{
    assert forall|k: int| k != p implies !matches_at(s, m, k) by {
        if matches_at(s, m, k) {
            assert(s.subrange(k, k + m.len())[0] == s[k]);
            assert(s.subrange(k, k + m.len())[1] == s[k + 1]);
        }
    }
}

/// No tail of `m` begins `s`: each differs from `s` in one of its first two
/// characters.
proof fn lemma_no_split_by_two(s: Seq<char>, m: Seq<char>)
    requires
        forall|j: int|
            0 < j < m.len() && m.len() - j <= s.len() ==> (s[0] != #[trigger] m[j]) || (m.len()
                - j > 1 && s[1] != m[j + 1]),
    ensures
        no_split(s, m),
{
    assert forall|j: int| 0 < j < m.len() && m.len() - j <= s.len() implies #[trigger] s.take(
        m.len() - j,
    ) != m.skip(j) by {
        if s.take(m.len() - j) == m.skip(j) {
            assert(s.take(m.len() - j)[0] == m.skip(j)[0]);
            if m.len() - j > 1 {
                assert(s.take(m.len() - j)[1] == m.skip(j)[1]);
            }
        }
    }
}

/// No head of `m` ends `s`: each differs from `s` in one of its last three
/// characters.
proof fn lemma_no_end_split_by_three(s: Seq<char>, m: Seq<char>)
    requires
        forall|j: int|
            0 < j < m.len() && j <= s.len() ==> (s[s.len() - 1] != #[trigger] m[j - 1]) || (j > 1
                && s[s.len() - 2] != m[j - 2]) || (j > 2 && s[s.len() - 3] != m[j - 3]),
    ensures
        no_end_split(s, m),
{
    assert forall|j: int| 0 < j < m.len() && j <= s.len() implies #[trigger] s.skip(
        s.len() - j,
    ) != m.take(j) by {
        if s.skip(s.len() - j) == m.take(j) {
            assert(s.skip(s.len() - j)[j - 1] == m.take(j)[j - 1]);
            if j > 1 {
                assert(s.skip(s.len() - j)[j - 2] == m.take(j)[j - 2]);
            }
            if j > 2 {
                assert(s.skip(s.len() - j)[j - 3] == m.take(j)[j - 3]);
            }
        }
    }
}

// ---------------------------------------------------------------------------
// Pieces of the page
// ---------------------------------------------------------------------------

// Each fixed text of the page: how many of the three tags it holds, and,
// where it is so, that no tag straddles its start or its end.

proof fn lemma_lit_0()
    ensures
        tag_counts("            <li class=\"list-card\"><strong>"@) == (0nat, 1nat, 0nat),
        splits_none("            <li class=\"list-card\"><strong>"@),
        ends_none("            <li class=\"list-card\"><strong>"@),
        "            <li class=\"list-card\"><strong>"@.len() == 42,
{
    reveal_strlit("            <li class=\"list-card\"><strong>");
    lemma_reveal_tags();
    let s = "            <li class=\"list-card\"><strong>"@;
    let m = card_tag();
    lemma_absent_except(s, m, -1);
    lemma_occ_none(s, m);
    let m = function_tag();
    lemma_absent_except(s, m, 12);
    assert(s.subrange(12, 12 + m.len() as int) =~= m);
    lemma_occ_one(s, m, 12);
    let m = finding_tag();
    lemma_absent_except(s, m, -1);
    lemma_occ_none(s, m);
    let m = card_tag();
    lemma_no_split_by_two(s, m);
    lemma_no_end_split_by_three(s, m);
    let m = function_tag();
    lemma_no_split_by_two(s, m);
    lemma_no_end_split_by_three(s, m);
    let m = finding_tag();
    lemma_no_split_by_two(s, m);
    lemma_no_end_split_by_three(s, m);
}

proof fn lemma_lit_1()
    ensures
        tag_counts("</strong><br>第 "@) == (0nat, 0nat, 0nat),
        splits_none("</strong><br>第 "@),
        ends_none("</strong><br>第 "@),
        "</strong><br>第 "@.len() == 15,
{
    reveal_strlit("</strong><br>第 ");
    lemma_reveal_tags();
    let s = "</strong><br>第 "@;
    let m = card_tag();
    lemma_absent_except(s, m, -1);
    lemma_occ_none(s, m);
    let m = function_tag();
    lemma_absent_except(s, m, -1);
    lemma_occ_none(s, m);
    let m = finding_tag();
    lemma_absent_except(s, m, -1);
    lemma_occ_none(s, m);
    let m = card_tag();
    lemma_no_split_by_two(s, m);
    lemma_no_end_split_by_three(s, m);
    let m = function_tag();
    lemma_no_split_by_two(s, m);
    lemma_no_end_split_by_three(s, m);
    let m = finding_tag();
    lemma_no_split_by_two(s, m);
    lemma_no_end_split_by_three(s, m);
}

proof fn lemma_lit_2()
    ensures
        tag_counts("-"@) == (0nat, 0nat, 0nat),
        splits_none("-"@),
        ends_none("-"@),
        "-"@.len() == 1,
{
    reveal_strlit("-");
    lemma_reveal_tags();
    let s = "-"@;
    let m = card_tag();
    lemma_absent_except(s, m, -1);
    lemma_occ_none(s, m);
    let m = function_tag();
    lemma_absent_except(s, m, -1);
    lemma_occ_none(s, m);
    let m = finding_tag();
    lemma_absent_except(s, m, -1);
    lemma_occ_none(s, m);
    let m = card_tag();
    lemma_no_split_by_two(s, m);
    lemma_no_end_split_by_three(s, m);
    let m = function_tag();
    lemma_no_split_by_two(s, m);
    lemma_no_end_split_by_three(s, m);
    let m = finding_tag();
    lemma_no_split_by_two(s, m);
    lemma_no_end_split_by_three(s, m);
}

proof fn lemma_lit_3()
    ensures
        tag_counts(" 行，参数 "@) == (0nat, 0nat, 0nat),
        splits_none(" 行，参数 "@),
        ends_none(" 行，参数 "@),
        " 行，参数 "@.len() == 6,
{
    reveal_strlit(" 行，参数 ");
    lemma_reveal_tags();
    let s = " 行，参数 "@;
    let m = card_tag();
    lemma_absent_except(s, m, -1);
    lemma_occ_none(s, m);
    let m = function_tag();
    lemma_absent_except(s, m, -1);
    lemma_occ_none(s, m);
    let m = finding_tag();
    lemma_absent_except(s, m, -1);
    lemma_occ_none(s, m);
    let m = card_tag();
    lemma_no_split_by_two(s, m);
    lemma_no_end_split_by_three(s, m);
    let m = function_tag();
    lemma_no_split_by_two(s, m);
    lemma_no_end_split_by_three(s, m);
    let m = finding_tag();
    lemma_no_split_by_two(s, m);
    lemma_no_end_split_by_three(s, m);
}

proof fn lemma_lit_4()
    ensures
        tag_counts(" 个，长度 "@) == (0nat, 0nat, 0nat),
        splits_none(" 个，长度 "@),
        ends_none(" 个，长度 "@),
        " 个，长度 "@.len() == 6,
{
    reveal_strlit(" 个，长度 ");
    lemma_reveal_tags();
    let s = " 个，长度 "@;
    let m = card_tag();
    lemma_absent_except(s, m, -1);
    lemma_occ_none(s, m);
    let m = function_tag();
    lemma_absent_except(s, m, -1);
    lemma_occ_none(s, m);
    let m = finding_tag();
    lemma_absent_except(s, m, -1);
    lemma_occ_none(s, m);
    let m = card_tag();
    lemma_no_split_by_two(s, m);
    lemma_no_end_split_by_three(s, m);
    let m = function_tag();
    lemma_no_split_by_two(s, m);
    lemma_no_end_split_by_three(s, m);
    let m = finding_tag();
    lemma_no_split_by_two(s, m);
    lemma_no_end_split_by_three(s, m);
}

proof fn lemma_lit_5()
    ensures
        tag_counts(" 行</li>\n"@) == (0nat, 0nat, 0nat),
        splits_none(" 行</li>\n"@),
        ends_none(" 行</li>\n"@),
        " 行</li>\n"@.len() == 8,
{
    reveal_strlit(" 行</li>\n");
    lemma_reveal_tags();
    let s = " 行</li>\n"@;
    let m = card_tag();
    lemma_absent_except(s, m, -1);
    lemma_occ_none(s, m);
    let m = function_tag();
    lemma_absent_except(s, m, -1);
    lemma_occ_none(s, m);
    let m = finding_tag();
    lemma_absent_except(s, m, -1);
    lemma_occ_none(s, m);
    let m = card_tag();
    lemma_no_split_by_two(s, m);
    lemma_no_end_split_by_three(s, m);
    let m = function_tag();
    lemma_no_split_by_two(s, m);
    lemma_no_end_split_by_three(s, m);
    let m = finding_tag();
    lemma_no_split_by_two(s, m);
    lemma_no_end_split_by_three(s, m);
}

proof fn lemma_lit_6()
    ensures
        tag_counts("            <li class=\"list-card\">\n              <div class=\"issue-top\">\n                <span class=\"issue-rule\">"@) == (0nat, 0nat, 1nat),
        splits_none("            <li class=\"list-card\">\n              <div class=\"issue-top\">\n                <span class=\"issue-rule\">"@),
        ends_none("            <li class=\"list-card\">\n              <div class=\"issue-top\">\n                <span class=\"issue-rule\">"@),
        "            <li class=\"list-card\">\n              <div class=\"issue-top\">\n                <span class=\"issue-rule\">"@.len() == 114,
{
    reveal_strlit("            <li class=\"list-card\">\n              <div class=\"issue-top\">\n                <span class=\"issue-rule\">");
    lemma_reveal_tags();
    let s = "            <li class=\"list-card\">\n              <div class=\"issue-top\">\n                <span class=\"issue-rule\">"@;
    let m = card_tag();
    lemma_absent_except(s, m, -1);
    lemma_occ_none(s, m);
    let m = function_tag();
    assert forall|k: int| true implies !matches_at(s, m, k) by {
        if 0 <= k && k + m.len() <= s.len() {
            assert(s[k + 0] != m[0] || s[k + 1] != m[1] || s[k + 2] != m[2] || s[k + 3] != m[3] || s[k + 4] != m[4] || s[k + 5] != m[5] || s[k + 6] != m[6] || s[k + 7] != m[7] || s[k + 8] != m[8] || s[k + 9] != m[9] || s[k + 10] != m[10] || s[k + 11] != m[11] || s[k + 12] != m[12] || s[k + 13] != m[13] || s[k + 14] != m[14] || s[k + 15] != m[15] || s[k + 16] != m[16] || s[k + 17] != m[17] || s[k + 18] != m[18] || s[k + 19] != m[19] || s[k + 20] != m[20] || s[k + 21] != m[21] || s[k + 22] != m[22]);
            if s.subrange(k, k + m.len()) == m {
                assert(s.subrange(k, k + m.len())[0] == s[k + 0]);
                assert(s.subrange(k, k + m.len())[1] == s[k + 1]);
                assert(s.subrange(k, k + m.len())[2] == s[k + 2]);
                assert(s.subrange(k, k + m.len())[3] == s[k + 3]);
                assert(s.subrange(k, k + m.len())[4] == s[k + 4]);
                assert(s.subrange(k, k + m.len())[5] == s[k + 5]);
                assert(s.subrange(k, k + m.len())[6] == s[k + 6]);
                assert(s.subrange(k, k + m.len())[7] == s[k + 7]);
                assert(s.subrange(k, k + m.len())[8] == s[k + 8]);
                assert(s.subrange(k, k + m.len())[9] == s[k + 9]);
                assert(s.subrange(k, k + m.len())[10] == s[k + 10]);
                assert(s.subrange(k, k + m.len())[11] == s[k + 11]);
                assert(s.subrange(k, k + m.len())[12] == s[k + 12]);
                assert(s.subrange(k, k + m.len())[13] == s[k + 13]);
                assert(s.subrange(k, k + m.len())[14] == s[k + 14]);
                assert(s.subrange(k, k + m.len())[15] == s[k + 15]);
                assert(s.subrange(k, k + m.len())[16] == s[k + 16]);
                assert(s.subrange(k, k + m.len())[17] == s[k + 17]);
                assert(s.subrange(k, k + m.len())[18] == s[k + 18]);
                assert(s.subrange(k, k + m.len())[19] == s[k + 19]);
                assert(s.subrange(k, k + m.len())[20] == s[k + 20]);
                assert(s.subrange(k, k + m.len())[21] == s[k + 21]);
                assert(s.subrange(k, k + m.len())[22] == s[k + 22]);
            }
        }
    }
    lemma_occ_none(s, m);
    let m = finding_tag();
    lemma_absent_except(s, m, 49);
    assert(s.subrange(49, 49 + m.len() as int) =~= m);
    lemma_occ_one(s, m, 49);
    let m = card_tag();
    lemma_no_split_by_two(s, m);
    lemma_no_end_split_by_three(s, m);
    let m = function_tag();
    lemma_no_split_by_two(s, m);
    lemma_no_end_split_by_three(s, m);
    let m = finding_tag();
    lemma_no_split_by_two(s, m);
    lemma_no_end_split_by_three(s, m);
}

proof fn lemma_lit_7()
    ensures
        tag_counts("</span>\n                <span class=\"severity "@) == (0nat, 0nat, 0nat),
        splits_none("</span>\n                <span class=\"severity "@),
        ends_none("</span>\n                <span class=\"severity "@),
        "</span>\n                <span class=\"severity "@.len() == 46,
{
    reveal_strlit("</span>\n                <span class=\"severity ");
    lemma_reveal_tags();
    let s = "</span>\n                <span class=\"severity "@;
    let m = card_tag();
    lemma_absent_except(s, m, -1);
    lemma_occ_none(s, m);
    let m = function_tag();
    lemma_absent_except(s, m, -1);
    lemma_occ_none(s, m);
    let m = finding_tag();
    lemma_absent_except(s, m, -1);
    lemma_occ_none(s, m);
    let m = card_tag();
    lemma_no_split_by_two(s, m);
    lemma_no_end_split_by_three(s, m);
    let m = function_tag();
    lemma_no_split_by_two(s, m);
    lemma_no_end_split_by_three(s, m);
    let m = finding_tag();
    lemma_no_split_by_two(s, m);
    lemma_no_end_split_by_three(s, m);
}

proof fn lemma_lit_8()
    ensures
        tag_counts("\">"@) == (0nat, 0nat, 0nat),
        ends_none("\">"@),
        "\">"@.len() == 2,
{
    reveal_strlit("\">");
    lemma_reveal_tags();
    let s = "\">"@;
    let m = card_tag();
    lemma_absent_except(s, m, -1);
    lemma_occ_none(s, m);
    let m = function_tag();
    lemma_absent_except(s, m, -1);
    lemma_occ_none(s, m);
    let m = finding_tag();
    lemma_absent_except(s, m, -1);
    lemma_occ_none(s, m);
    let m = card_tag();
    lemma_no_end_split_by_three(s, m);
    let m = function_tag();
    lemma_no_end_split_by_three(s, m);
    let m = finding_tag();
    lemma_no_end_split_by_three(s, m);
}

proof fn lemma_lit_9()
    ensures
        tag_counts("</span>\n              </div>\n              <p class=\"issue-message\">第 "@) == (0nat, 0nat, 0nat),
        splits_none("</span>\n              </div>\n              <p class=\"issue-message\">第 "@),
        ends_none("</span>\n              </div>\n              <p class=\"issue-message\">第 "@),
        "</span>\n              </div>\n              <p class=\"issue-message\">第 "@.len() == 70,
{
    reveal_strlit("</span>\n              </div>\n              <p class=\"issue-message\">第 ");
    lemma_reveal_tags();
    let s = "</span>\n              </div>\n              <p class=\"issue-message\">第 "@;
    let m = card_tag();
    lemma_absent_except(s, m, -1);
    lemma_occ_none(s, m);
    let m = function_tag();
    lemma_absent_except(s, m, -1);
    lemma_occ_none(s, m);
    let m = finding_tag();
    lemma_absent_except(s, m, -1);
    lemma_occ_none(s, m);
    let m = card_tag();
    lemma_no_split_by_two(s, m);
    lemma_no_end_split_by_three(s, m);
    let m = function_tag();
    lemma_no_split_by_two(s, m);
    lemma_no_end_split_by_three(s, m);
    let m = finding_tag();
    lemma_no_split_by_two(s, m);
    lemma_no_end_split_by_three(s, m);
}

proof fn lemma_lit_10()
    ensures
        tag_counts(" 行: "@) == (0nat, 0nat, 0nat),
        splits_none(" 行: "@),
        ends_none(" 行: "@),
        " 行: "@.len() == 4,
{
    reveal_strlit(" 行: ");
    lemma_reveal_tags();
    let s = " 行: "@;
    let m = card_tag();
    lemma_absent_except(s, m, -1);
    lemma_occ_none(s, m);
    let m = function_tag();
    lemma_absent_except(s, m, -1);
    lemma_occ_none(s, m);
    let m = finding_tag();
    lemma_absent_except(s, m, -1);
    lemma_occ_none(s, m);
    let m = card_tag();
    lemma_no_split_by_two(s, m);
    lemma_no_end_split_by_three(s, m);
    let m = function_tag();
    lemma_no_split_by_two(s, m);
    lemma_no_end_split_by_three(s, m);
    let m = finding_tag();
    lemma_no_split_by_two(s, m);
    lemma_no_end_split_by_three(s, m);
}

proof fn lemma_lit_11()
    ensures
        tag_counts("</p>\n"@) == (0nat, 0nat, 0nat),
        splits_none("</p>\n"@),
        ends_none("</p>\n"@),
        "</p>\n"@.len() == 5,
{
    reveal_strlit("</p>\n");
    lemma_reveal_tags();
    let s = "</p>\n"@;
    let m = card_tag();
    lemma_absent_except(s, m, -1);
    lemma_occ_none(s, m);
    let m = function_tag();
    lemma_absent_except(s, m, -1);
    lemma_occ_none(s, m);
    let m = finding_tag();
    lemma_absent_except(s, m, -1);
    lemma_occ_none(s, m);
    let m = card_tag();
    lemma_no_split_by_two(s, m);
    lemma_no_end_split_by_three(s, m);
    let m = function_tag();
    lemma_no_split_by_two(s, m);
    lemma_no_end_split_by_three(s, m);
    let m = finding_tag();
    lemma_no_split_by_two(s, m);
    lemma_no_end_split_by_three(s, m);
}

proof fn lemma_lit_12()
    ensures
        tag_counts("            </li>\n"@) == (0nat, 0nat, 0nat),
        splits_none("            </li>\n"@),
        ends_none("            </li>\n"@),
        "            </li>\n"@.len() == 18,
{
    reveal_strlit("            </li>\n");
    lemma_reveal_tags();
    let s = "            </li>\n"@;
    let m = card_tag();
    lemma_absent_except(s, m, -1);
    lemma_occ_none(s, m);
    let m = function_tag();
    lemma_absent_except(s, m, -1);
    lemma_occ_none(s, m);
    let m = finding_tag();
    lemma_absent_except(s, m, -1);
    lemma_occ_none(s, m);
    let m = card_tag();
    lemma_no_split_by_two(s, m);
    lemma_no_end_split_by_three(s, m);
    let m = function_tag();
    lemma_no_split_by_two(s, m);
    lemma_no_end_split_by_three(s, m);
    let m = finding_tag();
    lemma_no_split_by_two(s, m);
    lemma_no_end_split_by_three(s, m);
}

proof fn lemma_lit_13()
    ensures
        tag_counts("          <div class=\"metric-box\"><strong>"@) == (0nat, 0nat, 0nat),
        splits_none("          <div class=\"metric-box\"><strong>"@),
        ends_none("          <div class=\"metric-box\"><strong>"@),
        "          <div class=\"metric-box\"><strong>"@.len() == 42,
{
    reveal_strlit("          <div class=\"metric-box\"><strong>");
    lemma_reveal_tags();
    let s = "          <div class=\"metric-box\"><strong>"@;
    let m = card_tag();
    lemma_absent_except(s, m, -1);
    lemma_occ_none(s, m);
    let m = function_tag();
    lemma_absent_except(s, m, -1);
    lemma_occ_none(s, m);
    let m = finding_tag();
    assert forall|k: int| true implies !matches_at(s, m, k) by {
        if 0 <= k && k + m.len() <= s.len() {
            assert(s[k + 0] != m[0] || s[k + 1] != m[1] || s[k + 2] != m[2] || s[k + 3] != m[3] || s[k + 4] != m[4] || s[k + 5] != m[5] || s[k + 6] != m[6] || s[k + 7] != m[7] || s[k + 8] != m[8] || s[k + 9] != m[9] || s[k + 10] != m[10] || s[k + 11] != m[11] || s[k + 12] != m[12]);
            if s.subrange(k, k + m.len()) == m {
                assert(s.subrange(k, k + m.len())[0] == s[k + 0]);
                assert(s.subrange(k, k + m.len())[1] == s[k + 1]);
                assert(s.subrange(k, k + m.len())[2] == s[k + 2]);
                assert(s.subrange(k, k + m.len())[3] == s[k + 3]);
                assert(s.subrange(k, k + m.len())[4] == s[k + 4]);
                assert(s.subrange(k, k + m.len())[5] == s[k + 5]);
                assert(s.subrange(k, k + m.len())[6] == s[k + 6]);
                assert(s.subrange(k, k + m.len())[7] == s[k + 7]);
                assert(s.subrange(k, k + m.len())[8] == s[k + 8]);
                assert(s.subrange(k, k + m.len())[9] == s[k + 9]);
                assert(s.subrange(k, k + m.len())[10] == s[k + 10]);
                assert(s.subrange(k, k + m.len())[11] == s[k + 11]);
                assert(s.subrange(k, k + m.len())[12] == s[k + 12]);
            }
        }
    }
    lemma_occ_none(s, m);
    let m = card_tag();
    lemma_no_split_by_two(s, m);
    lemma_no_end_split_by_three(s, m);
    let m = function_tag();
    lemma_no_split_by_two(s, m);
    lemma_no_end_split_by_three(s, m);
    let m = finding_tag();
    lemma_no_split_by_two(s, m);
    lemma_no_end_split_by_three(s, m);
}

proof fn lemma_lit_14()
    ensures
        tag_counts("</strong><span>"@) == (0nat, 0nat, 0nat),
        splits_none("</strong><span>"@),
        ends_none("</strong><span>"@),
        "</strong><span>"@.len() == 15,
{
    reveal_strlit("</strong><span>");
    lemma_reveal_tags();
    let s = "</strong><span>"@;
    let m = card_tag();
    lemma_absent_except(s, m, -1);
    lemma_occ_none(s, m);
    let m = function_tag();
    lemma_absent_except(s, m, -1);
    lemma_occ_none(s, m);
    let m = finding_tag();
    lemma_absent_except(s, m, -1);
    lemma_occ_none(s, m);
    let m = card_tag();
    lemma_no_split_by_two(s, m);
    lemma_no_end_split_by_three(s, m);
    let m = function_tag();
    lemma_no_split_by_two(s, m);
    lemma_no_end_split_by_three(s, m);
    let m = finding_tag();
    lemma_no_split_by_two(s, m);
    lemma_no_end_split_by_three(s, m);
}

proof fn lemma_lit_15()
    ensures
        tag_counts("</span></div>\n"@) == (0nat, 0nat, 0nat),
        splits_none("</span></div>\n"@),
        ends_none("</span></div>\n"@),
        "</span></div>\n"@.len() == 14,
{
    reveal_strlit("</span></div>\n");
    lemma_reveal_tags();
    let s = "</span></div>\n"@;
    let m = card_tag();
    lemma_absent_except(s, m, -1);
    lemma_occ_none(s, m);
    let m = function_tag();
    lemma_absent_except(s, m, -1);
    lemma_occ_none(s, m);
    let m = finding_tag();
    lemma_absent_except(s, m, -1);
    lemma_occ_none(s, m);
    let m = card_tag();
    lemma_no_split_by_two(s, m);
    lemma_no_end_split_by_three(s, m);
    let m = function_tag();
    lemma_no_split_by_two(s, m);
    lemma_no_end_split_by_three(s, m);
    let m = finding_tag();
    lemma_no_split_by_two(s, m);
    lemma_no_end_split_by_three(s, m);
}

proof fn lemma_lit_16()
    ensures
        tag_counts("      <article class=\"file-card\">\n        <div class=\"file-header\">\n          <h2 class=\"file-title\">"@) == (1nat, 0nat, 0nat),
        splits_none("      <article class=\"file-card\">\n        <div class=\"file-header\">\n          <h2 class=\"file-title\">"@),
        ends_none("      <article class=\"file-card\">\n        <div class=\"file-header\">\n          <h2 class=\"file-title\">"@),
        "      <article class=\"file-card\">\n        <div class=\"file-header\">\n          <h2 class=\"file-title\">"@.len() == 101,
{
    reveal_strlit("      <article class=\"file-card\">\n        <div class=\"file-header\">\n          <h2 class=\"file-title\">");
    lemma_reveal_tags();
    let s = "      <article class=\"file-card\">\n        <div class=\"file-header\">\n          <h2 class=\"file-title\">"@;
    let m = card_tag();
    lemma_absent_except(s, m, 6);
    assert(s.subrange(6, 6 + m.len() as int) =~= m);
    lemma_occ_one(s, m, 6);
    let m = function_tag();
    lemma_absent_except(s, m, -1);
    lemma_occ_none(s, m);
    let m = finding_tag();
    assert forall|k: int| true implies !matches_at(s, m, k) by {
        if 0 <= k && k + m.len() <= s.len() {
            assert(s[k + 0] != m[0] || s[k + 1] != m[1] || s[k + 2] != m[2] || s[k + 3] != m[3] || s[k + 4] != m[4] || s[k + 5] != m[5] || s[k + 6] != m[6] || s[k + 7] != m[7] || s[k + 8] != m[8] || s[k + 9] != m[9] || s[k + 10] != m[10] || s[k + 11] != m[11] || s[k + 12] != m[12]);
            if s.subrange(k, k + m.len()) == m {
                assert(s.subrange(k, k + m.len())[0] == s[k + 0]);
                assert(s.subrange(k, k + m.len())[1] == s[k + 1]);
                assert(s.subrange(k, k + m.len())[2] == s[k + 2]);
                assert(s.subrange(k, k + m.len())[3] == s[k + 3]);
                assert(s.subrange(k, k + m.len())[4] == s[k + 4]);
                assert(s.subrange(k, k + m.len())[5] == s[k + 5]);
                assert(s.subrange(k, k + m.len())[6] == s[k + 6]);
                assert(s.subrange(k, k + m.len())[7] == s[k + 7]);
                assert(s.subrange(k, k + m.len())[8] == s[k + 8]);
                assert(s.subrange(k, k + m.len())[9] == s[k + 9]);
                assert(s.subrange(k, k + m.len())[10] == s[k + 10]);
                assert(s.subrange(k, k + m.len())[11] == s[k + 11]);
                assert(s.subrange(k, k + m.len())[12] == s[k + 12]);
            }
        }
    }
    lemma_occ_none(s, m);
    let m = card_tag();
    lemma_no_split_by_two(s, m);
    lemma_no_end_split_by_three(s, m);
    let m = function_tag();
    lemma_no_split_by_two(s, m);
    lemma_no_end_split_by_three(s, m);
    let m = finding_tag();
    lemma_no_split_by_two(s, m);
    lemma_no_end_split_by_three(s, m);
}

proof fn lemma_lit_17()
    ensures
        tag_counts("</h2>\n          <div class=\"badge\">"@) == (0nat, 0nat, 0nat),
        splits_none("</h2>\n          <div class=\"badge\">"@),
        ends_none("</h2>\n          <div class=\"badge\">"@),
        "</h2>\n          <div class=\"badge\">"@.len() == 35,
{
    reveal_strlit("</h2>\n          <div class=\"badge\">");
    lemma_reveal_tags();
    let s = "</h2>\n          <div class=\"badge\">"@;
    let m = card_tag();
    lemma_absent_except(s, m, -1);
    lemma_occ_none(s, m);
    let m = function_tag();
    lemma_absent_except(s, m, -1);
    lemma_occ_none(s, m);
    let m = finding_tag();
    lemma_absent_except(s, m, -1);
    lemma_occ_none(s, m);
    let m = card_tag();
    lemma_no_split_by_two(s, m);
    lemma_no_end_split_by_three(s, m);
    let m = function_tag();
    lemma_no_split_by_two(s, m);
    lemma_no_end_split_by_three(s, m);
    let m = finding_tag();
    lemma_no_split_by_two(s, m);
    lemma_no_end_split_by_three(s, m);
}

proof fn lemma_lit_18()
    ensures
        tag_counts(" 个问题</div>\n        </div>\n        <div class=\"metric-row\">\n"@) == (0nat, 0nat, 0nat),
        splits_none(" 个问题</div>\n        </div>\n        <div class=\"metric-row\">\n"@),
        ends_none(" 个问题</div>\n        </div>\n        <div class=\"metric-row\">\n"@),
        " 个问题</div>\n        </div>\n        <div class=\"metric-row\">\n"@.len() == 59,
{
    reveal_strlit(" 个问题</div>\n        </div>\n        <div class=\"metric-row\">\n");
    lemma_reveal_tags();
    let s = " 个问题</div>\n        </div>\n        <div class=\"metric-row\">\n"@;
    let m = card_tag();
    lemma_absent_except(s, m, -1);
    lemma_occ_none(s, m);
    let m = function_tag();
    lemma_absent_except(s, m, -1);
    lemma_occ_none(s, m);
    let m = finding_tag();
    assert forall|k: int| true implies !matches_at(s, m, k) by {
        if 0 <= k && k + m.len() <= s.len() {
            assert(s[k + 0] != m[0] || s[k + 1] != m[1] || s[k + 2] != m[2] || s[k + 3] != m[3] || s[k + 4] != m[4] || s[k + 5] != m[5] || s[k + 6] != m[6] || s[k + 7] != m[7] || s[k + 8] != m[8] || s[k + 9] != m[9] || s[k + 10] != m[10] || s[k + 11] != m[11] || s[k + 12] != m[12]);
            if s.subrange(k, k + m.len()) == m {
                assert(s.subrange(k, k + m.len())[0] == s[k + 0]);
                assert(s.subrange(k, k + m.len())[1] == s[k + 1]);
                assert(s.subrange(k, k + m.len())[2] == s[k + 2]);
                assert(s.subrange(k, k + m.len())[3] == s[k + 3]);
                assert(s.subrange(k, k + m.len())[4] == s[k + 4]);
                assert(s.subrange(k, k + m.len())[5] == s[k + 5]);
                assert(s.subrange(k, k + m.len())[6] == s[k + 6]);
                assert(s.subrange(k, k + m.len())[7] == s[k + 7]);
                assert(s.subrange(k, k + m.len())[8] == s[k + 8]);
                assert(s.subrange(k, k + m.len())[9] == s[k + 9]);
                assert(s.subrange(k, k + m.len())[10] == s[k + 10]);
                assert(s.subrange(k, k + m.len())[11] == s[k + 11]);
                assert(s.subrange(k, k + m.len())[12] == s[k + 12]);
            }
        }
    }
    lemma_occ_none(s, m);
    let m = card_tag();
    lemma_no_split_by_two(s, m);
    lemma_no_end_split_by_three(s, m);
    let m = function_tag();
    lemma_no_split_by_two(s, m);
    lemma_no_end_split_by_three(s, m);
    let m = finding_tag();
    lemma_no_split_by_two(s, m);
    lemma_no_end_split_by_three(s, m);
}

proof fn lemma_lit_19()
    ensures
        tag_counts("        </div>\n        <div class=\"functions\">\n          <h2 class=\"section-title\">函数信息</h2>\n"@) == (0nat, 0nat, 0nat),
        splits_none("        </div>\n        <div class=\"functions\">\n          <h2 class=\"section-title\">函数信息</h2>\n"@),
        ends_none("        </div>\n        <div class=\"functions\">\n          <h2 class=\"section-title\">函数信息</h2>\n"@),
        "        </div>\n        <div class=\"functions\">\n          <h2 class=\"section-title\">函数信息</h2>\n"@.len() == 93,
{
    reveal_strlit("        </div>\n        <div class=\"functions\">\n          <h2 class=\"section-title\">函数信息</h2>\n");
    lemma_reveal_tags();
    let s = "        </div>\n        <div class=\"functions\">\n          <h2 class=\"section-title\">函数信息</h2>\n"@;
    let m = card_tag();
    lemma_absent_except(s, m, -1);
    lemma_occ_none(s, m);
    let m = function_tag();
    lemma_absent_except(s, m, -1);
    lemma_occ_none(s, m);
    let m = finding_tag();
    assert forall|k: int| true implies !matches_at(s, m, k) by {
        if 0 <= k && k + m.len() <= s.len() {
            assert(s[k + 0] != m[0] || s[k + 1] != m[1] || s[k + 2] != m[2] || s[k + 3] != m[3] || s[k + 4] != m[4] || s[k + 5] != m[5] || s[k + 6] != m[6] || s[k + 7] != m[7] || s[k + 8] != m[8] || s[k + 9] != m[9] || s[k + 10] != m[10] || s[k + 11] != m[11] || s[k + 12] != m[12]);
            if s.subrange(k, k + m.len()) == m {
                assert(s.subrange(k, k + m.len())[0] == s[k + 0]);
                assert(s.subrange(k, k + m.len())[1] == s[k + 1]);
                assert(s.subrange(k, k + m.len())[2] == s[k + 2]);
                assert(s.subrange(k, k + m.len())[3] == s[k + 3]);
                assert(s.subrange(k, k + m.len())[4] == s[k + 4]);
                assert(s.subrange(k, k + m.len())[5] == s[k + 5]);
                assert(s.subrange(k, k + m.len())[6] == s[k + 6]);
                assert(s.subrange(k, k + m.len())[7] == s[k + 7]);
                assert(s.subrange(k, k + m.len())[8] == s[k + 8]);
                assert(s.subrange(k, k + m.len())[9] == s[k + 9]);
                assert(s.subrange(k, k + m.len())[10] == s[k + 10]);
                assert(s.subrange(k, k + m.len())[11] == s[k + 11]);
                assert(s.subrange(k, k + m.len())[12] == s[k + 12]);
            }
        }
    }
    lemma_occ_none(s, m);
    let m = card_tag();
    lemma_no_split_by_two(s, m);
    lemma_no_end_split_by_three(s, m);
    let m = function_tag();
    lemma_no_split_by_two(s, m);
    lemma_no_end_split_by_three(s, m);
    let m = finding_tag();
    lemma_no_split_by_two(s, m);
    lemma_no_end_split_by_three(s, m);
}

proof fn lemma_lit_20()
    ensures
        tag_counts("        </div>\n        <div class=\"issues\">\n          <h2 class=\"section-title\">问题详情</h2>\n"@) == (0nat, 0nat, 0nat),
        splits_none("        </div>\n        <div class=\"issues\">\n          <h2 class=\"section-title\">问题详情</h2>\n"@),
        ends_none("        </div>\n        <div class=\"issues\">\n          <h2 class=\"section-title\">问题详情</h2>\n"@),
        "        </div>\n        <div class=\"issues\">\n          <h2 class=\"section-title\">问题详情</h2>\n"@.len() == 90,
{
    reveal_strlit("        </div>\n        <div class=\"issues\">\n          <h2 class=\"section-title\">问题详情</h2>\n");
    lemma_reveal_tags();
    let s = "        </div>\n        <div class=\"issues\">\n          <h2 class=\"section-title\">问题详情</h2>\n"@;
    let m = card_tag();
    lemma_absent_except(s, m, -1);
    lemma_occ_none(s, m);
    let m = function_tag();
    lemma_absent_except(s, m, -1);
    lemma_occ_none(s, m);
    let m = finding_tag();
    assert forall|k: int| true implies !matches_at(s, m, k) by {
        if 0 <= k && k + m.len() <= s.len() {
            assert(s[k + 0] != m[0] || s[k + 1] != m[1] || s[k + 2] != m[2] || s[k + 3] != m[3] || s[k + 4] != m[4] || s[k + 5] != m[5] || s[k + 6] != m[6] || s[k + 7] != m[7] || s[k + 8] != m[8] || s[k + 9] != m[9] || s[k + 10] != m[10] || s[k + 11] != m[11] || s[k + 12] != m[12] || s[k + 13] != m[13] || s[k + 14] != m[14] || s[k + 15] != m[15] || s[k + 16] != m[16] || s[k + 17] != m[17]);
            if s.subrange(k, k + m.len()) == m {
                assert(s.subrange(k, k + m.len())[0] == s[k + 0]);
                assert(s.subrange(k, k + m.len())[1] == s[k + 1]);
                assert(s.subrange(k, k + m.len())[2] == s[k + 2]);
                assert(s.subrange(k, k + m.len())[3] == s[k + 3]);
                assert(s.subrange(k, k + m.len())[4] == s[k + 4]);
                assert(s.subrange(k, k + m.len())[5] == s[k + 5]);
                assert(s.subrange(k, k + m.len())[6] == s[k + 6]);
                assert(s.subrange(k, k + m.len())[7] == s[k + 7]);
                assert(s.subrange(k, k + m.len())[8] == s[k + 8]);
                assert(s.subrange(k, k + m.len())[9] == s[k + 9]);
                assert(s.subrange(k, k + m.len())[10] == s[k + 10]);
                assert(s.subrange(k, k + m.len())[11] == s[k + 11]);
                assert(s.subrange(k, k + m.len())[12] == s[k + 12]);
                assert(s.subrange(k, k + m.len())[13] == s[k + 13]);
                assert(s.subrange(k, k + m.len())[14] == s[k + 14]);
                assert(s.subrange(k, k + m.len())[15] == s[k + 15]);
                assert(s.subrange(k, k + m.len())[16] == s[k + 16]);
                assert(s.subrange(k, k + m.len())[17] == s[k + 17]);
            }
        }
    }
    lemma_occ_none(s, m);
    let m = card_tag();
    lemma_no_split_by_two(s, m);
    lemma_no_end_split_by_three(s, m);
    let m = function_tag();
    lemma_no_split_by_two(s, m);
    lemma_no_end_split_by_three(s, m);
    let m = finding_tag();
    lemma_no_split_by_two(s, m);
    lemma_no_end_split_by_three(s, m);
}

proof fn lemma_lit_21()
    ensures
        tag_counts("        </div>\n      </article>\n"@) == (0nat, 0nat, 0nat),
        splits_none("        </div>\n      </article>\n"@),
        ends_none("        </div>\n      </article>\n"@),
        "        </div>\n      </article>\n"@.len() == 32,
{
    reveal_strlit("        </div>\n      </article>\n");
    lemma_reveal_tags();
    let s = "        </div>\n      </article>\n"@;
    let m = card_tag();
    lemma_absent_except(s, m, -1);
    lemma_occ_none(s, m);
    let m = function_tag();
    lemma_absent_except(s, m, -1);
    lemma_occ_none(s, m);
    let m = finding_tag();
    lemma_absent_except(s, m, -1);
    lemma_occ_none(s, m);
    let m = card_tag();
    lemma_no_split_by_two(s, m);
    lemma_no_end_split_by_three(s, m);
    let m = function_tag();
    lemma_no_split_by_two(s, m);
    lemma_no_end_split_by_three(s, m);
    let m = finding_tag();
    lemma_no_split_by_two(s, m);
    lemma_no_end_split_by_three(s, m);
}

proof fn lemma_lit_22()
    ensures
        tag_counts("        <div class=\"stat\"><div class=\"stat-label\">文件数量</div><div class=\"stat-value\">"@) == (0nat, 0nat, 0nat),
        splits_none("        <div class=\"stat\"><div class=\"stat-label\">文件数量</div><div class=\"stat-value\">"@),
        ends_none("        <div class=\"stat\"><div class=\"stat-label\">文件数量</div><div class=\"stat-value\">"@),
        "        <div class=\"stat\"><div class=\"stat-label\">文件数量</div><div class=\"stat-value\">"@.len() == 84,
{
    reveal_strlit("        <div class=\"stat\"><div class=\"stat-label\">文件数量</div><div class=\"stat-value\">");
    lemma_reveal_tags();
    let s = "        <div class=\"stat\"><div class=\"stat-label\">文件数量</div><div class=\"stat-value\">"@;
    let m = card_tag();
    lemma_absent_except(s, m, -1);
    lemma_occ_none(s, m);
    let m = function_tag();
    lemma_absent_except(s, m, -1);
    lemma_occ_none(s, m);
    let m = finding_tag();
    assert forall|k: int| true implies !matches_at(s, m, k) by {
        if 0 <= k && k + m.len() <= s.len() {
            assert(s[k + 0] != m[0] || s[k + 1] != m[1] || s[k + 2] != m[2] || s[k + 3] != m[3] || s[k + 4] != m[4] || s[k + 5] != m[5] || s[k + 6] != m[6] || s[k + 7] != m[7] || s[k + 8] != m[8] || s[k + 9] != m[9] || s[k + 10] != m[10] || s[k + 11] != m[11] || s[k + 12] != m[12]);
            if s.subrange(k, k + m.len()) == m {
                assert(s.subrange(k, k + m.len())[0] == s[k + 0]);
                assert(s.subrange(k, k + m.len())[1] == s[k + 1]);
                assert(s.subrange(k, k + m.len())[2] == s[k + 2]);
                assert(s.subrange(k, k + m.len())[3] == s[k + 3]);
                assert(s.subrange(k, k + m.len())[4] == s[k + 4]);
                assert(s.subrange(k, k + m.len())[5] == s[k + 5]);
                assert(s.subrange(k, k + m.len())[6] == s[k + 6]);
                assert(s.subrange(k, k + m.len())[7] == s[k + 7]);
                assert(s.subrange(k, k + m.len())[8] == s[k + 8]);
                assert(s.subrange(k, k + m.len())[9] == s[k + 9]);
                assert(s.subrange(k, k + m.len())[10] == s[k + 10]);
                assert(s.subrange(k, k + m.len())[11] == s[k + 11]);
                assert(s.subrange(k, k + m.len())[12] == s[k + 12]);
            }
        }
    }
    lemma_occ_none(s, m);
    let m = card_tag();
    lemma_no_split_by_two(s, m);
    lemma_no_end_split_by_three(s, m);
    let m = function_tag();
    lemma_no_split_by_two(s, m);
    lemma_no_end_split_by_three(s, m);
    let m = finding_tag();
    lemma_no_split_by_two(s, m);
    lemma_no_end_split_by_three(s, m);
}

proof fn lemma_lit_23()
    ensures
        tag_counts("</div></div>\n        <div class=\"stat\"><div class=\"stat-label\">问题总数</div><div class=\"stat-value\">"@) == (0nat, 0nat, 0nat),
        splits_none("</div></div>\n        <div class=\"stat\"><div class=\"stat-label\">问题总数</div><div class=\"stat-value\">"@),
        ends_none("</div></div>\n        <div class=\"stat\"><div class=\"stat-label\">问题总数</div><div class=\"stat-value\">"@),
        "</div></div>\n        <div class=\"stat\"><div class=\"stat-label\">问题总数</div><div class=\"stat-value\">"@.len() == 97,
{
    reveal_strlit("</div></div>\n        <div class=\"stat\"><div class=\"stat-label\">问题总数</div><div class=\"stat-value\">");
    lemma_reveal_tags();
    let s = "</div></div>\n        <div class=\"stat\"><div class=\"stat-label\">问题总数</div><div class=\"stat-value\">"@;
    let m = card_tag();
    lemma_absent_except(s, m, -1);
    lemma_occ_none(s, m);
    let m = function_tag();
    lemma_absent_except(s, m, -1);
    lemma_occ_none(s, m);
    let m = finding_tag();
    assert forall|k: int| true implies !matches_at(s, m, k) by {
        if 0 <= k && k + m.len() <= s.len() {
            assert(s[k + 0] != m[0] || s[k + 1] != m[1] || s[k + 2] != m[2] || s[k + 3] != m[3] || s[k + 4] != m[4] || s[k + 5] != m[5] || s[k + 6] != m[6] || s[k + 7] != m[7] || s[k + 8] != m[8] || s[k + 9] != m[9] || s[k + 10] != m[10] || s[k + 11] != m[11] || s[k + 12] != m[12]);
            if s.subrange(k, k + m.len()) == m {
                assert(s.subrange(k, k + m.len())[0] == s[k + 0]);
                assert(s.subrange(k, k + m.len())[1] == s[k + 1]);
                assert(s.subrange(k, k + m.len())[2] == s[k + 2]);
                assert(s.subrange(k, k + m.len())[3] == s[k + 3]);
                assert(s.subrange(k, k + m.len())[4] == s[k + 4]);
                assert(s.subrange(k, k + m.len())[5] == s[k + 5]);
                assert(s.subrange(k, k + m.len())[6] == s[k + 6]);
                assert(s.subrange(k, k + m.len())[7] == s[k + 7]);
                assert(s.subrange(k, k + m.len())[8] == s[k + 8]);
                assert(s.subrange(k, k + m.len())[9] == s[k + 9]);
                assert(s.subrange(k, k + m.len())[10] == s[k + 10]);
                assert(s.subrange(k, k + m.len())[11] == s[k + 11]);
                assert(s.subrange(k, k + m.len())[12] == s[k + 12]);
            }
        }
    }
    lemma_occ_none(s, m);
    let m = card_tag();
    lemma_no_split_by_two(s, m);
    lemma_no_end_split_by_three(s, m);
    let m = function_tag();
    lemma_no_split_by_two(s, m);
    lemma_no_end_split_by_three(s, m);
    let m = finding_tag();
    lemma_no_split_by_two(s, m);
    lemma_no_end_split_by_three(s, m);
}

proof fn lemma_lit_24()
    ensures
        tag_counts("</div></div>\n        <div class=\"stat\"><div class=\"stat-label\">总行数</div><div class=\"stat-value\">"@) == (0nat, 0nat, 0nat),
        splits_none("</div></div>\n        <div class=\"stat\"><div class=\"stat-label\">总行数</div><div class=\"stat-value\">"@),
        ends_none("</div></div>\n        <div class=\"stat\"><div class=\"stat-label\">总行数</div><div class=\"stat-value\">"@),
        "</div></div>\n        <div class=\"stat\"><div class=\"stat-label\">总行数</div><div class=\"stat-value\">"@.len() == 96,
{
    reveal_strlit("</div></div>\n        <div class=\"stat\"><div class=\"stat-label\">总行数</div><div class=\"stat-value\">");
    lemma_reveal_tags();
    let s = "</div></div>\n        <div class=\"stat\"><div class=\"stat-label\">总行数</div><div class=\"stat-value\">"@;
    let m = card_tag();
    lemma_absent_except(s, m, -1);
    lemma_occ_none(s, m);
    let m = function_tag();
    lemma_absent_except(s, m, -1);
    lemma_occ_none(s, m);
    let m = finding_tag();
    assert forall|k: int| true implies !matches_at(s, m, k) by {
        if 0 <= k && k + m.len() <= s.len() {
            assert(s[k + 0] != m[0] || s[k + 1] != m[1] || s[k + 2] != m[2] || s[k + 3] != m[3] || s[k + 4] != m[4] || s[k + 5] != m[5] || s[k + 6] != m[6] || s[k + 7] != m[7] || s[k + 8] != m[8] || s[k + 9] != m[9] || s[k + 10] != m[10] || s[k + 11] != m[11] || s[k + 12] != m[12]);
            if s.subrange(k, k + m.len()) == m {
                assert(s.subrange(k, k + m.len())[0] == s[k + 0]);
                assert(s.subrange(k, k + m.len())[1] == s[k + 1]);
                assert(s.subrange(k, k + m.len())[2] == s[k + 2]);
                assert(s.subrange(k, k + m.len())[3] == s[k + 3]);
                assert(s.subrange(k, k + m.len())[4] == s[k + 4]);
                assert(s.subrange(k, k + m.len())[5] == s[k + 5]);
                assert(s.subrange(k, k + m.len())[6] == s[k + 6]);
                assert(s.subrange(k, k + m.len())[7] == s[k + 7]);
                assert(s.subrange(k, k + m.len())[8] == s[k + 8]);
                assert(s.subrange(k, k + m.len())[9] == s[k + 9]);
                assert(s.subrange(k, k + m.len())[10] == s[k + 10]);
                assert(s.subrange(k, k + m.len())[11] == s[k + 11]);
                assert(s.subrange(k, k + m.len())[12] == s[k + 12]);
            }
        }
    }
    lemma_occ_none(s, m);
    let m = card_tag();
    lemma_no_split_by_two(s, m);
    lemma_no_end_split_by_three(s, m);
    let m = function_tag();
    lemma_no_split_by_two(s, m);
    lemma_no_end_split_by_three(s, m);
    let m = finding_tag();
    lemma_no_split_by_two(s, m);
    lemma_no_end_split_by_three(s, m);
}

proof fn lemma_lit_25()
    ensures
        tag_counts("</div></div>\n        <div class=\"stat\"><div class=\"stat-label\">代码行数</div><div class=\"stat-value\">"@) == (0nat, 0nat, 0nat),
        splits_none("</div></div>\n        <div class=\"stat\"><div class=\"stat-label\">代码行数</div><div class=\"stat-value\">"@),
        ends_none("</div></div>\n        <div class=\"stat\"><div class=\"stat-label\">代码行数</div><div class=\"stat-value\">"@),
        "</div></div>\n        <div class=\"stat\"><div class=\"stat-label\">代码行数</div><div class=\"stat-value\">"@.len() == 97,
{
    reveal_strlit("</div></div>\n        <div class=\"stat\"><div class=\"stat-label\">代码行数</div><div class=\"stat-value\">");
    lemma_reveal_tags();
    let s = "</div></div>\n        <div class=\"stat\"><div class=\"stat-label\">代码行数</div><div class=\"stat-value\">"@;
    let m = card_tag();
    lemma_absent_except(s, m, -1);
    lemma_occ_none(s, m);
    let m = function_tag();
    lemma_absent_except(s, m, -1);
    lemma_occ_none(s, m);
    let m = finding_tag();
    assert forall|k: int| true implies !matches_at(s, m, k) by {
        if 0 <= k && k + m.len() <= s.len() {
            assert(s[k + 0] != m[0] || s[k + 1] != m[1] || s[k + 2] != m[2] || s[k + 3] != m[3] || s[k + 4] != m[4] || s[k + 5] != m[5] || s[k + 6] != m[6] || s[k + 7] != m[7] || s[k + 8] != m[8] || s[k + 9] != m[9] || s[k + 10] != m[10] || s[k + 11] != m[11] || s[k + 12] != m[12]);
            if s.subrange(k, k + m.len()) == m {
                assert(s.subrange(k, k + m.len())[0] == s[k + 0]);
                assert(s.subrange(k, k + m.len())[1] == s[k + 1]);
                assert(s.subrange(k, k + m.len())[2] == s[k + 2]);
                assert(s.subrange(k, k + m.len())[3] == s[k + 3]);
                assert(s.subrange(k, k + m.len())[4] == s[k + 4]);
                assert(s.subrange(k, k + m.len())[5] == s[k + 5]);
                assert(s.subrange(k, k + m.len())[6] == s[k + 6]);
                assert(s.subrange(k, k + m.len())[7] == s[k + 7]);
                assert(s.subrange(k, k + m.len())[8] == s[k + 8]);
                assert(s.subrange(k, k + m.len())[9] == s[k + 9]);
                assert(s.subrange(k, k + m.len())[10] == s[k + 10]);
                assert(s.subrange(k, k + m.len())[11] == s[k + 11]);
                assert(s.subrange(k, k + m.len())[12] == s[k + 12]);
            }
        }
    }
    lemma_occ_none(s, m);
    let m = card_tag();
    lemma_no_split_by_two(s, m);
    lemma_no_end_split_by_three(s, m);
    let m = function_tag();
    lemma_no_split_by_two(s, m);
    lemma_no_end_split_by_three(s, m);
    let m = finding_tag();
    lemma_no_split_by_two(s, m);
    lemma_no_end_split_by_three(s, m);
}

proof fn lemma_lit_26()
    ensures
        tag_counts("</div></div>\n        <div class=\"stat\"><div class=\"stat-label\">注释行数</div><div class=\"stat-value\">"@) == (0nat, 0nat, 0nat),
        splits_none("</div></div>\n        <div class=\"stat\"><div class=\"stat-label\">注释行数</div><div class=\"stat-value\">"@),
        ends_none("</div></div>\n        <div class=\"stat\"><div class=\"stat-label\">注释行数</div><div class=\"stat-value\">"@),
        "</div></div>\n        <div class=\"stat\"><div class=\"stat-label\">注释行数</div><div class=\"stat-value\">"@.len() == 97,
{
    reveal_strlit("</div></div>\n        <div class=\"stat\"><div class=\"stat-label\">注释行数</div><div class=\"stat-value\">");
    lemma_reveal_tags();
    let s = "</div></div>\n        <div class=\"stat\"><div class=\"stat-label\">注释行数</div><div class=\"stat-value\">"@;
    let m = card_tag();
    lemma_absent_except(s, m, -1);
    lemma_occ_none(s, m);
    let m = function_tag();
    lemma_absent_except(s, m, -1);
    lemma_occ_none(s, m);
    let m = finding_tag();
    assert forall|k: int| true implies !matches_at(s, m, k) by {
        if 0 <= k && k + m.len() <= s.len() {
            assert(s[k + 0] != m[0] || s[k + 1] != m[1] || s[k + 2] != m[2] || s[k + 3] != m[3] || s[k + 4] != m[4] || s[k + 5] != m[5] || s[k + 6] != m[6] || s[k + 7] != m[7] || s[k + 8] != m[8] || s[k + 9] != m[9] || s[k + 10] != m[10] || s[k + 11] != m[11] || s[k + 12] != m[12]);
            if s.subrange(k, k + m.len()) == m {
                assert(s.subrange(k, k + m.len())[0] == s[k + 0]);
                assert(s.subrange(k, k + m.len())[1] == s[k + 1]);
                assert(s.subrange(k, k + m.len())[2] == s[k + 2]);
                assert(s.subrange(k, k + m.len())[3] == s[k + 3]);
                assert(s.subrange(k, k + m.len())[4] == s[k + 4]);
                assert(s.subrange(k, k + m.len())[5] == s[k + 5]);
                assert(s.subrange(k, k + m.len())[6] == s[k + 6]);
                assert(s.subrange(k, k + m.len())[7] == s[k + 7]);
                assert(s.subrange(k, k + m.len())[8] == s[k + 8]);
                assert(s.subrange(k, k + m.len())[9] == s[k + 9]);
                assert(s.subrange(k, k + m.len())[10] == s[k + 10]);
                assert(s.subrange(k, k + m.len())[11] == s[k + 11]);
                assert(s.subrange(k, k + m.len())[12] == s[k + 12]);
            }
        }
    }
    lemma_occ_none(s, m);
    let m = card_tag();
    lemma_no_split_by_two(s, m);
    lemma_no_end_split_by_three(s, m);
    let m = function_tag();
    lemma_no_split_by_two(s, m);
    lemma_no_end_split_by_three(s, m);
    let m = finding_tag();
    lemma_no_split_by_two(s, m);
    lemma_no_end_split_by_three(s, m);
}

proof fn lemma_lit_27()
    ensures
        tag_counts("</div></div>\n        <div class=\"stat\"><div class=\"stat-label\">空白行数</div><div class=\"stat-value\">"@) == (0nat, 0nat, 0nat),
        splits_none("</div></div>\n        <div class=\"stat\"><div class=\"stat-label\">空白行数</div><div class=\"stat-value\">"@),
        ends_none("</div></div>\n        <div class=\"stat\"><div class=\"stat-label\">空白行数</div><div class=\"stat-value\">"@),
        "</div></div>\n        <div class=\"stat\"><div class=\"stat-label\">空白行数</div><div class=\"stat-value\">"@.len() == 97,
{
    reveal_strlit("</div></div>\n        <div class=\"stat\"><div class=\"stat-label\">空白行数</div><div class=\"stat-value\">");
    lemma_reveal_tags();
    let s = "</div></div>\n        <div class=\"stat\"><div class=\"stat-label\">空白行数</div><div class=\"stat-value\">"@;
    let m = card_tag();
    lemma_absent_except(s, m, -1);
    lemma_occ_none(s, m);
    let m = function_tag();
    lemma_absent_except(s, m, -1);
    lemma_occ_none(s, m);
    let m = finding_tag();
    assert forall|k: int| true implies !matches_at(s, m, k) by {
        if 0 <= k && k + m.len() <= s.len() {
            assert(s[k + 0] != m[0] || s[k + 1] != m[1] || s[k + 2] != m[2] || s[k + 3] != m[3] || s[k + 4] != m[4] || s[k + 5] != m[5] || s[k + 6] != m[6] || s[k + 7] != m[7] || s[k + 8] != m[8] || s[k + 9] != m[9] || s[k + 10] != m[10] || s[k + 11] != m[11] || s[k + 12] != m[12]);
            if s.subrange(k, k + m.len()) == m {
                assert(s.subrange(k, k + m.len())[0] == s[k + 0]);
                assert(s.subrange(k, k + m.len())[1] == s[k + 1]);
                assert(s.subrange(k, k + m.len())[2] == s[k + 2]);
                assert(s.subrange(k, k + m.len())[3] == s[k + 3]);
                assert(s.subrange(k, k + m.len())[4] == s[k + 4]);
                assert(s.subrange(k, k + m.len())[5] == s[k + 5]);
                assert(s.subrange(k, k + m.len())[6] == s[k + 6]);
                assert(s.subrange(k, k + m.len())[7] == s[k + 7]);
                assert(s.subrange(k, k + m.len())[8] == s[k + 8]);
                assert(s.subrange(k, k + m.len())[9] == s[k + 9]);
                assert(s.subrange(k, k + m.len())[10] == s[k + 10]);
                assert(s.subrange(k, k + m.len())[11] == s[k + 11]);
                assert(s.subrange(k, k + m.len())[12] == s[k + 12]);
            }
        }
    }
    lemma_occ_none(s, m);
    let m = card_tag();
    lemma_no_split_by_two(s, m);
    lemma_no_end_split_by_three(s, m);
    let m = function_tag();
    lemma_no_split_by_two(s, m);
    lemma_no_end_split_by_three(s, m);
    let m = finding_tag();
    lemma_no_split_by_two(s, m);
    lemma_no_end_split_by_three(s, m);
}

proof fn lemma_lit_28()
    ensures
        tag_counts("</div></div>\n      </div>\n      <div class=\"meta\">\n        <div><strong>项目路径：</strong>"@) == (0nat, 0nat, 0nat),
        splits_none("</div></div>\n      </div>\n      <div class=\"meta\">\n        <div><strong>项目路径：</strong>"@),
        ends_none("</div></div>\n      </div>\n      <div class=\"meta\">\n        <div><strong>项目路径：</strong>"@),
        "</div></div>\n      </div>\n      <div class=\"meta\">\n        <div><strong>项目路径：</strong>"@.len() == 86,
{
    reveal_strlit("</div></div>\n      </div>\n      <div class=\"meta\">\n        <div><strong>项目路径：</strong>");
    lemma_reveal_tags();
    let s = "</div></div>\n      </div>\n      <div class=\"meta\">\n        <div><strong>项目路径：</strong>"@;
    let m = card_tag();
    lemma_absent_except(s, m, -1);
    lemma_occ_none(s, m);
    let m = function_tag();
    lemma_absent_except(s, m, -1);
    lemma_occ_none(s, m);
    let m = finding_tag();
    assert forall|k: int| true implies !matches_at(s, m, k) by {
        if 0 <= k && k + m.len() <= s.len() {
            assert(s[k + 0] != m[0] || s[k + 1] != m[1] || s[k + 2] != m[2] || s[k + 3] != m[3] || s[k + 4] != m[4] || s[k + 5] != m[5] || s[k + 6] != m[6] || s[k + 7] != m[7] || s[k + 8] != m[8] || s[k + 9] != m[9] || s[k + 10] != m[10] || s[k + 11] != m[11] || s[k + 12] != m[12]);
            if s.subrange(k, k + m.len()) == m {
                assert(s.subrange(k, k + m.len())[0] == s[k + 0]);
                assert(s.subrange(k, k + m.len())[1] == s[k + 1]);
                assert(s.subrange(k, k + m.len())[2] == s[k + 2]);
                assert(s.subrange(k, k + m.len())[3] == s[k + 3]);
                assert(s.subrange(k, k + m.len())[4] == s[k + 4]);
                assert(s.subrange(k, k + m.len())[5] == s[k + 5]);
                assert(s.subrange(k, k + m.len())[6] == s[k + 6]);
                assert(s.subrange(k, k + m.len())[7] == s[k + 7]);
                assert(s.subrange(k, k + m.len())[8] == s[k + 8]);
                assert(s.subrange(k, k + m.len())[9] == s[k + 9]);
                assert(s.subrange(k, k + m.len())[10] == s[k + 10]);
                assert(s.subrange(k, k + m.len())[11] == s[k + 11]);
                assert(s.subrange(k, k + m.len())[12] == s[k + 12]);
            }
        }
    }
    lemma_occ_none(s, m);
    let m = card_tag();
    lemma_no_split_by_two(s, m);
    lemma_no_end_split_by_three(s, m);
    let m = function_tag();
    lemma_no_split_by_two(s, m);
    lemma_no_end_split_by_three(s, m);
    let m = finding_tag();
    lemma_no_split_by_two(s, m);
    lemma_no_end_split_by_three(s, m);
}

proof fn lemma_lit_29()
    ensures
        tag_counts("</div>\n        <div><strong>生成时间：</strong>"@) == (0nat, 0nat, 0nat),
        splits_none("</div>\n        <div><strong>生成时间：</strong>"@),
        ends_none("</div>\n        <div><strong>生成时间：</strong>"@),
        "</div>\n        <div><strong>生成时间：</strong>"@.len() == 42,
{
    reveal_strlit("</div>\n        <div><strong>生成时间：</strong>");
    lemma_reveal_tags();
    let s = "</div>\n        <div><strong>生成时间：</strong>"@;
    let m = card_tag();
    lemma_absent_except(s, m, -1);
    lemma_occ_none(s, m);
    let m = function_tag();
    lemma_absent_except(s, m, -1);
    lemma_occ_none(s, m);
    let m = finding_tag();
    assert forall|k: int| true implies !matches_at(s, m, k) by {
        if 0 <= k && k + m.len() <= s.len() {
            assert(s[k + 0] != m[0] || s[k + 1] != m[1] || s[k + 2] != m[2] || s[k + 3] != m[3] || s[k + 4] != m[4]);
            if s.subrange(k, k + m.len()) == m {
                assert(s.subrange(k, k + m.len())[0] == s[k + 0]);
                assert(s.subrange(k, k + m.len())[1] == s[k + 1]);
                assert(s.subrange(k, k + m.len())[2] == s[k + 2]);
                assert(s.subrange(k, k + m.len())[3] == s[k + 3]);
                assert(s.subrange(k, k + m.len())[4] == s[k + 4]);
            }
        }
    }
    lemma_occ_none(s, m);
    let m = card_tag();
    lemma_no_split_by_two(s, m);
    lemma_no_end_split_by_three(s, m);
    let m = function_tag();
    lemma_no_split_by_two(s, m);
    lemma_no_end_split_by_three(s, m);
    let m = finding_tag();
    lemma_no_split_by_two(s, m);
    lemma_no_end_split_by_three(s, m);
}

proof fn lemma_lit_30()
    ensures
        tag_counts("</div>\n      </div>\n    </section>\n    <section class=\"files\">\n"@) == (0nat, 0nat, 0nat),
        splits_none("</div>\n      </div>\n    </section>\n    <section class=\"files\">\n"@),
        ends_none("</div>\n      </div>\n    </section>\n    <section class=\"files\">\n"@),
        "</div>\n      </div>\n    </section>\n    <section class=\"files\">\n"@.len() == 63,
{
    reveal_strlit("</div>\n      </div>\n    </section>\n    <section class=\"files\">\n");
    lemma_reveal_tags();
    let s = "</div>\n      </div>\n    </section>\n    <section class=\"files\">\n"@;
    let m = card_tag();
    lemma_absent_except(s, m, -1);
    lemma_occ_none(s, m);
    let m = function_tag();
    lemma_absent_except(s, m, -1);
    lemma_occ_none(s, m);
    let m = finding_tag();
    lemma_absent_except(s, m, -1);
    lemma_occ_none(s, m);
    let m = card_tag();
    lemma_no_split_by_two(s, m);
    lemma_no_end_split_by_three(s, m);
    let m = function_tag();
    lemma_no_split_by_two(s, m);
    lemma_no_end_split_by_three(s, m);
    let m = finding_tag();
    lemma_no_split_by_two(s, m);
    lemma_no_end_split_by_three(s, m);
}

proof fn lemma_lit_31()
    ensures
        tag_counts("              <div class=\"issue-snippet\">"@) == (0nat, 0nat, 0nat),
        splits_none("              <div class=\"issue-snippet\">"@),
        ends_none("              <div class=\"issue-snippet\">"@),
        "              <div class=\"issue-snippet\">"@.len() == 41,
{
    reveal_strlit("              <div class=\"issue-snippet\">");
    lemma_reveal_tags();
    let s = "              <div class=\"issue-snippet\">"@;
    let m = card_tag();
    lemma_absent_except(s, m, -1);
    lemma_occ_none(s, m);
    let m = function_tag();
    lemma_absent_except(s, m, -1);
    lemma_occ_none(s, m);
    let m = finding_tag();
    assert forall|k: int| true implies !matches_at(s, m, k) by {
        if 0 <= k && k + m.len() <= s.len() {
            assert(s[k + 0] != m[0] || s[k + 1] != m[1] || s[k + 2] != m[2] || s[k + 3] != m[3] || s[k + 4] != m[4] || s[k + 5] != m[5] || s[k + 6] != m[6] || s[k + 7] != m[7] || s[k + 8] != m[8] || s[k + 9] != m[9] || s[k + 10] != m[10] || s[k + 11] != m[11] || s[k + 12] != m[12] || s[k + 13] != m[13] || s[k + 14] != m[14] || s[k + 15] != m[15] || s[k + 16] != m[16] || s[k + 17] != m[17] || s[k + 18] != m[18]);
            if s.subrange(k, k + m.len()) == m {
                assert(s.subrange(k, k + m.len())[0] == s[k + 0]);
                assert(s.subrange(k, k + m.len())[1] == s[k + 1]);
                assert(s.subrange(k, k + m.len())[2] == s[k + 2]);
                assert(s.subrange(k, k + m.len())[3] == s[k + 3]);
                assert(s.subrange(k, k + m.len())[4] == s[k + 4]);
                assert(s.subrange(k, k + m.len())[5] == s[k + 5]);
                assert(s.subrange(k, k + m.len())[6] == s[k + 6]);
                assert(s.subrange(k, k + m.len())[7] == s[k + 7]);
                assert(s.subrange(k, k + m.len())[8] == s[k + 8]);
                assert(s.subrange(k, k + m.len())[9] == s[k + 9]);
                assert(s.subrange(k, k + m.len())[10] == s[k + 10]);
                assert(s.subrange(k, k + m.len())[11] == s[k + 11]);
                assert(s.subrange(k, k + m.len())[12] == s[k + 12]);
                assert(s.subrange(k, k + m.len())[13] == s[k + 13]);
                assert(s.subrange(k, k + m.len())[14] == s[k + 14]);
                assert(s.subrange(k, k + m.len())[15] == s[k + 15]);
                assert(s.subrange(k, k + m.len())[16] == s[k + 16]);
                assert(s.subrange(k, k + m.len())[17] == s[k + 17]);
                assert(s.subrange(k, k + m.len())[18] == s[k + 18]);
            }
        }
    }
    lemma_occ_none(s, m);
    let m = card_tag();
    lemma_no_split_by_two(s, m);
    lemma_no_end_split_by_three(s, m);
    let m = function_tag();
    lemma_no_split_by_two(s, m);
    lemma_no_end_split_by_three(s, m);
    let m = finding_tag();
    lemma_no_split_by_two(s, m);
    lemma_no_end_split_by_three(s, m);
}

proof fn lemma_lit_32()
    ensures
        tag_counts("</div>\n"@) == (0nat, 0nat, 0nat),
        splits_none("</div>\n"@),
        ends_none("</div>\n"@),
        "</div>\n"@.len() == 7,
{
    reveal_strlit("</div>\n");
    lemma_reveal_tags();
    let s = "</div>\n"@;
    let m = card_tag();
    lemma_absent_except(s, m, -1);
    lemma_occ_none(s, m);
    let m = function_tag();
    lemma_absent_except(s, m, -1);
    lemma_occ_none(s, m);
    let m = finding_tag();
    lemma_absent_except(s, m, -1);
    lemma_occ_none(s, m);
    let m = card_tag();
    lemma_no_split_by_two(s, m);
    lemma_no_end_split_by_three(s, m);
    let m = function_tag();
    lemma_no_split_by_two(s, m);
    lemma_no_end_split_by_three(s, m);
    let m = finding_tag();
    lemma_no_split_by_two(s, m);
    lemma_no_end_split_by_three(s, m);
}

proof fn lemma_lit_33()
    ensures
        tag_counts("          <div class=\"empty\">未识别到函数。</div>\n"@) == (0nat, 0nat, 0nat),
        splits_none("          <div class=\"empty\">未识别到函数。</div>\n"@),
        ends_none("          <div class=\"empty\">未识别到函数。</div>\n"@),
        "          <div class=\"empty\">未识别到函数。</div>\n"@.len() == 43,
{
    reveal_strlit("          <div class=\"empty\">未识别到函数。</div>\n");
    lemma_reveal_tags();
    let s = "          <div class=\"empty\">未识别到函数。</div>\n"@;
    let m = card_tag();
    lemma_absent_except(s, m, -1);
    lemma_occ_none(s, m);
    let m = function_tag();
    lemma_absent_except(s, m, -1);
    lemma_occ_none(s, m);
    let m = finding_tag();
    assert forall|k: int| true implies !matches_at(s, m, k) by {
        if 0 <= k && k + m.len() <= s.len() {
            assert(s[k + 0] != m[0] || s[k + 1] != m[1] || s[k + 2] != m[2] || s[k + 3] != m[3] || s[k + 4] != m[4] || s[k + 5] != m[5] || s[k + 6] != m[6] || s[k + 7] != m[7] || s[k + 8] != m[8] || s[k + 9] != m[9] || s[k + 10] != m[10] || s[k + 11] != m[11] || s[k + 12] != m[12]);
            if s.subrange(k, k + m.len()) == m {
                assert(s.subrange(k, k + m.len())[0] == s[k + 0]);
                assert(s.subrange(k, k + m.len())[1] == s[k + 1]);
                assert(s.subrange(k, k + m.len())[2] == s[k + 2]);
                assert(s.subrange(k, k + m.len())[3] == s[k + 3]);
                assert(s.subrange(k, k + m.len())[4] == s[k + 4]);
                assert(s.subrange(k, k + m.len())[5] == s[k + 5]);
                assert(s.subrange(k, k + m.len())[6] == s[k + 6]);
                assert(s.subrange(k, k + m.len())[7] == s[k + 7]);
                assert(s.subrange(k, k + m.len())[8] == s[k + 8]);
                assert(s.subrange(k, k + m.len())[9] == s[k + 9]);
                assert(s.subrange(k, k + m.len())[10] == s[k + 10]);
                assert(s.subrange(k, k + m.len())[11] == s[k + 11]);
                assert(s.subrange(k, k + m.len())[12] == s[k + 12]);
            }
        }
    }
    lemma_occ_none(s, m);
    let m = card_tag();
    lemma_no_split_by_two(s, m);
    lemma_no_end_split_by_three(s, m);
    let m = function_tag();
    lemma_no_split_by_two(s, m);
    lemma_no_end_split_by_three(s, m);
    let m = finding_tag();
    lemma_no_split_by_two(s, m);
    lemma_no_end_split_by_three(s, m);
}

proof fn lemma_lit_34()
    ensures
        tag_counts("          <ul class=\"clean\">\n"@) == (0nat, 0nat, 0nat),
        splits_none("          <ul class=\"clean\">\n"@),
        ends_none("          <ul class=\"clean\">\n"@),
        "          <ul class=\"clean\">\n"@.len() == 29,
{
    reveal_strlit("          <ul class=\"clean\">\n");
    lemma_reveal_tags();
    let s = "          <ul class=\"clean\">\n"@;
    let m = card_tag();
    lemma_absent_except(s, m, -1);
    lemma_occ_none(s, m);
    let m = function_tag();
    lemma_absent_except(s, m, -1);
    lemma_occ_none(s, m);
    let m = finding_tag();
    lemma_absent_except(s, m, -1);
    lemma_occ_none(s, m);
    let m = card_tag();
    lemma_no_split_by_two(s, m);
    lemma_no_end_split_by_three(s, m);
    let m = function_tag();
    lemma_no_split_by_two(s, m);
    lemma_no_end_split_by_three(s, m);
    let m = finding_tag();
    lemma_no_split_by_two(s, m);
    lemma_no_end_split_by_three(s, m);
}

proof fn lemma_lit_35()
    ensures
        tag_counts("          </ul>\n"@) == (0nat, 0nat, 0nat),
        splits_none("          </ul>\n"@),
        ends_none("          </ul>\n"@),
        "          </ul>\n"@.len() == 16,
{
    reveal_strlit("          </ul>\n");
    lemma_reveal_tags();
    let s = "          </ul>\n"@;
    let m = card_tag();
    lemma_absent_except(s, m, -1);
    lemma_occ_none(s, m);
    let m = function_tag();
    lemma_absent_except(s, m, -1);
    lemma_occ_none(s, m);
    let m = finding_tag();
    lemma_absent_except(s, m, -1);
    lemma_occ_none(s, m);
    let m = card_tag();
    lemma_no_split_by_two(s, m);
    lemma_no_end_split_by_three(s, m);
    let m = function_tag();
    lemma_no_split_by_two(s, m);
    lemma_no_end_split_by_three(s, m);
    let m = finding_tag();
    lemma_no_split_by_two(s, m);
    lemma_no_end_split_by_three(s, m);
}

proof fn lemma_lit_36()
    ensures
        tag_counts("          <div class=\"empty\">未发现警告或严重问题。</div>\n"@) == (0nat, 0nat, 0nat),
        splits_none("          <div class=\"empty\">未发现警告或严重问题。</div>\n"@),
        ends_none("          <div class=\"empty\">未发现警告或严重问题。</div>\n"@),
        "          <div class=\"empty\">未发现警告或严重问题。</div>\n"@.len() == 47,
{
    reveal_strlit("          <div class=\"empty\">未发现警告或严重问题。</div>\n");
    lemma_reveal_tags();
    let s = "          <div class=\"empty\">未发现警告或严重问题。</div>\n"@;
    let m = card_tag();
    lemma_absent_except(s, m, -1);
    lemma_occ_none(s, m);
    let m = function_tag();
    lemma_absent_except(s, m, -1);
    lemma_occ_none(s, m);
    let m = finding_tag();
    assert forall|k: int| true implies !matches_at(s, m, k) by {
        if 0 <= k && k + m.len() <= s.len() {
            assert(s[k + 0] != m[0] || s[k + 1] != m[1] || s[k + 2] != m[2] || s[k + 3] != m[3] || s[k + 4] != m[4] || s[k + 5] != m[5] || s[k + 6] != m[6] || s[k + 7] != m[7] || s[k + 8] != m[8] || s[k + 9] != m[9] || s[k + 10] != m[10] || s[k + 11] != m[11] || s[k + 12] != m[12]);
            if s.subrange(k, k + m.len()) == m {
                assert(s.subrange(k, k + m.len())[0] == s[k + 0]);
                assert(s.subrange(k, k + m.len())[1] == s[k + 1]);
                assert(s.subrange(k, k + m.len())[2] == s[k + 2]);
                assert(s.subrange(k, k + m.len())[3] == s[k + 3]);
                assert(s.subrange(k, k + m.len())[4] == s[k + 4]);
                assert(s.subrange(k, k + m.len())[5] == s[k + 5]);
                assert(s.subrange(k, k + m.len())[6] == s[k + 6]);
                assert(s.subrange(k, k + m.len())[7] == s[k + 7]);
                assert(s.subrange(k, k + m.len())[8] == s[k + 8]);
                assert(s.subrange(k, k + m.len())[9] == s[k + 9]);
                assert(s.subrange(k, k + m.len())[10] == s[k + 10]);
                assert(s.subrange(k, k + m.len())[11] == s[k + 11]);
                assert(s.subrange(k, k + m.len())[12] == s[k + 12]);
            }
        }
    }
    lemma_occ_none(s, m);
    let m = card_tag();
    lemma_no_split_by_two(s, m);
    lemma_no_end_split_by_three(s, m);
    let m = function_tag();
    lemma_no_split_by_two(s, m);
    lemma_no_end_split_by_three(s, m);
    let m = finding_tag();
    lemma_no_split_by_two(s, m);
    lemma_no_end_split_by_three(s, m);
}

proof fn lemma_lit_37()
    ensures
        tag_counts("    </section>\n  </div>\n</body>\n</html>\n"@) == (0nat, 0nat, 0nat),
        splits_none("    </section>\n  </div>\n</body>\n</html>\n"@),
        ends_none("    </section>\n  </div>\n</body>\n</html>\n"@),
        "    </section>\n  </div>\n</body>\n</html>\n"@.len() == 40,
{
    reveal_strlit("    </section>\n  </div>\n</body>\n</html>\n");
    lemma_reveal_tags();
    let s = "    </section>\n  </div>\n</body>\n</html>\n"@;
    let m = card_tag();
    lemma_absent_except(s, m, -1);
    lemma_occ_none(s, m);
    let m = function_tag();
    lemma_absent_except(s, m, -1);
    lemma_occ_none(s, m);
    let m = finding_tag();
    lemma_absent_except(s, m, -1);
    lemma_occ_none(s, m);
    let m = card_tag();
    lemma_no_split_by_two(s, m);
    lemma_no_end_split_by_three(s, m);
    let m = function_tag();
    lemma_no_split_by_two(s, m);
    lemma_no_end_split_by_three(s, m);
    let m = finding_tag();
    lemma_no_split_by_two(s, m);
    lemma_no_end_split_by_three(s, m);
}

pub proof fn lemma_html_function_tags(f: FunctionInfoView)
    ensures
        tag_counts(html_function(f)) == (0nat, 1nat, 0nat),
        splits_none(html_function(f)),
        html_function(f).len() >= 30,
{
    lemma_lit_0();
    lemma_escape_tag_free(f.name);
    lemma_tag_free(escape_text(f.name));
    lemma_lit_1();
    lemma_decimal_tag_free(f.start_line);
    lemma_tag_free(decimal(f.start_line));
    lemma_lit_2();
    lemma_decimal_tag_free(f.end_line);
    lemma_tag_free(decimal(f.end_line));
    lemma_lit_3();
    lemma_decimal_tag_free(f.parameter_count);
    lemma_tag_free(decimal(f.parameter_count));
    lemma_lit_4();
    lemma_decimal_tag_free(f.line_count);
    lemma_tag_free(decimal(f.line_count));
    lemma_lit_5();
    let a0 = "            <li class=\"list-card\"><strong>"@;
    let a1 = a0 + escape_text(f.name);
    lemma_join(a0, escape_text(f.name));
    lemma_splits_none_extends(a0, escape_text(f.name));
    let a2 = a1 + "</strong><br>第 "@;
    lemma_join(a1, "</strong><br>第 "@);
    lemma_splits_none_extends(a1, "</strong><br>第 "@);
    let a3 = a2 + decimal(f.start_line);
    lemma_join(a2, decimal(f.start_line));
    lemma_splits_none_extends(a2, decimal(f.start_line));
    let a4 = a3 + "-"@;
    lemma_join(a3, "-"@);
    lemma_splits_none_extends(a3, "-"@);
    let a5 = a4 + decimal(f.end_line);
    lemma_join(a4, decimal(f.end_line));
    lemma_splits_none_extends(a4, decimal(f.end_line));
    let a6 = a5 + " 行，参数 "@;
    lemma_join(a5, " 行，参数 "@);
    lemma_splits_none_extends(a5, " 行，参数 "@);
    let a7 = a6 + decimal(f.parameter_count);
    lemma_join(a6, decimal(f.parameter_count));
    lemma_splits_none_extends(a6, decimal(f.parameter_count));
    let a8 = a7 + " 个，长度 "@;
    lemma_join(a7, " 个，长度 "@);
    lemma_splits_none_extends(a7, " 个，长度 "@);
    let a9 = a8 + decimal(f.line_count);
    lemma_join(a8, decimal(f.line_count));
    lemma_splits_none_extends(a8, decimal(f.line_count));
    let a10 = a9 + " 行</li>\n"@;
    lemma_join(a9, " 行</li>\n"@);
    lemma_splits_none_extends(a9, " 行</li>\n"@);
    assert(a10 == html_function(f));
}

pub proof fn lemma_html_issue_tags(i: IssueView)
    ensures
        tag_counts(html_issue(i)) == (0nat, 0nat, 1nat),
        splits_none(html_issue(i)),
        html_issue(i).len() >= 30,
{
    lemma_lit_6();
    lemma_escape_tag_free(i.rule_name);
    lemma_tag_free(escape_text(i.rule_name));
    lemma_lit_7();
    lemma_severity_texts(severity_name(i.severity));
    lemma_tag_free(severity_class_text(severity_name(i.severity)));
    lemma_lit_8();
    lemma_severity_texts(severity_name(i.severity));
    lemma_tag_free(severity_label_text(severity_name(i.severity)));
    lemma_lit_9();
    lemma_decimal_tag_free(i.position.line as nat);
    lemma_tag_free(decimal(i.position.line as nat));
    lemma_lit_10();
    lemma_escape_tag_free(i.message);
    lemma_tag_free(escape_text(i.message));
    lemma_lit_11();
    lemma_html_snippet_tags(i.snippet);
    lemma_lit_12();
    let a0 = "            <li class=\"list-card\">\n              <div class=\"issue-top\">\n                <span class=\"issue-rule\">"@;
    let a1 = a0 + escape_text(i.rule_name);
    lemma_join(a0, escape_text(i.rule_name));
    lemma_splits_none_extends(a0, escape_text(i.rule_name));
    let a2 = a1 + "</span>\n                <span class=\"severity "@;
    lemma_join(a1, "</span>\n                <span class=\"severity "@);
    lemma_splits_none_extends(a1, "</span>\n                <span class=\"severity "@);
    let a3 = a2 + severity_class_text(severity_name(i.severity));
    lemma_join(a2, severity_class_text(severity_name(i.severity)));
    lemma_splits_none_extends(a2, severity_class_text(severity_name(i.severity)));
    let a4 = a3 + "\">"@;
    lemma_ends_none_prefixed(a1, "</span>\n                <span class=\"severity "@);
    lemma_ends_none_tag_free(a2, severity_class_text(severity_name(i.severity)));
    lemma_join_x(a3, "\">"@);
    lemma_splits_none_extends(a3, "\">"@);
    let a5 = a4 + severity_label_text(severity_name(i.severity));
    lemma_join(a4, severity_label_text(severity_name(i.severity)));
    lemma_splits_none_extends(a4, severity_label_text(severity_name(i.severity)));
    let a6 = a5 + "</span>\n              </div>\n              <p class=\"issue-message\">第 "@;
    lemma_join(a5, "</span>\n              </div>\n              <p class=\"issue-message\">第 "@);
    lemma_splits_none_extends(a5, "</span>\n              </div>\n              <p class=\"issue-message\">第 "@);
    let a7 = a6 + decimal(i.position.line as nat);
    lemma_join(a6, decimal(i.position.line as nat));
    lemma_splits_none_extends(a6, decimal(i.position.line as nat));
    let a8 = a7 + " 行: "@;
    lemma_join(a7, " 行: "@);
    lemma_splits_none_extends(a7, " 行: "@);
    let a9 = a8 + escape_text(i.message);
    lemma_join(a8, escape_text(i.message));
    lemma_splits_none_extends(a8, escape_text(i.message));
    let a10 = a9 + "</p>\n"@;
    lemma_join(a9, "</p>\n"@);
    lemma_splits_none_extends(a9, "</p>\n"@);
    let a11 = a10 + html_snippet(i.snippet);
    lemma_join(a10, html_snippet(i.snippet));
    lemma_splits_none_extends(a10, html_snippet(i.snippet));
    let a12 = a11 + "            </li>\n"@;
    lemma_join(a11, "            </li>\n"@);
    lemma_splits_none_extends(a11, "            </li>\n"@);
    assert(a12 == html_issue(i));
}

pub proof fn lemma_metric_box_text_tags(label: Seq<char>, value: nat)
    requires
        tag_free(label),
    ensures
        tag_counts(metric_box_text(label, value)) == (0nat, 0nat, 0nat),
        splits_none(metric_box_text(label, value)),
        metric_box_text(label, value).len() >= 30,
{
    lemma_lit_13();
    lemma_tag_free(label);
    lemma_lit_14();
    lemma_decimal_tag_free(value);
    lemma_tag_free(decimal(value));
    lemma_lit_15();
    let a0 = "          <div class=\"metric-box\"><strong>"@;
    let a1 = a0 + label;
    lemma_join(a0, label);
    lemma_splits_none_extends(a0, label);
    let a2 = a1 + "</strong><span>"@;
    lemma_join(a1, "</strong><span>"@);
    lemma_splits_none_extends(a1, "</strong><span>"@);
    let a3 = a2 + decimal(value);
    lemma_join(a2, decimal(value));
    lemma_splits_none_extends(a2, decimal(value));
    let a4 = a3 + "</span></div>\n"@;
    lemma_join(a3, "</span></div>\n"@);
    lemma_splits_none_extends(a3, "</span></div>\n"@);
    assert(a4 == metric_box_text(label, value));
}

pub proof fn lemma_html_file_tags(f: FileReportView)
    ensures
        tag_counts(html_file(f)) == (1nat, f.metrics.functions.len(), visible_only(f.issues).len()),
        splits_none(html_file(f)),
        html_file(f).len() >= 30,
{
    lemma_lit_16();
    lemma_escape_tag_free(f.path);
    lemma_tag_free(escape_text(f.path));
    lemma_lit_17();
    lemma_decimal_tag_free(visible_only(f.issues).len());
    lemma_tag_free(decimal(visible_only(f.issues).len()));
    lemma_lit_18();
    reveal_strlit("总行数");
    assert(tag_free("总行数"@));
    lemma_metric_box_text_tags("总行数"@, f.metrics.total_lines);
    reveal_strlit("代码行");
    assert(tag_free("代码行"@));
    lemma_metric_box_text_tags("代码行"@, f.metrics.code_lines);
    reveal_strlit("注释行");
    assert(tag_free("注释行"@));
    lemma_metric_box_text_tags("注释行"@, f.metrics.comment_lines);
    reveal_strlit("空白行");
    assert(tag_free("空白行"@));
    lemma_metric_box_text_tags("空白行"@, f.metrics.blank_lines);
    reveal_strlit("函数数");
    assert(tag_free("函数数"@));
    lemma_metric_box_text_tags("函数数"@, f.metrics.function_count);
    reveal_strlit("最大嵌套");
    assert(tag_free("最大嵌套"@));
    lemma_metric_box_text_tags("最大嵌套"@, f.metrics.max_nesting_depth);
    lemma_lit_19();
    lemma_html_function_section_tags(f.metrics.functions);
    lemma_lit_20();
    lemma_html_issue_section_tags(visible_only(f.issues));
    lemma_lit_21();
    let a0 = "      <article class=\"file-card\">\n        <div class=\"file-header\">\n          <h2 class=\"file-title\">"@;
    let a1 = a0 + escape_text(f.path);
    lemma_join(a0, escape_text(f.path));
    lemma_splits_none_extends(a0, escape_text(f.path));
    let a2 = a1 + "</h2>\n          <div class=\"badge\">"@;
    lemma_join(a1, "</h2>\n          <div class=\"badge\">"@);
    lemma_splits_none_extends(a1, "</h2>\n          <div class=\"badge\">"@);
    let a3 = a2 + decimal(visible_only(f.issues).len());
    lemma_join(a2, decimal(visible_only(f.issues).len()));
    lemma_splits_none_extends(a2, decimal(visible_only(f.issues).len()));
    let a4 = a3 + " 个问题</div>\n        </div>\n        <div class=\"metric-row\">\n"@;
    lemma_join(a3, " 个问题</div>\n        </div>\n        <div class=\"metric-row\">\n"@);
    lemma_splits_none_extends(a3, " 个问题</div>\n        </div>\n        <div class=\"metric-row\">\n"@);
    let a5 = a4 + metric_box_text("总行数"@, f.metrics.total_lines);
    lemma_join(a4, metric_box_text("总行数"@, f.metrics.total_lines));
    lemma_splits_none_extends(a4, metric_box_text("总行数"@, f.metrics.total_lines));
    let a6 = a5 + metric_box_text("代码行"@, f.metrics.code_lines);
    lemma_join(a5, metric_box_text("代码行"@, f.metrics.code_lines));
    lemma_splits_none_extends(a5, metric_box_text("代码行"@, f.metrics.code_lines));
    let a7 = a6 + metric_box_text("注释行"@, f.metrics.comment_lines);
    lemma_join(a6, metric_box_text("注释行"@, f.metrics.comment_lines));
    lemma_splits_none_extends(a6, metric_box_text("注释行"@, f.metrics.comment_lines));
    let a8 = a7 + metric_box_text("空白行"@, f.metrics.blank_lines);
    lemma_join(a7, metric_box_text("空白行"@, f.metrics.blank_lines));
    lemma_splits_none_extends(a7, metric_box_text("空白行"@, f.metrics.blank_lines));
    let a9 = a8 + metric_box_text("函数数"@, f.metrics.function_count);
    lemma_join(a8, metric_box_text("函数数"@, f.metrics.function_count));
    lemma_splits_none_extends(a8, metric_box_text("函数数"@, f.metrics.function_count));
    let a10 = a9 + metric_box_text("最大嵌套"@, f.metrics.max_nesting_depth);
    lemma_join(a9, metric_box_text("最大嵌套"@, f.metrics.max_nesting_depth));
    lemma_splits_none_extends(a9, metric_box_text("最大嵌套"@, f.metrics.max_nesting_depth));
    let a11 = a10 + "        </div>\n        <div class=\"functions\">\n          <h2 class=\"section-title\">函数信息</h2>\n"@;
    lemma_join(a10, "        </div>\n        <div class=\"functions\">\n          <h2 class=\"section-title\">函数信息</h2>\n"@);
    lemma_splits_none_extends(a10, "        </div>\n        <div class=\"functions\">\n          <h2 class=\"section-title\">函数信息</h2>\n"@);
    let a12 = a11 + html_function_section(f.metrics.functions);
    lemma_join(a11, html_function_section(f.metrics.functions));
    lemma_splits_none_extends(a11, html_function_section(f.metrics.functions));
    let a13 = a12 + "        </div>\n        <div class=\"issues\">\n          <h2 class=\"section-title\">问题详情</h2>\n"@;
    lemma_join(a12, "        </div>\n        <div class=\"issues\">\n          <h2 class=\"section-title\">问题详情</h2>\n"@);
    lemma_splits_none_extends(a12, "        </div>\n        <div class=\"issues\">\n          <h2 class=\"section-title\">问题详情</h2>\n"@);
    let a14 = a13 + html_issue_section(visible_only(f.issues));
    lemma_join(a13, html_issue_section(visible_only(f.issues)));
    lemma_splits_none_extends(a13, html_issue_section(visible_only(f.issues)));
    let a15 = a14 + "        </div>\n      </article>\n"@;
    lemma_join(a14, "        </div>\n      </article>\n"@);
    lemma_splits_none_extends(a14, "        </div>\n      </article>\n"@);
    assert(a15 == html_file(f));
}

pub proof fn lemma_html_head_tags(r: AnalysisReportView, visible_total: nat)
    ensures
        tag_counts(html_head(r, visible_total)) == (0nat, 0nat, 0nat),
{
    lemma_page_start_tags();
    lemma_lit_22();
    lemma_decimal_tag_free(r.summary.file_count as nat);
    lemma_tag_free(decimal(r.summary.file_count as nat));
    lemma_lit_23();
    lemma_decimal_tag_free(visible_total);
    lemma_tag_free(decimal(visible_total));
    lemma_lit_24();
    lemma_decimal_tag_free(r.summary.total_lines as nat);
    lemma_tag_free(decimal(r.summary.total_lines as nat));
    lemma_lit_25();
    lemma_decimal_tag_free(r.summary.total_code_lines as nat);
    lemma_tag_free(decimal(r.summary.total_code_lines as nat));
    lemma_lit_26();
    lemma_decimal_tag_free(r.summary.total_comment_lines as nat);
    lemma_tag_free(decimal(r.summary.total_comment_lines as nat));
    lemma_lit_27();
    lemma_decimal_tag_free(r.summary.total_blank_lines as nat);
    lemma_tag_free(decimal(r.summary.total_blank_lines as nat));
    lemma_lit_28();
    lemma_escape_tag_free(r.root_path);
    lemma_tag_free(escape_text(r.root_path));
    lemma_lit_29();
    lemma_escape_tag_free(r.generated_at);
    lemma_tag_free(escape_text(r.generated_at));
    lemma_lit_30();
    let a0 = HTML_HEAD@ + HTML_STYLE@ + HTML_HERO@;
    let a1 = a0 + "        <div class=\"stat\"><div class=\"stat-label\">文件数量</div><div class=\"stat-value\">"@;
    lemma_join(a0, "        <div class=\"stat\"><div class=\"stat-label\">文件数量</div><div class=\"stat-value\">"@);
    let a2 = a1 + decimal(r.summary.file_count as nat);
    lemma_join(a1, decimal(r.summary.file_count as nat));
    let a3 = a2 + "</div></div>\n        <div class=\"stat\"><div class=\"stat-label\">问题总数</div><div class=\"stat-value\">"@;
    lemma_join(a2, "</div></div>\n        <div class=\"stat\"><div class=\"stat-label\">问题总数</div><div class=\"stat-value\">"@);
    let a4 = a3 + decimal(visible_total);
    lemma_join(a3, decimal(visible_total));
    let a5 = a4 + "</div></div>\n        <div class=\"stat\"><div class=\"stat-label\">总行数</div><div class=\"stat-value\">"@;
    lemma_join(a4, "</div></div>\n        <div class=\"stat\"><div class=\"stat-label\">总行数</div><div class=\"stat-value\">"@);
    let a6 = a5 + decimal(r.summary.total_lines as nat);
    lemma_join(a5, decimal(r.summary.total_lines as nat));
    let a7 = a6 + "</div></div>\n        <div class=\"stat\"><div class=\"stat-label\">代码行数</div><div class=\"stat-value\">"@;
    lemma_join(a6, "</div></div>\n        <div class=\"stat\"><div class=\"stat-label\">代码行数</div><div class=\"stat-value\">"@);
    let a8 = a7 + decimal(r.summary.total_code_lines as nat);
    lemma_join(a7, decimal(r.summary.total_code_lines as nat));
    let a9 = a8 + "</div></div>\n        <div class=\"stat\"><div class=\"stat-label\">注释行数</div><div class=\"stat-value\">"@;
    lemma_join(a8, "</div></div>\n        <div class=\"stat\"><div class=\"stat-label\">注释行数</div><div class=\"stat-value\">"@);
    let a10 = a9 + decimal(r.summary.total_comment_lines as nat);
    lemma_join(a9, decimal(r.summary.total_comment_lines as nat));
    let a11 = a10 + "</div></div>\n        <div class=\"stat\"><div class=\"stat-label\">空白行数</div><div class=\"stat-value\">"@;
    lemma_join(a10, "</div></div>\n        <div class=\"stat\"><div class=\"stat-label\">空白行数</div><div class=\"stat-value\">"@);
    let a12 = a11 + decimal(r.summary.total_blank_lines as nat);
    lemma_join(a11, decimal(r.summary.total_blank_lines as nat));
    let a13 = a12 + "</div></div>\n      </div>\n      <div class=\"meta\">\n        <div><strong>项目路径：</strong>"@;
    lemma_join(a12, "</div></div>\n      </div>\n      <div class=\"meta\">\n        <div><strong>项目路径：</strong>"@);
    let a14 = a13 + escape_text(r.root_path);
    lemma_join(a13, escape_text(r.root_path));
    let a15 = a14 + "</div>\n        <div><strong>生成时间：</strong>"@;
    lemma_join(a14, "</div>\n        <div><strong>生成时间：</strong>"@);
    let a16 = a15 + escape_text(r.generated_at);
    lemma_join(a15, escape_text(r.generated_at));
    let a17 = a16 + "</div>\n      </div>\n    </section>\n    <section class=\"files\">\n"@;
    lemma_join(a16, "</div>\n      </div>\n    </section>\n    <section class=\"files\">\n"@);
    assert(a17 == html_head(r, visible_total));
}

proof fn lemma_severity_texts(s: Seq<char>)
    ensures
        tag_free(severity_label_text(s)),
        tag_free(severity_class_text(s)),
{
    reveal_strlit("严重");
    reveal_strlit("警告");
    reveal_strlit("");
    reveal_strlit("severity-error");
    reveal_strlit("severity-warning");
}

pub proof fn lemma_html_snippet_tags(snippet: Seq<char>)
    ensures
        tag_counts(html_snippet(snippet)) == (0nat, 0nat, 0nat),
        splits_none(html_snippet(snippet)),
{
    let t = trim(snippet);
    if t.len() == 0 {
        lemma_empty_counts();
    } else {
        lemma_lit_31();
        lemma_lit_32();
        lemma_escape_tag_free(t);
        lemma_tag_free(escape_text(t));
        let a0 = "              <div class=\"issue-snippet\">"@;
        let a1 = a0 + escape_text(t);
        lemma_join(a0, escape_text(t));
        lemma_splits_none_extends(a0, escape_text(t));
        let a2 = a1 + "</div>\n"@;
        lemma_join(a1, "</div>\n"@);
        lemma_splits_none_extends(a1, "</div>\n"@);
        assert(a2 == html_snippet(snippet));
    }
}

pub proof fn lemma_html_functions_tags(items: Seq<FunctionInfoView>)
    ensures
        tag_counts(html_functions(items)) == (0nat, items.len(), 0nat),
        splits_none(html_functions(items)),
        items.len() > 0 ==> html_functions(items).len() >= 30,
    decreases items.len(),
{
    if items.len() == 0 {
        lemma_empty_counts();
    } else {
        let rest = html_functions(items.drop_last());
        lemma_html_functions_tags(items.drop_last());
        lemma_html_function_tags(items.last());
        lemma_join(rest, html_function(items.last()));
        if items.drop_last().len() > 0 {
            lemma_splits_none_extends(rest, html_function(items.last()));
        } else {
            assert(rest + html_function(items.last()) =~= html_function(items.last()));
        }
    }
}

pub proof fn lemma_html_issues_tags(items: Seq<IssueView>)
    ensures
        tag_counts(html_issues(items)) == (0nat, 0nat, items.len()),
        splits_none(html_issues(items)),
        items.len() > 0 ==> html_issues(items).len() >= 30,
    decreases items.len(),
{
    if items.len() == 0 {
        lemma_empty_counts();
    } else {
        let rest = html_issues(items.drop_last());
        lemma_html_issues_tags(items.drop_last());
        lemma_html_issue_tags(items.last());
        lemma_join(rest, html_issue(items.last()));
        if items.drop_last().len() > 0 {
            lemma_splits_none_extends(rest, html_issue(items.last()));
        } else {
            assert(rest + html_issue(items.last()) =~= html_issue(items.last()));
        }
    }
}

pub proof fn lemma_html_function_section_tags(fns: Seq<FunctionInfoView>)
    ensures
        tag_counts(html_function_section(fns)) == (0nat, fns.len(), 0nat),
        splits_none(html_function_section(fns)),
{
    lemma_lit_33();
    lemma_lit_34();
    lemma_lit_35();
    if fns.len() > 0 {
        let a0 = "          <ul class=\"clean\">\n"@;
        let l = html_functions(fns);
        lemma_html_functions_tags(fns);
        let a1 = a0 + l;
        lemma_join(a0, l);
        lemma_splits_none_extends(a0, l);
        lemma_join(a1, "          </ul>\n"@);
        lemma_splits_none_extends(a1, "          </ul>\n"@);
    }
}

pub proof fn lemma_html_issue_section_tags(shown: Seq<IssueView>)
    ensures
        tag_counts(html_issue_section(shown)) == (0nat, 0nat, shown.len()),
        splits_none(html_issue_section(shown)),
{
    lemma_lit_36();
    lemma_lit_34();
    lemma_lit_35();
    if shown.len() > 0 {
        let a0 = "          <ul class=\"clean\">\n"@;
        let l = html_issues(shown);
        lemma_html_issues_tags(shown);
        let a1 = a0 + l;
        lemma_join(a0, l);
        lemma_splits_none_extends(a0, l);
        lemma_join(a1, "          </ul>\n"@);
        lemma_splits_none_extends(a1, "          </ul>\n"@);
    }
}

/// Functions detected over all files.
pub open spec fn function_total(files: Seq<FileReportView>) -> nat
    decreases files.len(),
{
    if files.len() == 0 {
        0
    } else {
        function_total(files.drop_last()) + files.last().metrics.functions.len()
    }
}

pub proof fn lemma_html_files_tags(items: Seq<FileReportView>)
    ensures
        tag_counts(html_files(items)) == (items.len(), function_total(items), visible_total(items)),
        splits_none(html_files(items)),
        items.len() > 0 ==> html_files(items).len() >= 30,
    decreases items.len(),
{
    if items.len() == 0 {
        lemma_empty_counts();
    } else {
        let rest = html_files(items.drop_last());
        lemma_html_files_tags(items.drop_last());
        lemma_html_file_tags(items.last());
        lemma_join(rest, html_file(items.last()));
        if items.drop_last().len() > 0 {
            lemma_splits_none_extends(rest, html_file(items.last()));
        } else {
            assert(rest + html_file(items.last()) =~= html_file(items.last()));
        }
    }
}

/// The HTML report holds exactly one file card per file, one function entry
/// per detected function, and one finding entry per shown finding (a warning
/// or an error), each counted as an occurrence of its opening tag.
pub proof fn law_html_entries(r: AnalysisReportView)
    ensures
        tag_counts(html_report(r)) == (r.files.len(), function_total(r.files), visible_total(
            r.files,
        )),
{
    let h = crate::report::html_head(r, visible_total(r.files));
    lemma_html_head_tags(r, visible_total(r.files));
    lemma_html_files_tags(r.files);
    lemma_lit_37();
    reveal_strlit("    </section>\n  </div>\n</body>\n</html>\n");
    assert(HTML_TAIL@ == "    </section>\n  </div>\n</body>\n</html>\n"@);
    lemma_join(h, html_files(r.files));
    lemma_join(h + html_files(r.files), HTML_TAIL@);
}

proof fn lemma_lit_head()
    ensures
        tag_counts("<!DOCTYPE html>
<html lang=\"zh-CN\">
<head>
  <meta charset=\"UTF-8\">
  <meta name=\"viewport\" content=\"width=device-width, initial-scale=1.0\">
  <title>rust_homework report</title>
  <style>
"@) == (0nat, 0nat, 0nat),
        splits_none("<!DOCTYPE html>
<html lang=\"zh-CN\">
<head>
  <meta charset=\"UTF-8\">
  <meta name=\"viewport\" content=\"width=device-width, initial-scale=1.0\">
  <title>rust_homework report</title>
  <style>
"@),
        ends_none("<!DOCTYPE html>
<html lang=\"zh-CN\">
<head>
  <meta charset=\"UTF-8\">
  <meta name=\"viewport\" content=\"width=device-width, initial-scale=1.0\">
  <title>rust_homework report</title>
  <style>
"@),
        "<!DOCTYPE html>
<html lang=\"zh-CN\">
<head>
  <meta charset=\"UTF-8\">
  <meta name=\"viewport\" content=\"width=device-width, initial-scale=1.0\">
  <title>rust_homework report</title>
  <style>
"@.len() == 189,
{
    reveal_strlit("<!DOCTYPE html>
<html lang=\"zh-CN\">
<head>
  <meta charset=\"UTF-8\">
  <meta name=\"viewport\" content=\"width=device-width, initial-scale=1.0\">
  <title>rust_homework report</title>
  <style>
");
    lemma_reveal_tags();
    let s = "<!DOCTYPE html>
<html lang=\"zh-CN\">
<head>
  <meta charset=\"UTF-8\">
  <meta name=\"viewport\" content=\"width=device-width, initial-scale=1.0\">
  <title>rust_homework report</title>
  <style>
"@;
    let m = card_tag();
    lemma_absent_except(s, m, -1);
    lemma_occ_none(s, m);
    let m = function_tag();
    lemma_absent_except(s, m, -1);
    lemma_occ_none(s, m);
    let m = finding_tag();
    lemma_absent_except(s, m, -1);
    lemma_occ_none(s, m);
    let m = card_tag();
    lemma_no_split_by_two(s, m);
    lemma_no_end_split_by_three(s, m);
    let m = function_tag();
    lemma_no_split_by_two(s, m);
    lemma_no_end_split_by_three(s, m);
    let m = finding_tag();
    lemma_no_split_by_two(s, m);
    lemma_no_end_split_by_three(s, m);
}

proof fn lemma_lit_hero()
    ensures
        tag_counts("  </style>
</head>
<body>
  <div class=\"page\">
    <section class=\"hero\">
      <div class=\"eyebrow\">rust_homework Static Analysis Report</div>
      <h1>Rust 作业静态分析报告</h1>
      <p class=\"subtitle\">本报告仅展示警告与严重问题，已隐藏提示级别信息，方便优先处理真正需要修复的项。</p>
      <div class=\"summary-grid\">
"@) == (0nat, 0nat, 0nat),
        splits_none("  </style>
</head>
<body>
  <div class=\"page\">
    <section class=\"hero\">
      <div class=\"eyebrow\">rust_homework Static Analysis Report</div>
      <h1>Rust 作业静态分析报告</h1>
      <p class=\"subtitle\">本报告仅展示警告与严重问题，已隐藏提示级别信息，方便优先处理真正需要修复的项。</p>
      <div class=\"summary-grid\">
"@),
        ends_none("  </style>
</head>
<body>
  <div class=\"page\">
    <section class=\"hero\">
      <div class=\"eyebrow\">rust_homework Static Analysis Report</div>
      <h1>Rust 作业静态分析报告</h1>
      <p class=\"subtitle\">本报告仅展示警告与严重问题，已隐藏提示级别信息，方便优先处理真正需要修复的项。</p>
      <div class=\"summary-grid\">
"@),
        "  </style>
</head>
<body>
  <div class=\"page\">
    <section class=\"hero\">
      <div class=\"eyebrow\">rust_homework Static Analysis Report</div>
      <h1>Rust 作业静态分析报告</h1>
      <p class=\"subtitle\">本报告仅展示警告与严重问题，已隐藏提示级别信息，方便优先处理真正需要修复的项。</p>
      <div class=\"summary-grid\">
"@.len() == 276,
{
    reveal_strlit("  </style>
</head>
<body>
  <div class=\"page\">
    <section class=\"hero\">
      <div class=\"eyebrow\">rust_homework Static Analysis Report</div>
      <h1>Rust 作业静态分析报告</h1>
      <p class=\"subtitle\">本报告仅展示警告与严重问题，已隐藏提示级别信息，方便优先处理真正需要修复的项。</p>
      <div class=\"summary-grid\">
");
    lemma_reveal_tags();
    let s = "  </style>
</head>
<body>
  <div class=\"page\">
    <section class=\"hero\">
      <div class=\"eyebrow\">rust_homework Static Analysis Report</div>
      <h1>Rust 作业静态分析报告</h1>
      <p class=\"subtitle\">本报告仅展示警告与严重问题，已隐藏提示级别信息，方便优先处理真正需要修复的项。</p>
      <div class=\"summary-grid\">
"@;
    let m = card_tag();
    lemma_absent_except(s, m, -1);
    lemma_occ_none(s, m);
    let m = function_tag();
    lemma_absent_except(s, m, -1);
    lemma_occ_none(s, m);
    let m = finding_tag();
    assert forall|k: int| true implies !matches_at(s, m, k) by {
        if 0 <= k && k + m.len() <= s.len() {
            assert(s[k + 0] != m[0] || s[k + 1] != m[1] || s[k + 2] != m[2] || s[k + 3] != m[3] || s[k + 4] != m[4] || s[k + 5] != m[5] || s[k + 6] != m[6] || s[k + 7] != m[7] || s[k + 8] != m[8] || s[k + 9] != m[9] || s[k + 10] != m[10] || s[k + 11] != m[11] || s[k + 12] != m[12]);
            if s.subrange(k, k + m.len()) == m {
                assert(s.subrange(k, k + m.len())[0] == s[k + 0]);
                assert(s.subrange(k, k + m.len())[1] == s[k + 1]);
                assert(s.subrange(k, k + m.len())[2] == s[k + 2]);
                assert(s.subrange(k, k + m.len())[3] == s[k + 3]);
                assert(s.subrange(k, k + m.len())[4] == s[k + 4]);
                assert(s.subrange(k, k + m.len())[5] == s[k + 5]);
                assert(s.subrange(k, k + m.len())[6] == s[k + 6]);
                assert(s.subrange(k, k + m.len())[7] == s[k + 7]);
                assert(s.subrange(k, k + m.len())[8] == s[k + 8]);
                assert(s.subrange(k, k + m.len())[9] == s[k + 9]);
                assert(s.subrange(k, k + m.len())[10] == s[k + 10]);
                assert(s.subrange(k, k + m.len())[11] == s[k + 11]);
                assert(s.subrange(k, k + m.len())[12] == s[k + 12]);
            }
        }
    }
    lemma_occ_none(s, m);
    let m = card_tag();
    lemma_no_split_by_two(s, m);
    lemma_no_end_split_by_three(s, m);
    let m = function_tag();
    lemma_no_split_by_two(s, m);
    lemma_no_end_split_by_three(s, m);
    let m = finding_tag();
    lemma_no_split_by_two(s, m);
    lemma_no_end_split_by_three(s, m);
}

proof fn lemma_lit_style()
    ensures
        tag_free(HTML_STYLE@),
{
    reveal_strlit("    :root {
      --bg: #f5f1e8;
      --paper: rgba(255, 252, 246, 0.92);
      --panel: #fffdf8;
      --line: #ded6c8;
      --text: #2c2722;
      --muted: #74695e;
      --accent: #8c5a3c;
      --accent-soft: #efe3d3;
      --ok: #5b7f5f;
      --warn: #b7791f;
      --err: #b34a36;
      --shadow: 0 18px 48px rgba(89, 67, 44, 0.08);
    }
    * { box-sizing: border-box; }
    body {
      margin: 0;
      font-family: \"Noto Serif SC\", \"Source Han Serif SC\", \"PingFang SC\", \"Microsoft YaHei\", serif;
      color: var(--text);
      background:
        radial-gradient(circle at top left, rgba(140, 90, 60, 0.10), transparent 32%),
        linear-gradient(180deg, #f7f3eb 0%, #f1ebe1 100%);
      line-height: 1.7;
    }
    .page {
      max-width: 1100px;
      margin: 0 auto;
      padding: 48px 20px 64px;
    }
    .hero {
      background: var(--paper);
      border: 1px solid rgba(140, 90, 60, 0.14);
      border-radius: 24px;
      padding: 32px;
      box-shadow: var(--shadow);
      backdrop-filter: blur(10px);
      margin-bottom: 24px;
    }
    .eyebrow {
      font-size: 12px;
      letter-spacing: 0.14em;
      text-transform: uppercase;
      color: var(--muted);
      margin-bottom: 10px;
    }
    h1 {
      margin: 0;
      font-size: clamp(28px, 4vw, 42px);
      line-height: 1.2;
      font-weight: 700;
    }
    .subtitle {
      margin-top: 12px;
      color: var(--muted);
      font-size: 15px;
    }
    .summary-grid {
      display: grid;
      grid-template-columns: repeat(auto-fit, minmax(180px, 1fr));
      gap: 14px;
      margin-top: 28px;
    }
    .stat {
      background: var(--panel);
      border: 1px solid var(--line);
      border-radius: 18px;
      padding: 18px;
    }
    .stat-label {
      font-size: 13px;
      color: var(--muted);
      margin-bottom: 8px;
    }
    .stat-value {
      font-size: 28px;
      font-weight: 700;
      color: var(--accent);
    }
    .meta {
      margin-top: 20px;
      padding-top: 18px;
      border-top: 1px solid var(--line);
      color: var(--muted);
      font-size: 14px;
    }
    .files {
      display: grid;
      gap: 18px;
    }
    .file-card {
      background: var(--paper);
      border: 1px solid rgba(140, 90, 60, 0.12);
      border-radius: 22px;
      padding: 24px;
      box-shadow: var(--shadow);
    }
    .file-header {
      display: flex;
      justify-content: space-between;
      gap: 16px;
      align-items: flex-start;
      flex-wrap: wrap;
      margin-bottom: 16px;
    }
    .file-title {
      margin: 0;
      font-size: 20px;
      word-break: break-all;
    }
    .badge {
      display: inline-flex;
      align-items: center;
      gap: 8px;
      padding: 8px 12px;
      border-radius: 999px;
      background: var(--accent-soft);
      color: var(--accent);
      font-size: 13px;
      white-space: nowrap;
    }
    .metric-row {
      display: grid;
      grid-template-columns: repeat(auto-fit, minmax(140px, 1fr));
      gap: 10px;
      margin-bottom: 18px;
    }
    .metric-box {
      background: var(--panel);
      border: 1px solid var(--line);
      border-radius: 14px;
      padding: 12px 14px;
    }
    .metric-box strong {
      display: block;
      font-size: 12px;
      color: var(--muted);
      margin-bottom: 6px;
      font-weight: 500;
    }
    .metric-box span {
      font-size: 18px;
      font-weight: 700;
    }
    h2.section-title {
      margin: 0 0 14px;
      font-size: 16px;
    }
    .functions, .issues {
      margin-top: 16px;
    }
    ul.clean {
      list-style: none;
      padding: 0;
      margin: 0;
      display: grid;
      gap: 10px;
    }
    .list-card {
      background: var(--panel);
      border: 1px solid var(--line);
      border-radius: 14px;
      padding: 14px 16px;
    }
    .issue-top {
      display: flex;
      justify-content: space-between;
      gap: 12px;
      flex-wrap: wrap;
      margin-bottom: 8px;
    }
    .issue-rule {
      font-family: \"JetBrains Mono\", \"Consolas\", monospace;
      font-size: 13px;
      color: var(--accent);
    }
    .severity {
      padding: 4px 10px;
      border-radius: 999px;
      font-size: 12px;
      font-weight: 700;
    }
    .severity-warning { background: #fbefda; color: var(--warn); }
    .severity-error { background: #f8e1dc; color: var(--err); }
    .issue-message {
      margin: 0;
      font-size: 14px;
    }
    .issue-snippet {
      margin-top: 10px;
      padding: 12px 14px;
      background: #f8f5ef;
      border-radius: 12px;
      border: 1px dashed var(--line);
      font-family: \"JetBrains Mono\", \"Consolas\", monospace;
      font-size: 13px;
      overflow-x: auto;
      white-space: pre-wrap;
      word-break: break-word;
    }
    .empty {
      color: var(--muted);
      background: var(--panel);
      border: 1px solid var(--line);
      border-radius: 14px;
      padding: 14px 16px;
    }
    @media (max-width: 640px) {
      .page { padding: 24px 14px 40px; }
      .hero, .file-card { padding: 20px; border-radius: 18px; }
      .stat-value { font-size: 24px; }
    }
");
}

/// The fixed opening of the page (document start, style sheet, and the
/// heading up to the totals) holds none of the three tags.
pub proof fn lemma_page_start_tags()
    ensures
        tag_counts(HTML_HEAD@ + HTML_STYLE@ + HTML_HERO@) == (0nat, 0nat, 0nat),
{
    lemma_lit_head();
    lemma_lit_style();
    lemma_lit_hero();
    assert(HTML_HEAD@ == "<!DOCTYPE html>
<html lang=\"zh-CN\">
<head>
  <meta charset=\"UTF-8\">
  <meta name=\"viewport\" content=\"width=device-width, initial-scale=1.0\">
  <title>rust_homework report</title>
  <style>
"@);
    assert(HTML_HERO@ == "  </style>
</head>
<body>
  <div class=\"page\">
    <section class=\"hero\">
      <div class=\"eyebrow\">rust_homework Static Analysis Report</div>
      <h1>Rust 作业静态分析报告</h1>
      <p class=\"subtitle\">本报告仅展示警告与严重问题，已隐藏提示级别信息，方便优先处理真正需要修复的项。</p>
      <div class=\"summary-grid\">
"@);
    lemma_tag_free(HTML_STYLE@);
    lemma_join(HTML_HEAD@, HTML_STYLE@);
    lemma_join(HTML_HEAD@ + HTML_STYLE@, HTML_HERO@);
}

} // verus!
