//! What a `SKILL.md` rewritten with a new `enabled` setting reads back as.

use vstd::prelude::*;
use crate::desktop::skills::{
    enabled_line, flagged_front, front_matter_with_flag, line_fold, markdown_sections, markdown_with_flag,
    strip_cr, text_lines,
};
use crate::text::{has_prefix, is_white_space, occurs_at, trim_end, trim_start, trimmed};

verus! {

/// `---` occurs nowhere in `s`.
pub open spec fn no_dashes(s: Seq<char>) -> bool {
    forall|j: int| !#[trigger] occurs_at(s, "---"@, j)
}

/// `s` holds no line break.
pub open spec fn no_newline(s: Seq<char>) -> bool {
    forall|j: int| 0 <= j < s.len() ==> #[trigger] s[j] != '\n'
}

/// `s` is empty or starts and ends with a character that is no white space.
pub open spec fn tight(s: Seq<char>) -> bool {
    s.len() == 0 || (!is_white_space(s[0]) && !is_white_space(s.last()))
}

/// Every character of `s` is white space.
pub open spec fn all_white(s: Seq<char>) -> bool {
    forall|j: int| 0 <= j < s.len() ==> is_white_space(#[trigger] s[j])
}

proof fn lemma_trim_start(s: Seq<char>) -> (i: int)
    ensures
        0 <= i <= s.len(),
        trim_start(s) == s.skip(i),
        forall|j: int| 0 <= j < i ==> is_white_space(#[trigger] s[j]),
        i < s.len() ==> !is_white_space(s[i]),
    decreases s.len(),
{
    if s.len() > 0 && is_white_space(s[0]) {
        let k = lemma_trim_start(s.drop_first());
        assert(s.drop_first().skip(k) =~= s.skip(k + 1));
        assert forall|j: int| 0 <= j < k + 1 implies is_white_space(#[trigger] s[j]) by {
            if j > 0 {
                assert(s[j] == s.drop_first()[j - 1]);
            }
        }
        k + 1
    } else {
        assert(s.skip(0) =~= s);
        0
    }
}

proof fn lemma_trim_end(s: Seq<char>) -> (k: int)
    ensures
        0 <= k <= s.len(),
        trim_end(s) == s.take(k),
        forall|j: int| k <= j < s.len() ==> is_white_space(#[trigger] s[j]),
        k > 0 ==> !is_white_space(s[k - 1]),
    decreases s.len(),
{
    if s.len() > 0 && is_white_space(s.last()) {
        let k = lemma_trim_end(s.drop_last());
        assert(s.drop_last().take(k) =~= s.take(k));
        assert forall|j: int| k <= j < s.len() implies is_white_space(#[trigger] s[j]) by {
            if j < s.len() - 1 {
                assert(s[j] == s.drop_last()[j]);
            }
        }
        if k > 0 {
            assert(s[k - 1] == s.drop_last()[k - 1]);
        }
        k
    } else {
        assert(s.take(s.len() as int) =~= s);
        s.len() as int
    }
}

/// A trimmed text is tight, and a part of the text.
proof fn lemma_trimmed(s: Seq<char>) -> (r: (int, int))
    ensures
        0 <= r.0 <= r.1 <= s.len(),
        trimmed(s) == s.subrange(r.0, r.1),
        tight(trimmed(s)),
{
    let i = lemma_trim_start(s);
    let u = s.skip(i);
    let k = lemma_trim_end(u);
    assert(u.take(k) =~= s.subrange(i, i + k));
    if k > 0 {
        assert(u[0] == s[i]);
        assert(trimmed(s)[0] == u[0]);
        assert(trimmed(s).last() == u[k - 1]);
    }
    (i, i + k)
}

/// White space around a tight text is what trimming removes.
proof fn lemma_trimmed_pad(a: Seq<char>, f: Seq<char>, b: Seq<char>)
    requires
        all_white(a),
        all_white(b),
        tight(f),
    ensures
        trimmed(a + f + b) == f,
{
    let x = a + f + b;
    let i = lemma_trim_start(x);
    if f.len() > 0 {
        if i > a.len() {
            assert(is_white_space(x[a.len() as int]));
            assert(x[a.len() as int] == f[0]);
        }
        if i < a.len() {
            assert(x[i] == a[i]);
        }
        assert(i == a.len());
        let u = x.skip(i);
        assert(u =~= f + b);
        let k = lemma_trim_end(u);
        if k < f.len() {
            assert(is_white_space(u[f.len() - 1]));
            assert(u[f.len() - 1] == f.last());
        }
        if k > f.len() {
            assert(u[k - 1] == b[k - 1 - f.len()]);
        }
        assert(k == f.len());
        assert(u.take(k) =~= f);
    } else {
        if i < x.len() {
            if i < a.len() {
                assert(x[i] == a[i]);
            } else {
                assert(x[i] == b[i - a.len()]);
            }
        }
        assert(x.skip(i) =~= Seq::<char>::empty());
        assert(trim_end(Seq::<char>::empty()) == Seq::<char>::empty());
    }
}

/// A part of a text without `---` has none either.
proof fn lemma_no_dashes_sub(s: Seq<char>, i: int, k: int)
    requires
        0 <= i <= k <= s.len(),
        no_dashes(s),
    ensures
        no_dashes(s.subrange(i, k)),
{
    reveal_strlit("---");
    assert forall|j: int| !#[trigger] occurs_at(s.subrange(i, k), "---"@, j) by {
        if occurs_at(s.subrange(i, k), "---"@, j) {
            assert(s.subrange(i, k).subrange(j, j + 3) =~= s.subrange(i + j, i + j + 3));
            assert(occurs_at(s, "---"@, i + j));
        }
    }
}

/// Two texts without `---` joined where one of the two meeting characters
/// is no `-`.
proof fn lemma_no_dashes_concat(a: Seq<char>, b: Seq<char>)
    requires
        no_dashes(a),
        no_dashes(b),
        a.len() == 0 || b.len() == 0 || a.last() != '-' || b[0] != '-',
    ensures
        no_dashes(a + b),
{
    reveal_strlit("---");
    let x = a + b;
    assert forall|j: int| !#[trigger] occurs_at(x, "---"@, j) by {
        if occurs_at(x, "---"@, j) {
            if j + 3 <= a.len() {
                assert(x.subrange(j, j + 3) =~= a.subrange(j, j + 3));
                assert(occurs_at(a, "---"@, j));
            } else if j >= a.len() {
                assert(x.subrange(j, j + 3) =~= b.subrange(j - a.len(), j - a.len() + 3));
                assert(occurs_at(b, "---"@, j - a.len()));
            } else {
                assert(x.subrange(j, j + 3)[a.len() - 1 - j] == '-');
                assert(x.subrange(j, j + 3)[a.len() - j] == '-');
                assert(x[a.len() - 1] == a.last());
                assert(x[a.len() as int] == b[0]);
            }
        }
    }
}

/// A text without `-` holds no `---`.
proof fn lemma_no_dash_char(s: Seq<char>)
    requires
        forall|j: int| 0 <= j < s.len() ==> #[trigger] s[j] != '-',
    ensures
        no_dashes(s),
{
    reveal_strlit("---");
    assert forall|j: int| !#[trigger] occurs_at(s, "---"@, j) by {
        if occurs_at(s, "---"@, j) {
            assert(s.subrange(j, j + 3)[0] == s[j]);
        }
    }
}

/// The lines of a text without `---` hold neither `---` nor a line break;
/// the unfinished last line is the end of the text.
proof fn lemma_line_fold(s: Seq<char>) -> (k: int)
    requires
        no_dashes(s),
    ensures
        0 <= k <= s.len(),
        line_fold(s).1 == s.skip(k),
        no_newline(line_fold(s).1),
        forall|i: int|
            0 <= i < line_fold(s).0.len() ==> no_dashes(#[trigger] line_fold(s).0[i]) && no_newline(
                line_fold(s).0[i],
            ),
    decreases s.len(),
{
    if s.len() == 0 {
        assert(s.skip(0) =~= Seq::<char>::empty());
        0
    } else {
        let p = s.drop_last();
        lemma_no_dashes_sub(s, 0, s.len() - 1);
        assert(p =~= s.subrange(0, s.len() - 1));
        let k = lemma_line_fold(p);
        let (ls, cur) = line_fold(p);
        if s.last() == '\n' {
            let l = strip_cr(cur);
            assert(cur =~= s.subrange(k, s.len() - 1));
            lemma_no_dashes_sub(s, k, s.len() - 1);
            if cur.len() > 0 && cur.last() == '\r' {
                assert(l =~= cur.subrange(0, cur.len() - 1));
                lemma_no_dashes_sub(cur, 0, cur.len() - 1);
            }
            assert(s.skip(s.len() as int) =~= Seq::<char>::empty());
            assert forall|i: int| 0 <= i < ls.push(l).len() implies no_dashes(#[trigger] ls.push(l)[i]) && no_newline(
                ls.push(l)[i],
            ) by {
                if i < ls.len() {
                    assert(ls.push(l)[i] == ls[i]);
                }
            }
            s.len() as int
        } else {
            assert(cur.push(s.last()) =~= s.skip(k));
            k
        }
    }
}

/// The lines of a text without `---`.
proof fn lemma_text_lines(s: Seq<char>)
    requires
        no_dashes(s),
    ensures
        forall|i: int|
            0 <= i < text_lines(s).len() ==> no_dashes(#[trigger] text_lines(s)[i]) && no_newline(text_lines(s)[i]),
{
    let k = lemma_line_fold(s);
    let (ls, cur) = line_fold(s);
    lemma_no_dashes_sub(s, k, s.len() as int);
    assert(cur =~= s.subrange(k, s.len() as int));
    if cur.len() > 0 {
        assert forall|i: int| 0 <= i < ls.push(cur).len() implies no_dashes(#[trigger] ls.push(cur)[i]) && no_newline(
            ls.push(cur)[i],
        ) by {
            if i < ls.len() {
                assert(ls.push(cur)[i] == ls[i]);
            }
        }
    }
}

proof fn lemma_enabled_line(enabled: bool)
    ensures
        no_dashes(enabled_line(enabled)),
        no_newline(enabled_line(enabled)),
        enabled_line(enabled).len() > 0,
{
    reveal_strlit("enabled: true");
    reveal_strlit("enabled: false");
    lemma_no_dash_char(enabled_line(enabled));
}

/// One line and its line break appended to text that is empty or ends with
/// a line break.
proof fn lemma_append_line(o: Seq<char>, l: Seq<char>)
    requires
        no_dashes(o),
        o.len() == 0 || o.last() == '\n',
        no_dashes(l),
        no_newline(l),
    ensures
        no_dashes(o + l + "\n"@),
        (o + l + "\n"@).last() == '\n',
{
    reveal_strlit("\n");
    lemma_no_dashes_concat(o, l);
    lemma_no_dash_char("\n"@);
    lemma_no_dashes_concat(o + l, "\n"@);
}

/// The rewritten front matter holds no `---`.
proof fn lemma_front_matter(lines: Seq<Seq<char>>, enabled: bool)
    requires
        forall|i: int| 0 <= i < lines.len() ==> no_dashes(#[trigger] lines[i]) && no_newline(lines[i]),
    ensures
        no_dashes(front_matter_with_flag(lines, enabled).0),
        front_matter_with_flag(lines, enabled).0.len() == 0 || front_matter_with_flag(lines, enabled).0.last() == '\n',
    decreases lines.len(),
{
    reveal_strlit("---");
    if lines.len() == 0 {
        lemma_no_dash_char(Seq::<char>::empty());
    } else {
        let p = lines.drop_last();
        assert forall|i: int| 0 <= i < p.len() implies no_dashes(#[trigger] p[i]) && no_newline(p[i]) by {
            assert(p[i] == lines[i]);
        }
        lemma_front_matter(p, enabled);
        let (o, found) = front_matter_with_flag(p, enabled);
        lemma_enabled_line(enabled);
        assert(lines.last() == lines[lines.len() - 1]);
        if has_prefix(lines.last(), "enabled:"@) {
            lemma_append_line(o, enabled_line(enabled));
        } else {
            lemma_append_line(o, lines.last());
        }
    }
}

/// The rewritten front matter is tight and holds no `---`.
proof fn lemma_flagged_front(front: Seq<char>, enabled: bool)
    requires
        no_dashes(front),
    ensures
        no_dashes(flagged_front(front, enabled)),
        tight(flagged_front(front, enabled)),
{
    lemma_text_lines(front);
    lemma_front_matter(text_lines(front), enabled);
    let (o, found) = front_matter_with_flag(text_lines(front), enabled);
    let fm = if found {
        o
    } else {
        lemma_enabled_line(enabled);
        lemma_append_line(o, enabled_line(enabled));
        o + enabled_line(enabled) + "\n"@
    };
    let (i, k) = lemma_trimmed(fm);
    lemma_no_dashes_sub(fm, i, k);
}

/// Where `---` occurs in `s`, it has a first occurrence.
proof fn lemma_first_occurrence(s: Seq<char>, w: int)
    requires
        0 <= w,
        occurs_at(s, "---"@, w),
    ensures
        exists|e: int| 0 <= e && occurs_at(s, "---"@, e) && forall|j: int| 0 <= j < e ==> !occurs_at(s, "---"@, j),
    decreases w,
{
    if exists|j: int| 0 <= j < w && occurs_at(s, "---"@, j) {
        let j = choose|j: int| 0 <= j < w && occurs_at(s, "---"@, j);
        lemma_first_occurrence(s, j);
    } else {
        assert(0 <= w && occurs_at(s, "---"@, w) && forall|j: int| 0 <= j < w ==> !occurs_at(s, "---"@, j));
    }
}

/// The sections of a `SKILL.md`: the front matter holds no `---` and both
/// sections are tight.
#[verifier::rlimit(30)]
proof fn lemma_sections(markdown: Seq<char>)
    requires
        markdown_sections(markdown) is Ok,
    ensures
        no_dashes(markdown_sections(markdown)->Ok_0.0),
        tight(markdown_sections(markdown)->Ok_0.1),
{
    reveal_strlit("---");
    let t = trimmed(markdown);
    assert(has_prefix(t, "---"@));
    let rest = t.skip(3);
    assert(exists|e: int| 0 <= e && occurs_at(rest, "---"@, e));
    let w = choose|e: int| 0 <= e && occurs_at(rest, "---"@, e);
    lemma_first_occurrence(rest, w);
    let e = choose|e: int| 0 <= e && occurs_at(rest, "---"@, e) && forall|j: int| 0 <= j < e ==> !occurs_at(rest, "---"@, j);
    assert(markdown_sections(markdown)->Ok_0 == (trimmed(rest.take(e)), trimmed(rest.skip(e + 3))));
    let head = rest.take(e);
    assert forall|j: int| !#[trigger] occurs_at(head, "---"@, j) by {
        if occurs_at(head, "---"@, j) {
            assert(head.subrange(j, j + 3) =~= rest.subrange(j, j + 3));
            assert(occurs_at(rest, "---"@, j));
        }
    }
    let (i, k) = lemma_trimmed(head);
    lemma_no_dashes_sub(head, i, k);
    lemma_trimmed(rest.skip(e + 3));
}

/// What follows the closing `---` of a rewritten file, once trimmed: a
/// blank line and the body, or nothing where the body is empty.
pub open spec fn section_tail(body: Seq<char>) -> Seq<char> {
    if body.len() == 0 {
        Seq::empty()
    } else {
        seq!['\n', '\n'] + body
    }
}

/// The rewritten text, trimmed.
proof fn lemma_out_trimmed(f: Seq<char>, body: Seq<char>)
    requires
        tight(body),
    ensures
        trimmed("---\n"@ + f + "\n---\n\n"@ + body) == "---\n"@ + f + seq!['\n', '-', '-', '-'] + section_tail(body),
{
    reveal_strlit("---\n");
    reveal_strlit("\n---\n\n");
    let out = "---\n"@ + f + "\n---\n\n"@ + body;
    let nl2: Seq<char> = seq!['\n', '\n'];
    let core = "---\n"@ + f + seq!['\n', '-', '-', '-'];
    if body.len() == 0 {
        assert(out =~= Seq::<char>::empty() + core + nl2);
        assert(core[0] == '-');
        assert(core.last() == '-');
        lemma_trimmed_pad(Seq::empty(), core, nl2);
        assert(core + section_tail(body) =~= core);
    } else {
        let t = core + section_tail(body);
        assert(out =~= Seq::<char>::empty() + t + Seq::<char>::empty());
        assert(t[0] == '-');
        assert(t.last() == body.last());
        lemma_trimmed_pad(Seq::empty(), t, Seq::empty());
    }
}

/// In the text after the opening `---`, the first `---` is the closing one.
proof fn lemma_closing_dashes(f: Seq<char>, tail: Seq<char>)
    requires
        no_dashes(f),
    ensures
        ({
            let rest = seq!['\n'] + f + seq!['\n', '-', '-', '-'] + tail;
            let p = f.len() + 2int;
            &&& occurs_at(rest, "---"@, p)
            &&& forall|j: int| 0 <= j < p ==> !#[trigger] occurs_at(rest, "---"@, j)
            &&& rest.take(p) == seq!['\n'] + f + seq!['\n']
            &&& rest.skip(p + 3) == tail
        }),
{
    reveal_strlit("---");
    let rest = seq!['\n'] + f + seq!['\n', '-', '-', '-'] + tail;
    let p = f.len() + 2int;
    assert(rest.subrange(p, p + 3) =~= "---"@);
    assert forall|j: int| 0 <= j < p implies !#[trigger] occurs_at(rest, "---"@, j) by {
        if occurs_at(rest, "---"@, j) {
            assert(rest.subrange(j, j + 3)[0] == rest[j]);
            if j == 0 {
                assert(rest[0] == '\n');
            } else if j + 3 <= f.len() + 1 {
                assert(rest.subrange(j, j + 3) =~= f.subrange(j - 1, j + 2));
                assert(occurs_at(f, "---"@, j - 1));
            } else {
                assert(rest.subrange(j, j + 3)[f.len() + 1 - j] == rest[f.len() + 1int]);
                assert(rest[f.len() + 1int] == '\n');
            }
        }
    }
    assert(rest.take(p) =~= seq!['\n'] + f + seq!['\n']);
    assert(rest.skip(p + 3) =~= tail);
}

/// A file written as the opening `---`, a tight front matter without
/// `---`, the closing `---`, a blank line and a tight body reads back as
/// that front matter and body.
#[verifier::rlimit(80)]
proof fn lemma_read_back(f: Seq<char>, body: Seq<char>)
    requires
        no_dashes(f),
        tight(f),
        tight(body),
    ensures
        markdown_sections("---\n"@ + f + "\n---\n\n"@ + body) == Ok::<(Seq<char>, Seq<char>), Seq<char>>((f, body)),
{
    reveal_strlit("---");
    reveal_strlit("---\n");
    let out = "---\n"@ + f + "\n---\n\n"@ + body;
    lemma_out_trimmed(f, body);
    let tail = section_tail(body);
    let t = "---\n"@ + f + seq!['\n', '-', '-', '-'] + tail;
    assert(trimmed(out) == t);
    assert(t.take(3) =~= "---"@);
    assert(has_prefix(t, "---"@));
    let rest = t.skip(3);
    assert(rest =~= seq!['\n'] + f + seq!['\n', '-', '-', '-'] + tail);
    lemma_closing_dashes(f, tail);
    let p = f.len() + 2int;
    assert(0 <= p && occurs_at(rest, "---"@, p) && forall|j: int| 0 <= j < p ==> !occurs_at(rest, "---"@, j));
    let e = choose|e: int| 0 <= e && occurs_at(rest, "---"@, e) && forall|j: int| 0 <= j < e ==> !occurs_at(rest, "---"@, j);
    if e < p {
        assert(!occurs_at(rest, "---"@, e));
    }
    if e > p {
        assert(!occurs_at(rest, "---"@, p));
    }
    assert(e == p);
    let nl: Seq<char> = seq!['\n'];
    lemma_trimmed_pad(nl, f, nl);
    if body.len() == 0 {
        lemma_trimmed_pad(Seq::empty(), Seq::empty(), Seq::empty());
        assert(Seq::<char>::empty() + Seq::<char>::empty() + Seq::<char>::empty() =~= Seq::<char>::empty());
    } else {
        lemma_trimmed_pad(seq!['\n', '\n'], body, Seq::empty());
        assert(seq!['\n', '\n'] + body + Seq::<char>::empty() =~= tail);
    }
    assert(trimmed(rest.take(e)) == f);
    assert(trimmed(rest.skip(e + 3)) == body);
    assert(exists|e: int| 0 <= e && occurs_at(rest, "---"@, e));
}

/// Rewriting the `enabled` setting of a `SKILL.md` keeps it readable: its
/// sections read back as the rewritten front matter and the same body.
pub proof fn lemma_flag_rewrite_reads_back(markdown: Seq<char>, enabled: bool)
    requires
        markdown_sections(markdown) is Ok,
    ensures
        markdown_with_flag(markdown, enabled) is Ok,
        markdown_sections(markdown_with_flag(markdown, enabled)->Ok_0) == Ok::<(Seq<char>, Seq<char>), Seq<char>>(
            (
                flagged_front(markdown_sections(markdown)->Ok_0.0, enabled),
                markdown_sections(markdown)->Ok_0.1,
            ),
        ),
{
    let (front, body) = markdown_sections(markdown)->Ok_0;
    lemma_sections(markdown);
    lemma_flagged_front(front, enabled);
    lemma_read_back(flagged_front(front, enabled), body);
}

} // verus!
