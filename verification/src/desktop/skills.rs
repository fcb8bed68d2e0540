//! Skills of the desktop application: the sections of a `SKILL.md`, skill
//! ids, the update of the `enabled` flag in a file, and the skills kept in
//! memory.

use vstd::prelude::*;
use crate::error::{AppError, AppResult};
use crate::native::ai::skills::{has_skill, ids_of, skill_pos, skill_views, Skill, SkillDirInfo, SkillView};
use crate::native::ai::skills::SkillsManager as SkillStore;
use crate::text::{
    all_ascii, alphanumeric, ascii_alphanumeric, ascii_lower, chars_of, find_from, has_prefix, is_alphanumeric, lowercase_of, occurs_at, owned, push_char,
    push_str, starts_with, string_of_chars, sub_chars, to_lowercase, trim, trim_chars, trimmed,
};

verus! {

/// The front matter and the body of a `SKILL.md`: the trimmed text must
/// start with `---`; the front matter runs from there to the next `---`, the
/// body follows it; both are trimmed.
pub open spec fn markdown_sections(markdown: Seq<char>) -> Result<(Seq<char>, Seq<char>), Seq<char>> {
    let t = trimmed(markdown);
    if !has_prefix(t, "---"@) {
        Err("SKILL.md must start with --- frontmatter delimiter"@)
    } else {
        let rest = t.skip(3);
        if exists|e: int| 0 <= e && occurs_at(rest, "---"@, e) {
            let e = choose|e: int| 0 <= e && occurs_at(rest, "---"@, e) && forall|j: int| 0 <= j < e ==> !occurs_at(rest, "---"@, j);
            Ok((trimmed(rest.take(e)), trimmed(rest.skip(e + 3))))
        } else {
            Err("Missing closing --- for frontmatter"@)
        }
    }
}

/// Splits a `SKILL.md` into its front matter and body.
pub fn parse_markdown_sections(markdown: &str) -> (r: AppResult<(String, String)>)
    ensures
        match markdown_sections(markdown@) {
            Ok((f, b)) => r matches Ok((f2, b2)) && f2@ == f && b2@ == b,
            Err(m) => r matches Err(AppError::Internal(m2)) && m2@ == m,
        },
{
    proof {
        reveal_strlit("---");
    }
    let t = trim(markdown);
    if !starts_with(t.as_str(), "---") {
        return Err(AppError::Internal(owned("SKILL.md must start with --- frontmatter delimiter")));
    }
    let v = chars_of(t.as_str());
    let rest = sub_chars(v.as_slice(), 3, v.len());
    let ghost rs = t@.skip(3);
    assert(rest@ =~= rs);
    let sep = chars_of("---");
    match find_from(rest.as_slice(), sep.as_slice(), 0) {
        Some(e) => {
            proof {
                let w = choose|x: int| 0 <= x && occurs_at(rs, "---"@, x) && forall|j: int| 0 <= j < x ==> !occurs_at(rs, "---"@, j);
                if w < e {
                    assert(!occurs_at(rs, "---"@, w));
                }
                if e < w {
                    assert(!occurs_at(rs, "---"@, e as int));
                }
            }
            let front = trim_chars(&rest.as_slice()[0..e]);
            assert(rest@.subrange(0, e as int) =~= rs.take(e as int));
            let tail = sub_chars(rest.as_slice(), e + 3, rest.len());
            assert(tail@ =~= rs.skip(e + 3));
            let body = trim_chars(tail.as_slice());
            Ok((string_of_chars(front.as_slice()), string_of_chars(body.as_slice())))
        },
        None => {
            assert(!exists|x: int| 0 <= x && occurs_at(rs, "---"@, x));
            Err(AppError::Internal(owned("Missing closing --- for frontmatter")))
        },
    }
}

/// A character kept in an id: alphanumeric or `-`; others become `-`.
pub open spec fn id_char(c: char) -> char {
    if alphanumeric(c) || c == '-' {
        c
    } else {
        '-'
    }
}

/// Joins the runs of characters between dashes with single dashes: what
/// splitting at `-`, dropping empty parts and joining with `-` gives. The
/// second component says whether a dash is pending before the next part.
pub open spec fn dash_join(s: Seq<char>) -> (Seq<char>, bool)
    decreases s.len(),
{
    if s.len() == 0 {
        (Seq::empty(), false)
    } else {
        let (o, pending) = dash_join(s.drop_last());
        let c = s.last();
        if c == '-' {
            (o, true)
        } else if pending && o.len() > 0 {
            (o.push('-').push(c), false)
        } else {
            (o.push(c), false)
        }
    }
}

/// The kebab-case form of a name: lower case, characters other than
/// alphanumerics and `-` turned into `-`, runs of dashes collapsed and dashes
/// at either end dropped.
pub open spec fn kebab_case(name: Seq<char>) -> Seq<char> {
    dash_join(lowercase_of(name).map_values(|c: char| id_char(c))).0
}

/// No dash at either end and no two dashes in a row.
pub open spec fn well_dashed(s: Seq<char>) -> bool {
    &&& (s.len() > 0 ==> s[0] != '-' && s.last() != '-')
    &&& forall|i: int| 0 <= i < s.len() - 1 ==> !(s[i] == '-' && #[trigger] s[i + 1] == '-')
}

/// Joining keeps only the given characters and dashes, and leaves no dash
/// at either end nor two in a row.
pub proof fn lemma_dash_join_well_dashed(s: Seq<char>)
    ensures
        well_dashed(dash_join(s).0),
        forall|i: int| 0 <= i < dash_join(s).0.len() ==> (#[trigger] dash_join(s).0[i] == '-' || s.contains(dash_join(s).0[i])),
    decreases s.len(),
{
    if s.len() > 0 {
        lemma_dash_join_well_dashed(s.drop_last());
        let (o, pending) = dash_join(s.drop_last());
        let r = dash_join(s).0;
        assert forall|i: int| 0 <= i < r.len() implies (#[trigger] r[i] == '-' || s.contains(r[i])) by {
            if i < o.len() {
                assert(r[i] == o[i]);
                if o[i] != '-' {
                    let j = s.drop_last().index_of(o[i]);
                    assert(s[j] == o[i]);
                }
            } else {
                assert(s[s.len() - 1] == s.last());
            }
        }
    }
}

/// Ids made by `to_kebab_case` consist of alphanumerics and single inner dashes.
pub proof fn lemma_kebab_case_shape(name: Seq<char>)
    ensures
        well_dashed(kebab_case(name)),
        forall|i: int| 0 <= i < kebab_case(name).len() ==> (#[trigger] kebab_case(name)[i] == '-' || alphanumeric(kebab_case(name)[i])),
{
    let m = lowercase_of(name).map_values(|c: char| id_char(c));
    lemma_dash_join_well_dashed(m);
    let r = kebab_case(name);
    assert forall|i: int| 0 <= i < r.len() implies (#[trigger] r[i] == '-' || alphanumeric(r[i])) by {
        if r[i] != '-' {
            assert(m.contains(r[i]));
            let j = m.index_of(r[i]);
            assert(m[j] == id_char(lowercase_of(name)[j]));
        }
    }
}

/// Text with no dash at its start and no two dashes in a row is what
/// joining gives back, less a final dash, which stays pending.
proof fn lemma_dash_join_keeps(s: Seq<char>)
    requires
        s.len() > 0 ==> s[0] != '-',
        forall|i: int| 0 <= i < s.len() - 1 ==> !(s[i] == '-' && #[trigger] s[i + 1] == '-'),
    ensures
        dash_join(s) == (if s.len() > 0 && s.last() == '-' {
            (s.drop_last(), true)
        } else {
            (s, false)
        }),
    decreases s.len(),
{
    if s.len() > 0 {
        let p = s.drop_last();
        assert forall|i: int| 0 <= i < p.len() - 1 implies !(p[i] == '-' && #[trigger] p[i + 1] == '-') by {
            assert(p[i] == s[i] && p[i + 1] == s[i + 1]);
        }
        if p.len() > 0 {
            assert(p[0] == s[0]);
        }
        lemma_dash_join_keeps(p);
        if s.last() == '-' && p.len() > 0 {
            let j: int = s.len() - 2;
            assert(s[j + 1] == '-');
            assert(p.last() == s[j]);
        }
        if s.last() != '-' && p.len() > 0 && p.last() == '-' {
            if p.len() == 1 {
                assert(p[0] == s[0]);
            }
            assert(p.drop_last().push('-').push(s.last()) =~= s);
        }
        if s.last() != '-' && !(p.len() > 0 && p.last() == '-') {
            assert(p.push(s.last()) =~= s);
        }
    }
}

/// Turning an id into kebab case again changes nothing, for every name
/// whose id `str::to_lowercase` leaves as it is (which includes every
/// name whose id is ASCII).
pub proof fn lemma_kebab_case_again(name: Seq<char>)
    requires
        lowercase_of(kebab_case(name)) == kebab_case(name),
    ensures
        kebab_case(kebab_case(name)) == kebab_case(name),
{
    let k = kebab_case(name);
    lemma_kebab_case_shape(name);
    let m = lowercase_of(k).map_values(|c: char| id_char(c));
    assert(m =~= k) by {
        assert forall|i: int| 0 <= i < k.len() implies m[i] == k[i] by {
            assert(k[i] == '-' || alphanumeric(k[i]));
        }
    }
    lemma_dash_join_keeps(k);
}

/// `id_char` for ASCII: letters and digits and `-` are kept, others
/// become `-`.
pub open spec fn ascii_id_char(c: char) -> char {
    if ascii_alphanumeric(c) || c == '-' {
        c
    } else {
        '-'
    }
}

/// The kebab-case form of an ASCII name.
pub open spec fn ascii_kebab_case(name: Seq<char>) -> Seq<char> {
    dash_join(name.map_values(|c: char| ascii_id_char(ascii_lower(c)))).0
}

proof fn lemma_ascii_lower_is_ascii(c: char)
    requires
        (c as u32) < 128,
    ensures
        (ascii_lower(c) as u32) < 128,
{
}

/// The id of a skill named `name`; for an ASCII name, its letters in lower
/// case and its runs of other characters turned into single dashes.
pub fn to_kebab_case(name: &str) -> (r: String)
    ensures
        r@ == kebab_case(name@),
        all_ascii(name@) ==> r@ == ascii_kebab_case(name@),
{
    let lower = to_lowercase(name);
    let v = chars_of(lower.as_str());
    let ghost m = lower@.map_values(|c: char| id_char(c));
    let mut out = String::new();
    let mut pending = false;
    let mut i: usize = 0;
    while i < v.len()
        invariant
            0 <= i <= v.len(),
            v@ == lower@,
            m == lower@.map_values(|c: char| id_char(c)),
            (out@, pending) == dash_join(m.take(i as int)),
            forall|j: int| 0 <= j < i ==> ((v@[j] as u32) < 128 ==> #[trigger] alphanumeric(v@[j]) == ascii_alphanumeric(v@[j])),
        decreases v.len() - i,
    {
        let c0 = v[i];
        let c = if is_alphanumeric(c0) || c0 == '-' { c0 } else { '-' };
        assert(m.take(i as int + 1).drop_last() =~= m.take(i as int));
        assert(m.take(i as int + 1).last() == c);
        if c == '-' {
            pending = true;
        } else {
            if pending && chars_of(out.as_str()).len() > 0 {
                push_char(&mut out, '-');
            }
            push_char(&mut out, c);
            pending = false;
        }
        i = i + 1;
    }
    assert(m.take(v.len() as int) =~= m);
    proof {
        if all_ascii(name@) {
            assert forall|j: int| 0 <= j < name@.len() implies m[j] == ascii_id_char(ascii_lower(#[trigger] name@[j])) by {
                lemma_ascii_lower_is_ascii(name@[j]);
                assert(lower@[j] == ascii_lower(name@[j]));
                assert(alphanumeric(v@[j]) == ascii_alphanumeric(v@[j]));
            }
            assert(m =~= name@.map_values(|c: char| ascii_id_char(ascii_lower(c))));
        }
    }
    out
}

/// A valid skill id: not empty, only alphanumerics and `-`.
pub open spec fn valid_skill_id(id: Seq<char>) -> bool {
    id.len() > 0 && forall|i: int| 0 <= i < id.len() ==> alphanumeric(#[trigger] id[i]) || id[i] == '-'
}

/// An id made by `to_kebab_case` is a valid skill id, unless it is empty.
pub proof fn lemma_kebab_ids_are_valid(name: Seq<char>)
    ensures
        kebab_case(name).len() > 0 ==> valid_skill_id(kebab_case(name)),
{
    lemma_kebab_case_shape(name);
}

/// Whether `id` is a valid skill id.
pub fn is_valid_skill_id(id: &str) -> (r: bool)
    ensures
        r == valid_skill_id(id@),
{
    let v = chars_of(id);
    if v.len() == 0 {
        return false;
    }
    let mut i: usize = 0;
    while i < v.len()
        invariant
            0 <= i <= v.len(),
            v@ == id@,
            forall|j: int| 0 <= j < i ==> alphanumeric(#[trigger] id@[j]) || id@[j] == '-',
        decreases v.len() - i,
    {
        if !(is_alphanumeric(v[i]) || v[i] == '-') {
            return false;
        }
        i = i + 1;
    }
    true
}

/// A line without its trailing carriage return.
pub open spec fn strip_cr(l: Seq<char>) -> Seq<char> {
    if l.len() > 0 && l.last() == '\r' {
        l.drop_last()
    } else {
        l
    }
}

/// The complete lines of a text and the unfinished last one.
pub open spec fn line_fold(s: Seq<char>) -> (Seq<Seq<char>>, Seq<char>)
    decreases s.len(),
{
    if s.len() == 0 {
        (Seq::empty(), Seq::empty())
    } else {
        let (ls, cur) = line_fold(s.drop_last());
        if s.last() == '\n' {
            (ls.push(strip_cr(cur)), Seq::empty())
        } else {
            (ls, cur.push(s.last()))
        }
    }
}

/// The lines of a text as `str::lines` gives them: split at `\n`, each
/// without a trailing `\r`, without an empty line after a final `\n`.
pub open spec fn text_lines(s: Seq<char>) -> Seq<Seq<char>> {
    let (ls, cur) = line_fold(s);
    if cur.len() > 0 {
        ls.push(cur)
    } else {
        ls
    }
}

/// The lines of `s`.
pub fn lines(s: &str) -> (r: Vec<String>)
    ensures
        r@.map_values(|l: String| l@) == text_lines(s@),
{
    let v = chars_of(s);
    let mut ls: Vec<String> = Vec::new();
    let mut cur: Vec<char> = Vec::new();
    let mut i: usize = 0;
    while i < v.len()
        invariant
            0 <= i <= v.len(),
            v@ == s@,
            (ls@.map_values(|l: String| l@), cur@) == line_fold(s@.take(i as int)),
        decreases v.len() - i,
    {
        assert(s@.take(i as int + 1).drop_last() =~= s@.take(i as int));
        if v[i] == '\n' {
            let n = cur.len();
            let line = if n > 0 && cur[n - 1] == '\r' {
                assert(cur@.subrange(0, n - 1) =~= cur@.drop_last());
                string_of_chars(&cur.as_slice()[0..n - 1])
            } else {
                string_of_chars(cur.as_slice())
            };
            let ghost l0 = ls@;
            ls.push(line);
            assert(ls@.map_values(|l: String| l@) =~= l0.map_values(|l: String| l@).push(line@));
            cur = Vec::new();
        } else {
            cur.push(v[i]);
        }
        i = i + 1;
    }
    assert(s@.take(v.len() as int) =~= s@);
    if cur.len() > 0 {
        let ghost l0 = ls@;
        let line = string_of_chars(cur.as_slice());
        ls.push(line);
        assert(ls@.map_values(|l: String| l@) =~= l0.map_values(|l: String| l@).push(cur@));
    }
    ls
}

/// The `enabled:` line for a setting.
pub open spec fn enabled_line(enabled: bool) -> Seq<char> {
    if enabled {
        "enabled: true"@
    } else {
        "enabled: false"@
    }
}

/// The front matter with every line that starts with `enabled:` replaced by
/// the new setting, and the setting appended where no such line was; each
/// line ends with a newline.
pub open spec fn front_matter_with_flag(lines: Seq<Seq<char>>, enabled: bool) -> (Seq<char>, bool)
    decreases lines.len(),
{
    if lines.len() == 0 {
        (Seq::empty(), false)
    } else {
        let (o, found) = front_matter_with_flag(lines.drop_last(), enabled);
        if has_prefix(lines.last(), "enabled:"@) {
            (o + enabled_line(enabled) + "\n"@, true)
        } else {
            (o + lines.last() + "\n"@, found)
        }
    }
}

/// The front matter with the new setting of `enabled`, trimmed: each
/// `enabled:` line replaced, or the setting appended where there was none.
pub open spec fn flagged_front(front: Seq<char>, enabled: bool) -> Seq<char> {
    let (o, found) = front_matter_with_flag(text_lines(front), enabled);
    trimmed(if found { o } else { o + enabled_line(enabled) + "\n"@ })
}

/// A `SKILL.md` rewritten with the given setting of `enabled`: the updated
/// front matter between `---` lines (each on a line of its own), then a
/// blank line and the body.
pub open spec fn markdown_with_flag(markdown: Seq<char>, enabled: bool) -> Result<Seq<char>, Seq<char>> {
    match markdown_sections(markdown) {
        Err(m) => Err(m),
        Ok((front, body)) => Ok("---\n"@ + flagged_front(front, enabled) + "\n---\n\n"@ + body),
    }
}

/// Rewrites the `enabled` setting in the front matter of a `SKILL.md`.
pub fn with_enabled_flag(markdown: &str, enabled: bool) -> (r: AppResult<String>)
    ensures
        match markdown_with_flag(markdown@, enabled) {
            Ok(t) => r matches Ok(s) && s@ == t,
            Err(m) => r matches Err(AppError::Internal(m2)) && m2@ == m,
        },
{
    let (front, body) = match parse_markdown_sections(markdown) {
        Ok(p) => p,
        Err(e) => return Err(e),
    };
    let ls = lines(front.as_str());
    let ghost lv = ls@.map_values(|l: String| l@);
    let mut fm = String::new();
    let mut found = false;
    let mut i: usize = 0;
    while i < ls.len()
        invariant
            0 <= i <= ls.len(),
            lv == ls@.map_values(|l: String| l@),
            (fm@, found) == front_matter_with_flag(lv.take(i as int), enabled),
        decreases ls.len() - i,
    {
        assert(lv.take(i as int + 1).drop_last() =~= lv.take(i as int));
        assert(lv.take(i as int + 1).last() == ls@[i as int]@);
        if starts_with(ls[i].as_str(), "enabled:") {
            if enabled {
                push_str(&mut fm, "enabled: true");
            } else {
                push_str(&mut fm, "enabled: false");
            }
            found = true;
        } else {
            push_str(&mut fm, ls[i].as_str());
        }
        push_str(&mut fm, "\n");
        i = i + 1;
    }
    assert(lv.take(ls.len() as int) =~= lv);
    if !found {
        if enabled {
            push_str(&mut fm, "enabled: true");
        } else {
            push_str(&mut fm, "enabled: false");
        }
        push_str(&mut fm, "\n");
    }
    let t = trim(fm.as_str());
    let mut out = owned("---\n");
    push_str(&mut out, t.as_str());
    push_str(&mut out, "\n---\n\n");
    push_str(&mut out, body.as_str());
    Ok(out)
}

/// The listing entry of a skill directory: the loaded skill's settings
/// where it is loaded, else the directory name, no description, enabled and
/// no tags.
pub fn dir_entry_info(dir_name: String, loaded: Option<&Skill>, dir_path: String, file_size: u64, modified: Option<u64>) -> (r: SkillDirInfo)
    ensures
        r.id == dir_name,
        r.dir_path == dir_path,
        r.file_size == file_size,
        r.modified == modified,
        match loaded {
            Some(k) => r.name == k.name && r.description == k.description && r.enabled == k.enabled && r.tags@ == k.tags@,
            None => r.name == dir_name && r.description@.len() == 0 && r.enabled && r.tags@.len() == 0,
        },
{
    match loaded {
        Some(k) => SkillDirInfo {
            id: dir_name,
            name: k.name.clone(),
            description: k.description.clone(),
            enabled: k.enabled,
            tags: crate::native::ai::skills::copy_strings(&k.tags),
            dir_path,
            file_size,
            modified,
        },
        None => SkillDirInfo {
            name: dir_name.clone(),
            id: dir_name,
            description: String::new(),
            enabled: true,
            tags: Vec::new(),
            dir_path,
            file_size,
            modified,
        },
    }
}

/// The error for an id that no skill has.
pub open spec fn missing_skill(e: AppError, id: Seq<char>) -> bool {
    e matches AppError::Internal(m) && m@ == "Skill not found: "@ + id
}

fn missing(id: &str) -> (r: AppError)
    ensures
        missing_skill(r, id@),
{
    let mut m = owned("Skill not found: ");
    push_str(&mut m, id);
    AppError::Internal(m)
}

/// The skills of the desktop application, by id, and their directory.
pub struct SkillsManager {
    store: SkillStore,
}

impl SkillsManager {
    /// The known skills, in the order in which they were first added.
    pub closed spec fn view(&self) -> Seq<SkillView> {
        self.store.view()
    }

    /// The directory of the skills.
    pub closed spec fn dir(&self) -> Seq<char> {
        self.store.dir()
    }

    /// No two skills share an id.
    pub closed spec fn wf(&self) -> bool {
        self.store.wf()
    }

    /// A manager without skills for the given directory.
    pub fn new(skills_dir: String) -> (r: Self)
        ensures
            r.wf(),
            r.view().len() == 0,
            r.dir() == skills_dir@,
    {
        SkillsManager { store: SkillStore::new(skills_dir) }
    }

    /// Adds a loaded skill, replacing the one with the same id.
    pub fn insert_skill(&mut self, skill: Skill)
        requires
            old(self).wf(),
        ensures
            final(self).wf(),
            final(self).view() == crate::native::ai::skills::with_skill(old(self).view(), skill.skill_view()),
            final(self).dir() == old(self).dir(),
    {
        self.store.insert_skill(skill);
    }

    /// The enabled skills, in order.
    pub fn get_enabled_skills(&self) -> (r: Vec<Skill>)
        ensures
            skill_views(r@) == self.view().filter(|k: SkillView| k.enabled),
    {
        self.store.get_enabled_skills()
    }

    /// All skills, in order; no two have the same id.
    pub fn get_all_skills(&self) -> (r: Vec<Skill>)
        requires
            self.wf(),
        ensures
            skill_views(r@) == self.view(),
            ids_of(skill_views(r@)).no_duplicates(),
    {
        self.store.get_all_skills()
    }

    /// The skill with the given id.
    pub fn get_skill(&self, id: &str) -> (r: Option<Skill>)
        requires
            self.wf(),
        ensures
            !has_skill(self.view(), id@) ==> r is None,
            has_skill(self.view(), id@) ==> (r matches Some(k) && k.skill_view() == self.view()[skill_pos(self.view(), id@)]),
    {
        self.store.get_skill(id)
    }

    /// The directory of the skills.
    pub fn get_skills_dir(&self) -> (r: &str)
        ensures
            r@ == self.dir(),
    {
        self.store.skills_dir()
    }

    /// Sets whether a skill is enabled; the caller then rewrites its
    /// `SKILL.md` with `with_enabled_flag`.
    pub fn toggle_skill(&mut self, id: &str, enabled: bool) -> (r: AppResult<()>)
        requires
            old(self).wf(),
        ensures
            final(self).wf(),
            final(self).dir() == old(self).dir(),
            !has_skill(old(self).view(), id@) ==> (r matches Err(e) && missing_skill(e, id@)) && final(self).view() == old(self).view(),
            has_skill(old(self).view(), id@) ==> {
                let p = skill_pos(old(self).view(), id@);
                &&& r is Ok
                &&& final(self).view() == old(self).view().update(p, SkillView { enabled: enabled, ..old(self).view()[p] })
            },
    {
        match self.store.set_enabled(id, enabled) {
            Ok(()) => Ok(()),
            Err(_) => Err(missing(id)),
        }
    }

    /// Forgets a skill and returns its directory, which the caller deletes.
    pub fn delete_skill(&mut self, id: &str) -> (r: AppResult<String>)
        requires
            old(self).wf(),
        ensures
            final(self).wf(),
            final(self).dir() == old(self).dir(),
            !has_skill(old(self).view(), id@) ==> (r matches Err(e) && missing_skill(e, id@)) && final(self).view() == old(self).view(),
            has_skill(old(self).view(), id@) ==> {
                let p = skill_pos(old(self).view(), id@);
                &&& r matches Ok(d) && d@ == old(self).view()[p].dir_path
                &&& final(self).view() == old(self).view().remove(p)
            },
    {
        match self.store.delete_skill(id) {
            Ok(d) => Ok(d),
            Err(_) => Err(missing(id)),
        }
    }
}

/// A skill as the interface shows it.
#[derive(Debug, Clone)]
pub struct SkillInfo {
    pub id: String,
    pub name: String,
    pub description: String,
    pub enabled: bool,
    pub tags: Vec<String>,
    pub dir_path: String,
}

impl SkillInfo {
    /// What the interface shows of a skill.
    pub fn of(skill: &Skill) -> (r: SkillInfo)
        ensures
            r.id == skill.id,
            r.name == skill.name,
            r.description == skill.description,
            r.enabled == skill.enabled,
            r.tags@ == skill.tags@,
            r.dir_path == skill.dir_path,
    {
        SkillInfo {
            id: skill.id.clone(),
            name: skill.name.clone(),
            description: skill.description.clone(),
            enabled: skill.enabled,
            tags: crate::native::ai::skills::copy_strings(&skill.tags),
            dir_path: skill.dir_path.clone(),
        }
    }
}

/// A request to enable or disable a skill.
#[derive(Debug, Clone)]
pub struct ToggleSkillRequest {
    pub skill_id: String,
    pub enabled: bool,
}

/// A skill imported from Markdown: its id is the kebab-case form of its
/// name, and its content is kept.
pub fn imported_skill(name: String, description: String, enabled: bool, tags: Vec<String>, dir_path: String, markdown: &str) -> (r: Skill)
    ensures
        r.id@ == kebab_case(name@),
        r.name == name,
        r.description == description,
        r.enabled == enabled,
        r.tags@ == tags@,
        r.dir_path == dir_path,
        r.markdown_content matches Some(c) && c@ == markdown@,
{
    let id = to_kebab_case(name.as_str());
    Skill { id, name, description, enabled, tags, dir_path, markdown_content: Some(owned(markdown)) }
}

} // verus!
