//! Skills: instructions kept as `SKILL.md` files, one directory each, and
//! offered to the model as tools.

use vstd::prelude::*;
use crate::error::{AppError, AppResult};
use crate::text::{
    all_ascii, ascii_lower, chars_of, find_from, has_prefix, lowercase_of, occurs_at, owned, push_str, replace, replace_all, starts_with,
    str_eq, string_of_chars, to_lowercase, trim, trim_chars, trimmed,
};

verus! {

/// A skill.
#[derive(Debug)]
pub struct Skill {
    pub id: String,
    pub name: String,
    pub description: String,
    pub enabled: bool,
    pub tags: Vec<String>,
    pub dir_path: String,
    pub markdown_content: Option<String>,
}

/// An identical copy of a list of strings.
pub fn copy_strings(v: &Vec<String>) -> (r: Vec<String>)
    ensures
        r@ == v@,
{
    let mut r: Vec<String> = Vec::new();
    let mut i: usize = 0;
    while i < v.len()
        invariant
            0 <= i <= v.len(),
            r@ == v@.take(i as int),
        decreases v.len() - i,
    {
        r.push(v[i].clone());
        assert(r@ =~= v@.take(i as int + 1));
        i = i + 1;
    }
    assert(v@.take(v.len() as int) =~= v@);
    r
}

/// Abstract content of a skill.
pub struct SkillView {
    pub id: Seq<char>,
    pub name: Seq<char>,
    pub description: Seq<char>,
    pub enabled: bool,
    pub tags: Seq<String>,
    pub dir_path: Seq<char>,
    pub markdown_content: Option<Seq<char>>,
}

impl Skill {
    /// Abstract content of the skill.
    pub open spec fn skill_view(&self) -> SkillView {
        SkillView {
            id: self.id@,
            name: self.name@,
            description: self.description@,
            enabled: self.enabled,
            tags: self.tags@,
            dir_path: self.dir_path@,
            markdown_content: match self.markdown_content {
                Some(c) => Some(c@),
                None => None,
            },
        }
    }

    /// An identical copy of the skill.
    pub fn copy(&self) -> (r: Skill)
        ensures
            r.skill_view() == self.skill_view(),
    {
        Skill {
            id: self.id.clone(),
            name: self.name.clone(),
            description: self.description.clone(),
            enabled: self.enabled,
            tags: copy_strings(&self.tags),
            dir_path: self.dir_path.clone(),
            markdown_content: match &self.markdown_content {
                Some(c) => Some(c.clone()),
                None => None,
            },
        }
    }
}

/// What the front matter of a `SKILL.md` declares.
#[derive(Debug)]
pub struct SkillMetadata {
    pub name: String,
    pub description: String,
    pub enabled: bool,
    pub tags: Vec<String>,
}

/// A skill as the interface lists it.
#[derive(Debug)]
pub struct SkillDirInfo {
    pub id: String,
    pub name: String,
    pub description: String,
    pub enabled: bool,
    pub tags: Vec<String>,
    pub dir_path: String,
    pub file_size: u64,
    pub modified: Option<u64>,
}

/// The YAML between the `---` lines that open a `SKILL.md`: after trimming
/// the text, the part after its leading `---` up to the next `---` (or the
/// end), trimmed. `None` where the trimmed text does not start with `---`.
pub open spec fn front_matter(content: Seq<char>) -> Option<Seq<char>> {
    let t = trimmed(content);
    if !has_prefix(t, "---"@) {
        None
    } else {
        let rest = t.skip(3);
        if exists|e: int| 0 <= e && occurs_at(rest, "---"@, e) {
            let e = choose|e: int| 0 <= e && occurs_at(rest, "---"@, e) && forall|j: int| 0 <= j < e ==> !occurs_at(rest, "---"@, j);
            Some(trimmed(rest.take(e)))
        } else {
            Some(trimmed(rest))
        }
    }
}

/// Extracts the front matter of a `SKILL.md`.
pub fn front_matter_of(content: &str) -> (r: Option<String>)
    ensures
        match front_matter(content@) {
            Some(y) => r matches Some(s) && s@ == y,
            None => r is None,
        },
{
    proof {
        reveal_strlit("---");
    }
    let t = trim(content);
    if !starts_with(t.as_str(), "---") {
        return None;
    }
    let v = chars_of(t.as_str());
    let rest = crate::text::sub_chars(v.as_slice(), 3, v.len());
    let ghost rs = t@.skip(3);
    assert(rest@ =~= rs);
    let sep = chars_of("---");
    match find_from(rest.as_slice(), sep.as_slice(), 0) {
        Some(e) => {
            proof {
                let w = choose|x: int| 0 <= x && occurs_at(rs, "---"@, x) && forall|j: int| 0 <= j < x ==> !occurs_at(rs, "---"@, j);
                if w < e {
                    assert(!occurs_at(rs, "---"@, w));
                }
                if e < w {
                    assert(!occurs_at(rs, "---"@, e as int));
                }
            }
            let part = trim_chars(&rest.as_slice()[0..e]);
            assert(rest@.subrange(0, e as int) =~= rs.take(e as int));
            Some(string_of_chars(part.as_slice()))
        },
        None => {
            let part = trim_chars(rest.as_slice());
            Some(string_of_chars(part.as_slice()))
        },
    }
}

/// The metadata of a skill without front matter: enabled, without tags,
/// named "Unnamed Skill" (when loading) or "Imported Skill" (when importing).
pub fn default_metadata(imported: bool) -> (r: SkillMetadata)
    ensures
        r.name@ == (if imported { "Imported Skill"@ } else { "Unnamed Skill"@ }),
        r.description@ == "No description"@,
        r.enabled,
        r.tags@.len() == 0,
{
    SkillMetadata {
        name: if imported { owned("Imported Skill") } else { owned("Unnamed Skill") },
        description: owned("No description"),
        enabled: true,
        tags: Vec::new(),
    }
}

/// The id of an imported skill: its name in lower case, spaces turned into `-`.
pub open spec fn import_id_of(name: Seq<char>) -> Seq<char> {
    replace_all(lowercase_of(name), " "@, "-"@)
}

/// The id under which an imported skill is kept.
pub fn import_id(name: &str) -> (r: String)
    ensures
        r@ == import_id_of(name@),
        all_ascii(name@) ==> r@ == replace_all(name@.map_values(|c: char| ascii_lower(c)), " "@, "-"@),
{
    proof {
        reveal_strlit(" ");
    }
    let lower = to_lowercase(name);
    replace(lower.as_str(), " ", "-")
}

/// The error for an id that no skill has.
pub open spec fn skill_not_found(r: AppError, id: Seq<char>) -> bool {
    r matches AppError::NotFound(m) && m@ == "Skill "@ + id + " not found"@
}

fn not_found(id: &str) -> (r: AppError)
    ensures
        skill_not_found(r, id@),
{
    let mut m = owned("Skill ");
    push_str(&mut m, id);
    push_str(&mut m, " not found");
    AppError::NotFound(m)
}

/// Ids of a list of skills.
pub open spec fn ids_of(s: Seq<SkillView>) -> Seq<Seq<char>> {
    s.map_values(|k: SkillView| k.id)
}

/// Views of a list of skills.
pub open spec fn skill_views(s: Seq<Skill>) -> Seq<SkillView> {
    s.map_values(|k: Skill| k.skill_view())
}

/// Whether a skill with the given id is known.
pub open spec fn has_skill(s: Seq<SkillView>, id: Seq<char>) -> bool {
    ids_of(s).contains(id)
}

/// Position of the skill with the given id.
pub open spec fn skill_pos(s: Seq<SkillView>, id: Seq<char>) -> int {
    ids_of(s).index_of(id)
}

/// Adding a skill replaces the one with the same id, else appends it.
pub open spec fn with_skill(s: Seq<SkillView>, k: SkillView) -> Seq<SkillView> {
    if has_skill(s, k.id) {
        s.update(skill_pos(s, k.id), k)
    } else {
        s.push(k)
    }
}

/// The skills kept in memory, in the order in which they were added, and the
/// directory that holds them.
pub struct SkillsManager {
    skills: Vec<Skill>,
    skills_dir: String,
}

impl SkillsManager {
    /// The known skills, in the order in which they were first added.
    pub closed spec fn view(&self) -> Seq<SkillView> {
        skill_views(self.skills@)
    }

    /// The directory of the skills.
    pub closed spec fn dir(&self) -> Seq<char> {
        self.skills_dir@
    }

    /// No two skills share an id.
    pub closed spec fn wf(&self) -> bool {
        ids_of(self.view()).no_duplicates()
    }

    /// A manager without skills for the given directory.
    pub fn new(skills_dir: String) -> (r: Self)
        ensures
            r.wf(),
            r.view().len() == 0,
            r.dir() == skills_dir@,
    {
        let r = SkillsManager { skills: Vec::new(), skills_dir };
        assert(ids_of(r.view()) =~= Seq::<Seq<char>>::empty());
        r
    }

    /// The directory of the skills.
    pub fn skills_dir(&self) -> (r: &str)
        ensures
            r@ == self.dir(),
    {
        self.skills_dir.as_str()
    }

    /// Points the manager at another directory and forgets the skills; the
    /// caller loads the skills of the new directory.
    pub fn set_skills_dir(&mut self, new_dir: String)
        ensures
            final(self).wf(),
            final(self).view().len() == 0,
            final(self).dir() == new_dir@,
    {
        self.skills_dir = new_dir;
        self.skills = Vec::new();
        assert(ids_of(self.view()) =~= Seq::<Seq<char>>::empty());
    }

    fn position(&self, id: &str) -> (r: Option<usize>)
        requires
            self.wf(),
        ensures
            match r {
                Some(p) => p < self.skills.len() && self.skills@[p as int].id@ == id@ && p == skill_pos(self.view(), id@)
                    && has_skill(self.view(), id@),
                None => !has_skill(self.view(), id@),
            },
    {
        let mut p: usize = 0;
        while p < self.skills.len()
            invariant
                0 <= p <= self.skills.len(),
                self.wf(),
                forall|q: int| 0 <= q < p ==> self.skills@[q].id@ != id@,
            decreases self.skills.len() - p,
        {
            if str_eq(self.skills[p].id.as_str(), id) {
                proof {
                    let ks = ids_of(self.view());
                    assert(ks[p as int] == id@);
                    assert(ks.contains(id@));
                    let i = ks.index_of(id@);
                    assert(ks[i] == id@);
                }
                return Some(p);
            }
            p = p + 1;
        }
        proof {
            let ks = ids_of(self.view());
            if ks.contains(id@) {
                let i = ks.index_of(id@);
                assert(self.skills@[i].id@ == id@);
            }
        }
        None
    }

    /// Adds a skill, replacing the one with the same id.
    pub fn insert_skill(&mut self, skill: Skill)
        requires
            old(self).wf(),
        ensures
            final(self).wf(),
            final(self).view() == with_skill(old(self).view(), skill.skill_view()),
            final(self).dir() == old(self).dir(),
    {
        let ghost s0 = self.skills@;
        match self.position(skill.id.as_str()) {
            Some(p) => {
                let ghost kv = skill.skill_view();
                self.skills[p] = skill;
                assert(self.view() =~= skill_views(s0).update(p as int, kv));
                assert(ids_of(self.view()) =~= ids_of(skill_views(s0)));
            },
            None => {
                let ghost k = skill.skill_view();
                self.skills.push(skill);
                proof {
                    let ks = ids_of(skill_views(s0));
                    assert(self.view() =~= skill_views(s0).push(k));
                    assert(ids_of(self.view()) =~= ks.push(k.id));
                    assert forall|i: int, j: int|
                        0 <= i < ks.len() + 1 && 0 <= j < ks.len() + 1 && i != j implies ids_of(self.view())[i] != ids_of(self.view())[j] by {
                        if i == ks.len() as int {
                            assert(ks.contains(ks[j]));
                        } else if j == ks.len() as int {
                            assert(ks.contains(ks[i]));
                        }
                    }
                }
            },
        }
    }

    /// The enabled skills, in order.
    pub fn get_enabled_skills(&self) -> (r: Vec<Skill>)
        ensures
            skill_views(r@) == self.view().filter(|k: SkillView| k.enabled),
    {
        let ghost all = self.view();
        let ghost pred = |k: SkillView| k.enabled;
        let mut r: Vec<Skill> = Vec::new();
        let mut i: usize = 0;
        while i < self.skills.len()
            invariant
                0 <= i <= self.skills.len(),
                all == self.view(),
                pred == (|k: SkillView| k.enabled),
                skill_views(r@) == all.take(i as int).filter(pred),
            decreases self.skills.len() - i,
        {
            proof {
                assert(all.take(i as int + 1) =~= all.take(i as int).push(all[i as int]));
                all.take(i as int).lemma_filter_push(all[i as int], pred);
            }
            if self.skills[i].enabled {
                let ghost r0 = r@;
                r.push(self.skills[i].copy());
                assert(skill_views(r@) =~= skill_views(r0).push(all[i as int]));
            }
            i = i + 1;
        }
        assert(all.take(self.skills.len() as int) =~= all);
        r
    }

    /// The content of a skill where it is already loaded; `Ok(None)` where
    /// it must still be read from the skill's directory.
    pub fn cached_content(&self, id: &str) -> (r: AppResult<Option<String>>)
        requires
            self.wf(),
        ensures
            !has_skill(self.view(), id@) ==> (r matches Err(e) && skill_not_found(e, id@)),
            has_skill(self.view(), id@) ==> (r matches Ok(c) && match c {
                Some(x) => self.view()[skill_pos(self.view(), id@)].markdown_content == Some(x@),
                None => self.view()[skill_pos(self.view(), id@)].markdown_content is None,
            }),
    {
        match self.position(id) {
            Some(p) => Ok(match &self.skills[p].markdown_content {
                Some(c) => Some(c.clone()),
                None => None,
            }),
            None => Err(not_found(id)),
        }
    }

    /// Keeps the content read for a skill, so that it is read once.
    pub fn store_content(&mut self, id: &str, content: String) -> (r: AppResult<()>)
        requires
            old(self).wf(),
        ensures
            final(self).wf(),
            final(self).dir() == old(self).dir(),
            !has_skill(old(self).view(), id@) ==> (r matches Err(e) && skill_not_found(e, id@)) && final(self).view() == old(self).view(),
            has_skill(old(self).view(), id@) ==> {
                let p = skill_pos(old(self).view(), id@);
                &&& r is Ok
                &&& final(self).view() == old(self).view().update(p, SkillView { markdown_content: Some(content@), ..old(self).view()[p] })
            },
    {
        match self.position(id) {
            Some(p) => {
                let ghost s0 = self.skills@;
                let mut k = self.skills[p].copy();
                k.markdown_content = Some(content);
                self.skills[p] = k;
                assert(self.view() =~= skill_views(s0).update(p as int, SkillView { markdown_content: Some(content@), ..skill_views(s0)[p as int] }));
                assert(ids_of(self.view()) =~= ids_of(skill_views(s0)));
                Ok(())
            },
            None => Err(not_found(id)),
        }
    }

    /// Sets whether a skill is enabled.
    pub fn set_enabled(&mut self, id: &str, enabled: bool) -> (r: AppResult<()>)
        requires
            old(self).wf(),
        ensures
            final(self).wf(),
            final(self).dir() == old(self).dir(),
            !has_skill(old(self).view(), id@) ==> (r matches Err(e) && skill_not_found(e, id@)) && final(self).view() == old(self).view(),
            has_skill(old(self).view(), id@) ==> {
                let p = skill_pos(old(self).view(), id@);
                &&& r is Ok
                &&& final(self).view() == old(self).view().update(p, SkillView { enabled: enabled, ..old(self).view()[p] })
            },
    {
        match self.position(id) {
            Some(p) => {
                let ghost s0 = self.skills@;
                let mut k = self.skills[p].copy();
                k.enabled = enabled;
                self.skills[p] = k;
                assert(self.view() =~= skill_views(s0).update(p as int, SkillView { enabled: enabled, ..skill_views(s0)[p as int] }));
                assert(ids_of(self.view()) =~= ids_of(skill_views(s0)));
                Ok(())
            },
            None => Err(not_found(id)),
        }
    }

    /// The skill with the given id.
    pub fn get_skill(&self, id: &str) -> (r: Option<Skill>)
        requires
            self.wf(),
        ensures
            !has_skill(self.view(), id@) ==> r is None,
            has_skill(self.view(), id@) ==> (r matches Some(k) && k.skill_view() == self.view()[skill_pos(self.view(), id@)]),
    {
        match self.position(id) {
            Some(p) => Some(self.skills[p].copy()),
            None => None,
        }
    }

    /// All skills, in order; no two have the same id.
    pub fn get_all_skills(&self) -> (r: Vec<Skill>)
        requires
            self.wf(),
        ensures
            skill_views(r@) == self.view(),
            ids_of(skill_views(r@)).no_duplicates(),
    {
        let mut r: Vec<Skill> = Vec::new();
        let mut i: usize = 0;
        while i < self.skills.len()
            invariant
                0 <= i <= self.skills.len(),
                skill_views(r@) == self.view().take(i as int),
            decreases self.skills.len() - i,
        {
            let ghost r0 = r@;
            r.push(self.skills[i].copy());
            assert(skill_views(r@) =~= skill_views(r0).push(self.view()[i as int]));
            assert(self.view().take(i as int + 1) =~= self.view().take(i as int).push(self.view()[i as int]));
            i = i + 1;
        }
        assert(self.view().take(self.skills.len() as int) =~= self.view());
        r
    }

    /// Flips whether a skill is enabled and returns the new setting.
    pub fn toggle_skill(&mut self, id: &str) -> (r: AppResult<bool>)
        requires
            old(self).wf(),
        ensures
            final(self).wf(),
            final(self).dir() == old(self).dir(),
            final(self).view() == toggled(old(self).view(), id@),
            !has_skill(old(self).view(), id@) ==> (r matches Err(e) && skill_not_found(e, id@)),
            has_skill(old(self).view(), id@) ==> r == Ok::<bool, AppError>(
                !old(self).view()[skill_pos(old(self).view(), id@)].enabled,
            ),
    {
        match self.position(id) {
            Some(p) => {
                let ghost s0 = self.skills@;
                let mut k = self.skills[p].copy();
                k.enabled = !k.enabled;
                let e = k.enabled;
                self.skills[p] = k;
                assert(self.view() =~= skill_views(s0).update(p as int, SkillView { enabled: e, ..skill_views(s0)[p as int] }));
                assert(ids_of(self.view()) =~= ids_of(skill_views(s0)));
                Ok(e)
            },
            None => Err(not_found(id)),
        }
    }

    /// Forgets a skill and returns its directory, which the caller deletes.
    pub fn delete_skill(&mut self, id: &str) -> (r: AppResult<String>)
        requires
            old(self).wf(),
        ensures
            final(self).wf(),
            final(self).dir() == old(self).dir(),
            !has_skill(old(self).view(), id@) ==> (r matches Err(e) && skill_not_found(e, id@)) && final(self).view() == old(self).view(),
            has_skill(old(self).view(), id@) ==> {
                let p = skill_pos(old(self).view(), id@);
                &&& r matches Ok(d) && d@ == old(self).view()[p].dir_path
                &&& final(self).view() == old(self).view().remove(p)
                &&& !has_skill(final(self).view(), id@)
            },
    {
        match self.position(id) {
            Some(p) => {
                let ghost s0 = self.skills@;
                let k = self.skills.remove(p);
                proof {
                    let ks = ids_of(skill_views(s0));
                    assert(self.view() =~= skill_views(s0).remove(p as int));
                    assert(ids_of(self.view()) =~= ks.remove(p as int));
                    assert forall|i: int, j: int|
                        0 <= i < ks.len() - 1 && 0 <= j < ks.len() - 1 && i != j implies ids_of(self.view())[i] != ids_of(self.view())[j] by {
                        let i0 = if i < p { i } else { i + 1 };
                        let j0 = if j < p { j } else { j + 1 };
                        assert(ids_of(self.view())[i] == ks[i0]);
                        assert(ids_of(self.view())[j] == ks[j0]);
                    }
                    if ids_of(self.view()).contains(id@) {
                        let q = ids_of(self.view()).index_of(id@);
                        let q0 = if q < p { q } else { q + 1 };
                        assert(ks[q0] == id@);
                        assert(ks[p as int] == id@);
                    }
                }
                Ok(k.dir_path)
            },
            None => Err(not_found(id)),
        }
    }
}

/// The skills after the one with the given id is toggled (unchanged where
/// no skill has that id).
pub open spec fn toggled(s: Seq<SkillView>, id: Seq<char>) -> Seq<SkillView> {
    if has_skill(s, id) {
        let p = skill_pos(s, id);
        s.update(p, SkillView { enabled: !s[p].enabled, ..s[p] })
    } else {
        s
    }
}

/// Toggling a skill twice leaves the skills as they were.
pub proof fn lemma_toggle_twice(s: Seq<SkillView>, id: Seq<char>)
    ensures
        toggled(toggled(s, id), id) == s,
{
    if has_skill(s, id) {
        let p = skill_pos(s, id);
        let once = toggled(s, id);
        assert(ids_of(once) =~= ids_of(s));
        let twice = toggled(once, id);
        assert(twice[p] == s[p]);
        assert(twice =~= s);
    }
}

/// The listing entry of a skill, with the size and modification time of its
/// `SKILL.md`.
pub fn dir_info(skill: &Skill, file_size: u64, modified: Option<u64>) -> (r: SkillDirInfo)
    ensures
        r.id == skill.id,
        r.name == skill.name,
        r.description == skill.description,
        r.enabled == skill.enabled,
        r.tags@ == skill.tags@,
        r.dir_path == skill.dir_path,
        r.file_size == file_size,
        r.modified == modified,
{
    SkillDirInfo {
        id: skill.id.clone(),
        name: skill.name.clone(),
        description: skill.description.clone(),
        enabled: skill.enabled,
        tags: copy_strings(&skill.tags),
        dir_path: skill.dir_path.clone(),
        file_size,
        modified,
    }
}

} // verus!
