//! Built-in skills: named instruction sets that narrow an agent run to the
//! tools they require.

use vstd::prelude::*;

use crate::errors::RuntimeError;
use crate::protocol::agent_run::RunSkill;
use crate::protocol::skill::Metadata;
use crate::text::str_eq;

verus! {

/// The instructions that every run starts from.
pub open spec fn base_instructions() -> Seq<char> {
    "You are Yukin, a concise and helpful desktop assistant. Follow the user's request, use only the tools made available for this run, and never claim that a tool action succeeded unless its result confirms success."@
}

/// The number of built-in skills.
pub open spec fn skill_count() -> int {
    2
}

pub open spec fn skill_id(k: int) -> Seq<char> {
    if k == 0 {
        "time_assistant"@
    } else {
        "note_writer"@
    }
}

pub open spec fn skill_version(k: int) -> Seq<char> {
    "1"@
}

pub open spec fn skill_title(k: int) -> Seq<char> {
    if k == 0 {
        "时间助手"@
    } else {
        "文本笔记"@
    }
}

pub open spec fn skill_description(k: int) -> Seq<char> {
    if k == 0 {
        "查询当前日期与时间，并按用户指定的时区回答。"@
    } else {
        "整理文本内容，并在明确要求时保存为本地笔记。"@
    }
}

pub open spec fn skill_instructions(k: int) -> Seq<char> {
    if k == 0 {
        "When the user asks for the current date or time, call current_time with the relevant UTC offset instead of relying on memory. State the timezone or UTC offset in the answer."@
    } else {
        "Help the user prepare concise plain-text notes. Call save_text_note only when the user explicitly asks to save a note, and explain that saving requires approval."@
    }
}

pub open spec fn skill_required_tools(k: int) -> Seq<Seq<char>> {
    if k == 0 {
        seq!["current_time"@]
    } else {
        seq!["save_text_note"@]
    }
}

/// The built-in skill with this id, if any.
pub open spec fn skill_index_of(id: Seq<char>) -> Option<int> {
    if id == skill_id(0) {
        Some(0)
    } else if id == skill_id(1) {
        Some(1)
    } else {
        None
    }
}

/// Whether some string of `v` has the characters `t`.
pub open spec fn contains_text(v: Seq<String>, t: Seq<char>) -> bool {
    exists|i: int| 0 <= i < v.len() && (#[trigger] v[i])@ == t
}

/// The first required tool of skill `k`, from index `from` on, that is not
/// available.
pub open spec fn first_missing_tool(tools: Seq<Seq<char>>, available: Seq<String>) -> Option<
    Seq<char>,
>
    decreases tools.len(),
{
    if tools.len() == 0 {
        None
    } else if !contains_text(available, tools[0]) {
        Some(tools[0])
    } else {
        first_missing_tool(tools.drop_first(), available)
    }
}

/// The outcome of resolving skill ids, as indices of built-in skills.
pub enum SkillResolution {
    Selected(Seq<int>),
    NotFound(Seq<char>),
    ToolUnavailable(int, Seq<char>),
}

/// Resolves the ids in order: a repeated id is skipped, an unknown id or a
/// skill with an unavailable tool stops the resolution.
pub open spec fn resolve_steps(ids: Seq<Seq<char>>, available: Seq<String>, selected: Seq<int>) -> SkillResolution
    decreases ids.len(),
{
    if ids.len() == 0 {
        SkillResolution::Selected(selected)
    } else {
        match skill_index_of(ids[0]) {
            None => SkillResolution::NotFound(ids[0]),
            Some(k) => if selected.contains(k) {
                resolve_steps(ids.drop_first(), available, selected)
            } else {
                match first_missing_tool(skill_required_tools(k), available) {
                    Some(tool) => SkillResolution::ToolUnavailable(k, tool),
                    None => resolve_steps(ids.drop_first(), available, selected.push(k)),
                }
            },
        }
    }
}

/// The instruction section that a selected skill adds.
pub open spec fn skill_section(k: int) -> Seq<char> {
    "\n\nSelected skill: "@ + skill_title(k) + "\n"@ + skill_instructions(k)
}

pub open spec fn skill_sections(selected: Seq<int>) -> Seq<char>
    decreases selected.len(),
{
    if selected.len() == 0 {
        Seq::empty()
    } else {
        skill_sections(selected.drop_last()) + skill_section(selected.last())
    }
}

/// Whether `tool` is required by one of the selected skills.
pub open spec fn required_by(selected: Seq<int>, tool: Seq<char>) -> bool {
    exists|j: int| 0 <= j < selected.len() && skill_required_tools(#[trigger] selected[j]).contains(tool)
}

pub open spec fn no_duplicate_texts(v: Seq<String>) -> bool {
    forall|i: int, j: int| 0 <= i < j < v.len() ==> v[i]@ != v[j]@
}

/// The instructions, tools and skills of a run.
#[derive(Debug, Clone, PartialEq, Eq)]
pub struct ResolvedSkills {
    pub instructions: String,
    pub allowed_tools: Vec<String>,
    pub selected: Vec<RunSkill>,
}

/// One built-in skill.
pub struct SkillDefinition {
    pub id: &'static str,
    pub version: &'static str,
    pub title: &'static str,
    pub description: &'static str,
    pub instructions: &'static str,
    pub required_tools: Vec<&'static str>,
}

fn skill_definition(k: usize) -> (d: SkillDefinition)
    requires
        k < skill_count(),
    ensures
        d.id@ == skill_id(k as int),
        d.version@ == skill_version(k as int),
        d.title@ == skill_title(k as int),
        d.description@ == skill_description(k as int),
        d.instructions@ == skill_instructions(k as int),
        d.required_tools@.len() == skill_required_tools(k as int).len(),
        forall|t: int|
            0 <= t < d.required_tools@.len() ==> (#[trigger] d.required_tools@[t])@
                == skill_required_tools(k as int)[t],
{
    if k == 0 {
        let mut tools: Vec<&'static str> = Vec::new();
        tools.push("current_time");
        SkillDefinition {
            id: "time_assistant",
            version: "1",
            title: "时间助手",
            description: "查询当前日期与时间，并按用户指定的时区回答。",
            instructions: "When the user asks for the current date or time, call current_time with the relevant UTC offset instead of relying on memory. State the timezone or UTC offset in the answer.",
            required_tools: tools,
        }
    } else {
        let mut tools: Vec<&'static str> = Vec::new();
        tools.push("save_text_note");
        SkillDefinition {
            id: "note_writer",
            version: "1",
            title: "文本笔记",
            description: "整理文本内容，并在明确要求时保存为本地笔记。",
            instructions: "Help the user prepare concise plain-text notes. Call save_text_note only when the user explicitly asks to save a note, and explain that saving requires approval.",
            required_tools: tools,
        }
    }
}

/// Whether some string of `v` has the characters of `t`.
pub fn vec_contains_text(v: &Vec<String>, t: &str) -> (r: bool)
    ensures
        r == contains_text(v@, t@),
{
    let mut i: usize = 0;
    while i < v.len()
        invariant
            i <= v@.len(),
            forall|j: int| 0 <= j < i ==> (#[trigger] v@[j])@ != t@,
        decreases v@.len() - i,
    {
        if str_eq(v[i].as_str(), t) {
            return true;
        }
        i = i + 1;
    }
    false
}

/// The registry of built-in skills.
pub struct SkillRegistry;

impl SkillRegistry {
    /// The metadata of every built-in skill, in order.
    pub fn list() -> (r: Vec<Metadata>)
        ensures
            r@.len() == skill_count(),
            forall|k: int|
                0 <= k < skill_count() ==> {
                    &&& (#[trigger] r@[k]).id@ == skill_id(k)
                    &&& r@[k].version@ == skill_version(k)
                    &&& r@[k].title@ == skill_title(k)
                    &&& r@[k].description@ == skill_description(k)
                    &&& r@[k].required_tools@.len() == skill_required_tools(k).len()
                    &&& forall|t: int|
                        0 <= t < skill_required_tools(k).len() ==> (
                        #[trigger] r@[k].required_tools@[t])@ == skill_required_tools(k)[t]
                },
    {
        let mut r: Vec<Metadata> = Vec::new();
        let mut k: usize = 0;
        while k < 2
            invariant
                k <= 2,
                r@.len() == k,
                forall|i: int|
                    0 <= i < k ==> {
                        &&& (#[trigger] r@[i]).id@ == skill_id(i)
                        &&& r@[i].version@ == skill_version(i)
                        &&& r@[i].title@ == skill_title(i)
                        &&& r@[i].description@ == skill_description(i)
                        &&& r@[i].required_tools@.len() == skill_required_tools(i).len()
                        &&& forall|t: int|
                            0 <= t < skill_required_tools(i).len() ==> (
                            #[trigger] r@[i].required_tools@[t])@ == skill_required_tools(i)[t]
                    },
            decreases 2 - k,
        {
            let d = skill_definition(k);
            let mut tools: Vec<String> = Vec::new();
            let mut t: usize = 0;
            while t < d.required_tools.len()
                invariant
                    t <= d.required_tools@.len(),
                    tools@.len() == t,
                    forall|u: int|
                        0 <= u < t ==> (#[trigger] tools@[u])@ == d.required_tools@[u]@,
                decreases d.required_tools@.len() - t,
            {
                tools.push(d.required_tools[t].to_owned());
                t = t + 1;
            }
            r.push(
                Metadata {
                    id: d.id.to_owned(),
                    version: d.version.to_owned(),
                    title: d.title.to_owned(),
                    description: d.description.to_owned(),
                    required_tools: tools,
                },
            );
            k = k + 1;
        }
        r
    }
}


pub open spec fn texts_of(v: Seq<String>) -> Seq<Seq<char>> {
    v.map_values(|s: String| s@)
}

/// What a successful resolution holds for the selected skills `selected`.
pub open spec fn resolved_matches(res: ResolvedSkills, selected: Seq<int>) -> bool {
    &&& res.instructions@ == base_instructions() + skill_sections(selected)
    &&& forall|t: Seq<char>| contains_text(res.allowed_tools@, t) <==> required_by(selected, t)
    &&& no_duplicate_texts(res.allowed_tools@)
    &&& res.selected@.len() == selected.len()
    &&& forall|j: int|
        0 <= j < selected.len() ==> (#[trigger] res.selected@[j]).id@ == skill_id(selected[j])
            && res.selected@[j].version@ == skill_version(selected[j])
}

fn find_skill(id: &str) -> (r: Option<usize>)
    ensures
        match skill_index_of(id@) {
            Some(k) => r == Some(k as usize),
            None => r is None,
        },
{
    if str_eq(id, "time_assistant") {
        Some(0)
    } else if str_eq(id, "note_writer") {
        Some(1)
    } else {
        None
    }
}

fn copy_texts(v: &Vec<String>) -> (r: Vec<String>)
    ensures
        r@ == v@,
{
    let mut r: Vec<String> = Vec::new();
    let mut i: usize = 0;
    while i < v.len()
        invariant
            i <= v@.len(),
            r@ == v@.take(i as int),
        decreases v@.len() - i,
    {
        r.push(v[i].clone());
        assert(v@.take(i as int).push(v@[i as int]) =~= v@.take(i + 1));
        i = i + 1;
    }
    assert(v@.take(v@.len() as int) =~= v@);
    r
}

/// The texts of `v`, each once, in the order they first occur.
fn distinct_texts(v: &Vec<String>) -> (r: Vec<String>)
    ensures
        no_duplicate_texts(r@),
        forall|t: Seq<char>| contains_text(r@, t) <==> contains_text(v@, t),
{
    let mut r: Vec<String> = Vec::new();
    let mut i: usize = 0;
    while i < v.len()
        invariant
            i <= v@.len(),
            no_duplicate_texts(r@),
            forall|t: Seq<char>| contains_text(r@, t) <==> contains_text(v@.take(i as int), t),
        decreases v@.len() - i,
    {
        let ghost before = r@;
        assert forall|t: Seq<char>| contains_text(v@.take(i + 1), t) <==> (contains_text(
            v@.take(i as int),
            t,
        ) || v@[i as int]@ == t) by {
            if contains_text(v@.take(i + 1), t) {
                let j = choose|j: int| 0 <= j < i + 1 && (#[trigger] v@.take(i + 1)[j])@ == t;
                if j < i {
                    assert(v@.take(i as int)[j] == v@.take(i + 1)[j]);
                }
            }
            if contains_text(v@.take(i as int), t) {
                let j = choose|j: int| 0 <= j < i && (#[trigger] v@.take(i as int)[j])@ == t;
                assert(v@.take(i + 1)[j] == v@.take(i as int)[j]);
            }
            if v@[i as int]@ == t {
                assert(v@.take(i + 1)[i as int] == v@[i as int]);
            }
        }
        if !vec_contains_text(&r, v[i].as_str()) {
            let s = v[i].clone();
            r.push(s);
            assert forall|t: Seq<char>| contains_text(r@, t) <==> (contains_text(before, t)
                || v@[i as int]@ == t) by {
                if contains_text(r@, t) {
                    let j = choose|j: int| 0 <= j < r@.len() && (#[trigger] r@[j])@ == t;
                    if j < before.len() {
                        assert(before[j] == r@[j]);
                    }
                }
                if contains_text(before, t) {
                    let j = choose|j: int| 0 <= j < before.len() && (#[trigger] before[j])@ == t;
                    assert(r@[j] == before[j]);
                }
                if v@[i as int]@ == t {
                    assert(r@[before.len() as int]@ == t);
                }
            }
            assert forall|a: int, b: int| 0 <= a < b < r@.len() implies r@[a]@ != r@[b]@ by {
                if b < before.len() {
                    assert(r@[a] == before[a] && r@[b] == before[b]);
                } else {
                    assert(r@[a] == before[a]);
                    assert(!contains_text(before, v@[i as int]@));
                }
            }
        } else {
            assert(contains_text(r@, v@[i as int]@));
        }
        assert forall|t: Seq<char>| contains_text(r@, t) <==> contains_text(v@.take(i + 1), t) by {
            assert(contains_text(v@.take(i + 1), t) == (contains_text(v@.take(i as int), t)
                || v@[i as int]@ == t));
            assert(contains_text(before, t) == contains_text(v@.take(i as int), t));
            if contains_text(before, v@[i as int]@) {
                assert(r@ == before);
            } else {
                assert(contains_text(r@, t) == (contains_text(before, t) || v@[i as int]@ == t));
            }
        }
        i = i + 1;
    }
    assert(v@.take(v@.len() as int) =~= v@);
    r
}

proof fn lemma_first_missing_step(tools: Seq<Seq<char>>, available: Seq<String>, t: int)
    requires
        0 <= t < tools.len(),
        contains_text(available, tools[t]),
    ensures
        first_missing_tool(tools.skip(t), available) == first_missing_tool(tools.skip(t + 1), available),
{
    assert(tools.skip(t).drop_first() =~= tools.skip(t + 1));
}

impl SkillRegistry {
    /// Resolves the skills selected for a run. With no selection the run
    /// keeps every available tool and the base instructions. Otherwise each
    /// distinct skill, in order, adds its instructions and its required
    /// tools, and the run may use only those tools; an unknown skill or a
    /// required tool that is not available fails the resolution.
    #[verifier::loop_isolation(false)]
    pub fn resolve(skill_ids: &Vec<String>, available_tools: &Vec<String>) -> (r: Result<
        ResolvedSkills,
        RuntimeError,
    >)
        ensures
            skill_ids@.len() == 0 ==> (r matches Ok(res) && res.instructions@ == base_instructions()
                && (forall|t: Seq<char>|
                contains_text(res.allowed_tools@, t) <==> contains_text(available_tools@, t))
                && no_duplicate_texts(res.allowed_tools@) && res.selected@.len() == 0),
            skill_ids@.len() > 0 ==> match resolve_steps(
                texts_of(skill_ids@),
                available_tools@,
                Seq::empty(),
            ) {
                SkillResolution::Selected(selected) => r matches Ok(res) && resolved_matches(
                    res,
                    selected,
                ),
                SkillResolution::NotFound(id) => r matches Err(RuntimeError::SkillNotFound(s))
                    && s@ == id,
                SkillResolution::ToolUnavailable(k, tool) => r matches Err(
                    RuntimeError::SkillToolUnavailable { skill, tool: t },
                ) && skill@ == skill_id(k) && t@ == tool,
            },
    {
        if skill_ids.len() == 0 {
            return Ok(
                ResolvedSkills {
                    instructions: "You are Yukin, a concise and helpful desktop assistant. Follow the user's request, use only the tools made available for this run, and never claim that a tool action succeeded unless its result confirms success.".to_owned(),
                    allowed_tools: distinct_texts(available_tools),
                    selected: Vec::new(),
                },
            );
        }
        let ghost ids = texts_of(skill_ids@);
        let mut instructions = "You are Yukin, a concise and helpful desktop assistant. Follow the user's request, use only the tools made available for this run, and never claim that a tool action succeeded unless its result confirms success.".to_owned();
        let mut allowed_tools: Vec<String> = Vec::new();
        let mut selected: Vec<RunSkill> = Vec::new();
        let mut chosen: Vec<usize> = Vec::new();
        let ghost sel: Seq<int> = Seq::empty();
        let mut i: usize = 0;
        assert(ids.skip(0) =~= ids);
        while i < skill_ids.len()
            invariant
                ids == texts_of(skill_ids@),
                i <= skill_ids@.len(),
                resolve_steps(ids, available_tools@, Seq::empty()) == resolve_steps(
                    ids.skip(i as int),
                    available_tools@,
                    sel,
                ),
                chosen@.len() == sel.len(),
                forall|j: int| 0 <= j < sel.len() ==> #[trigger] chosen@[j] as int == sel[j],
                forall|j: int| 0 <= j < sel.len() ==> 0 <= #[trigger] sel[j] < skill_count(),
                resolved_matches(
                    ResolvedSkills { instructions, allowed_tools, selected },
                    sel,
                ),
            decreases skill_ids@.len() - i,
        {
            let id = skill_ids[i].as_str();
            let ghost rest = ids.skip(i as int);
            assert(rest[0] == id@);
            assert(rest.drop_first() =~= ids.skip(i + 1));
            let found = find_skill(id);
            let k = match found {
                None => {
                    return Err(RuntimeError::SkillNotFound(skill_ids[i].clone()));
                },
                Some(k) => k,
            };
            let mut seen = false;
            let mut c: usize = 0;
            while c < chosen.len()
                invariant
                    c <= chosen@.len(),
                    seen == (exists|j: int| 0 <= j < c && chosen@[j] == k),
                decreases chosen@.len() - c,
            {
                if chosen[c] == k {
                    seen = true;
                }
                c = c + 1;
            }
            assert(seen == sel.contains(k as int)) by {
                if seen {
                    let j = choose|j: int| 0 <= j < chosen@.len() && chosen@[j] == k;
                    assert(sel[j] == k as int);
                }
                if sel.contains(k as int) {
                    let j = choose|j: int| 0 <= j < sel.len() && sel[j] == k as int;
                    assert(chosen@[j] == k);
                }
            }
            if !seen {
                let d = skill_definition(k);
                let ghost tools = skill_required_tools(k as int);
                assert(d.required_tools@.len() == tools.len());
                let mut t: usize = 0;
                assert(tools.skip(0) =~= tools);
                while t < d.required_tools.len()
                    invariant
                        t <= d.required_tools@.len(),
                        d.required_tools@.len() == tools.len(),
                        forall|u: int|
                            0 <= u < d.required_tools@.len() ==> (
                            #[trigger] d.required_tools@[u])@ == tools[u],
                        first_missing_tool(tools, available_tools@) == first_missing_tool(
                            tools.skip(t as int),
                            available_tools@,
                        ),
                    decreases d.required_tools@.len() - t,
                {
                    let tool = d.required_tools[t];
                    if !vec_contains_text(available_tools, tool) {
                        assert(tools.skip(t as int)[0] == tools[t as int]);
                        return Err(
                            RuntimeError::SkillToolUnavailable {
                                skill: d.id.to_owned(),
                                tool: tool.to_owned(),
                            },
                        );
                    }
                    proof {
                        lemma_first_missing_step(tools, available_tools@, t as int);
                    }
                    t = t + 1;
                }
                assert(tools.skip(tools.len() as int) =~= Seq::<Seq<char>>::empty());
                let ghost old_instructions = instructions@;
                instructions.append("\n\nSelected skill: ");
                instructions.append(d.title);
                instructions.append("\n");
                instructions.append(d.instructions);
                assert(instructions@ =~= old_instructions + skill_section(k as int));
                let ghost old_allowed = allowed_tools@;
                let mut t: usize = 0;
                while t < d.required_tools.len()
                    invariant
                        t <= d.required_tools@.len(),
                        d.required_tools@.len() == tools.len(),
                        forall|u: int|
                            0 <= u < d.required_tools@.len() ==> (
                            #[trigger] d.required_tools@[u])@ == tools[u],
                        no_duplicate_texts(allowed_tools@),
                        forall|x: Seq<char>|
                            contains_text(allowed_tools@, x) <==> (contains_text(old_allowed, x)
                                || tools.take(t as int).contains(x)),
                    decreases d.required_tools@.len() - t,
                {
                    let tool = d.required_tools[t];
                    let ghost before = allowed_tools@;
                    if !vec_contains_text(&allowed_tools, tool) {
                        allowed_tools.push(tool.to_owned());
                        assert forall|x: Seq<char>|
                            contains_text(allowed_tools@, x) <==> (contains_text(before, x) || x
                                == tool@) by {
                            if contains_text(allowed_tools@, x) {
                                let j = choose|j: int|
                                    0 <= j < allowed_tools@.len() && (#[trigger] allowed_tools@[j])@
                                        == x;
                                if j < before.len() {
                                    assert(before[j] == allowed_tools@[j]);
                                }
                            }
                            if contains_text(before, x) {
                                let j = choose|j: int| 0 <= j < before.len() && (#[trigger] before[j])@ == x;
                                assert(allowed_tools@[j] == before[j]);
                            }
                            if x == tool@ {
                                assert(allowed_tools@[before.len() as int]@ == x);
                            }
                        }
                    }
                    assert(contains_text(before, tool@) ==> contains_text(allowed_tools@, tool@));
                    assert(tools.take(t + 1) =~= tools.take(t as int).push(tools[t as int]));
                    assert(forall|x: Seq<char>| #[trigger] tools.take(t + 1).contains(x) <==> (tools.take(t as int).contains(x) || x == tools[t as int]));
                    t = t + 1;
                }
                assert(tools.take(tools.len() as int) =~= tools);
                selected.push(RunSkill { id: d.id.to_owned(), version: d.version.to_owned() });
                chosen.push(k);
                let ghost new_sel = sel.push(k as int);
                assert(new_sel.drop_last() =~= sel);
                assert forall|x: Seq<char>|
                    contains_text(allowed_tools@, x) <==> required_by(new_sel, x) by {
                    if required_by(new_sel, x) {
                        let j = choose|j: int|
                            0 <= j < new_sel.len() && skill_required_tools(
                                #[trigger] new_sel[j],
                            ).contains(x);
                        if j < sel.len() {
                            assert(sel[j] == new_sel[j]);
                        }
                    }
                    if required_by(sel, x) {
                        let j = choose|j: int|
                            0 <= j < sel.len() && skill_required_tools(#[trigger] sel[j]).contains(
                                x,
                            );
                        assert(new_sel[j] == sel[j]);
                    }
                    if tools.contains(x) {
                        assert(new_sel[sel.len() as int] == k as int);
                    }
                }
                assert(skill_sections(new_sel) == skill_sections(sel) + skill_section(k as int));
                assert(instructions@ =~= base_instructions() + skill_sections(new_sel));
                assert forall|j: int| 0 <= j < new_sel.len() implies (#[trigger] selected@[j]).id@ == skill_id(new_sel[j])
                    && selected@[j].version@ == skill_version(new_sel[j]) by {
                    if j < sel.len() {
                        assert(new_sel[j] == sel[j]);
                    }
                }
                proof {
                    sel = new_sel;
                }
            }
            i = i + 1;
        }
        assert(ids.skip(skill_ids@.len() as int) =~= Seq::<Seq<char>>::empty());
        Ok(ResolvedSkills { instructions, allowed_tools, selected })
    }
}

/// Whether every tool that skill `k` requires is available.
pub open spec fn skill_tools_available(k: int, available: Seq<String>) -> bool {
    forall|t: Seq<char>| skill_required_tools(k).contains(t) ==> contains_text(available, t)
}

proof fn lemma_nothing_missing(tools: Seq<Seq<char>>, available: Seq<String>)
    requires
        first_missing_tool(tools, available) is None,
    ensures
        forall|t: Seq<char>| tools.contains(t) ==> contains_text(available, t),
    decreases tools.len(),
{
    if tools.len() > 0 {
        lemma_nothing_missing(tools.drop_first(), available);
        assert forall|t: Seq<char>| tools.contains(t) implies contains_text(available, t) by {
            let i = choose|i: int| 0 <= i < tools.len() && tools[i] == t;
            if i > 0 {
                assert(tools.drop_first()[i - 1] == t);
            }
        }
    }
}

proof fn lemma_resolution_keeps_available(
    ids: Seq<Seq<char>>,
    available: Seq<String>,
    selected: Seq<int>,
    chosen: Seq<int>,
)
    requires
        forall|j: int| 0 <= j < selected.len() ==> skill_tools_available(#[trigger] selected[j], available),
        resolve_steps(ids, available, selected) == SkillResolution::Selected(chosen),
    ensures
        forall|j: int| 0 <= j < chosen.len() ==> skill_tools_available(#[trigger] chosen[j], available),
    decreases ids.len(),
{
    if ids.len() > 0 {
        match skill_index_of(ids[0]) {
            None => {},
            Some(k) => {
                if selected.contains(k) {
                    lemma_resolution_keeps_available(ids.drop_first(), available, selected, chosen);
                } else if first_missing_tool(skill_required_tools(k), available) is None {
                    lemma_nothing_missing(skill_required_tools(k), available);
                    let next = selected.push(k);
                    assert forall|j: int| 0 <= j < next.len() implies skill_tools_available(
                        #[trigger] next[j],
                        available,
                    ) by {
                        if j < selected.len() {
                            assert(next[j] == selected[j]);
                        }
                    }
                    lemma_resolution_keeps_available(ids.drop_first(), available, next, chosen);
                }
            },
        }
    }
}

/// A run never gets a tool that was not available: the tools that a
/// resolution allows are among the available ones.
pub proof fn lemma_allowed_tools_are_available(
    ids: Seq<Seq<char>>,
    available: Seq<String>,
    chosen: Seq<int>,
    resolved: ResolvedSkills,
    t: Seq<char>,
)
    requires
        resolve_steps(ids, available, Seq::empty()) == SkillResolution::Selected(chosen),
        resolved_matches(resolved, chosen),
        contains_text(resolved.allowed_tools@, t),
    ensures
        contains_text(available, t),
{
    lemma_resolution_keeps_available(ids, available, Seq::empty(), chosen);
    assert(required_by(chosen, t));
    let j = choose|j: int| 0 <= j < chosen.len() && skill_required_tools(#[trigger] chosen[j]).contains(t);
    assert(skill_tools_available(chosen[j], available));
}

/// Whether the id at `i` is already settled when the resolution reaches it:
/// an earlier id is the same, or it names a skill already selected.
pub open spec fn repeated_at(ids: Seq<Seq<char>>, selected: Seq<int>, i: int) -> bool {
    (exists|j: int| 0 <= j < i && #[trigger] ids[j] == ids[i]) || (skill_index_of(ids[i]) matches Some(
        k,
    ) && selected.contains(k))
}

proof fn lemma_repeated_id_changes_nothing(
    ids: Seq<Seq<char>>,
    available: Seq<String>,
    selected: Seq<int>,
    i: int,
)
    requires
        0 <= i < ids.len(),
        repeated_at(ids, selected, i),
    ensures
        resolve_steps(ids, available, selected) == resolve_steps(ids.remove(i), available, selected),
    decreases ids.len(),
{
    let rest = ids.remove(i);
    if i == 0 {
        assert(rest =~= ids.drop_first());
    } else {
        assert(rest[0] == ids[0]);
        assert(rest.drop_first() =~= ids.drop_first().remove(i - 1));
        match skill_index_of(ids[0]) {
            None => {},
            Some(k) => {
                let next = if selected.contains(k) {
                    selected
                } else {
                    selected.push(k)
                };
                assert(next.contains(k)) by {
                    if !selected.contains(k) {
                        assert(next[selected.len() as int] == k);
                    }
                }
                if !selected.contains(k) && first_missing_tool(skill_required_tools(k), available) is Some {
                } else {
                    let tail = ids.drop_first();
                    assert(tail[i - 1] == ids[i]);
                    assert(repeated_at(tail, next, i - 1)) by {
                        if exists|j: int| 0 <= j < i && #[trigger] ids[j] == ids[i] {
                            let j = choose|j: int| 0 <= j < i && #[trigger] ids[j] == ids[i];
                            if j > 0 {
                                assert(tail[j - 1] == ids[j]);
                            }
                        } else {
                            let m = skill_index_of(ids[i])->Some_0;
                            assert(selected.contains(m));
                            if !selected.contains(k) {
                                let q = choose|q: int| 0 <= q < selected.len() && selected[q] == m;
                                assert(next[q] == m);
                            }
                        }
                    }
                    lemma_repeated_id_changes_nothing(tail, available, next, i - 1);
                }
            },
        }
    }
}

/// Selecting a skill again changes nothing: resolving the ids without a
/// repeated id gives the same skills, instructions and tools, or the same
/// failure.
pub proof fn lemma_repeated_skill_ids_change_nothing(
    ids: Seq<Seq<char>>,
    available: Seq<String>,
    j: int,
    i: int,
)
    requires
        0 <= j < i < ids.len(),
        ids[j] == ids[i],
    ensures
        resolve_steps(ids, available, Seq::empty()) == resolve_steps(
            ids.remove(i),
            available,
            Seq::empty(),
        ),
{
    assert(repeated_at(ids, Seq::empty(), i));
    lemma_repeated_id_changes_nothing(ids, available, Seq::empty(), i);
}

/// The ids with every repeat dropped: each id once, where it first occurs.
pub open spec fn first_occurrences(ids: Seq<Seq<char>>) -> Seq<Seq<char>>
    decreases ids.len(),
{
    if ids.len() == 0 {
        ids
    } else {
        let prev = first_occurrences(ids.drop_last());
        if ids.drop_last().contains(ids.last()) {
            prev
        } else {
            prev.push(ids.last())
        }
    }
}

/// The resolution after one more id, given the resolution so far.
pub open spec fn resolve_then(res: SkillResolution, id: Seq<char>, available: Seq<String>) -> SkillResolution {
    match res {
        SkillResolution::Selected(selected) => resolve_steps(seq![id], available, selected),
        other => other,
    }
}

proof fn lemma_resolve_push(
    ids: Seq<Seq<char>>,
    id: Seq<char>,
    available: Seq<String>,
    selected: Seq<int>,
)
    ensures
        resolve_steps(ids.push(id), available, selected) == resolve_then(
            resolve_steps(ids, available, selected),
            id,
            available,
        ),
    decreases ids.len(),
{
    let all = ids.push(id);
    if ids.len() == 0 {
        assert(all =~= seq![id]);
    } else {
        assert(all[0] == ids[0]);
        assert(all.drop_first() =~= ids.drop_first().push(id));
        match skill_index_of(ids[0]) {
            None => {},
            Some(k) => {
                if selected.contains(k) {
                    lemma_resolve_push(ids.drop_first(), id, available, selected);
                } else if first_missing_tool(skill_required_tools(k), available) is None {
                    lemma_resolve_push(ids.drop_first(), id, available, selected.push(k));
                }
            },
        }
    }
}

/// Dropping every repeated skill id changes nothing: the ids resolve to the
/// same skills, instructions and tools, or to the same failure, as the ids
/// with each one kept only where it first occurs.
pub proof fn lemma_first_occurrences_resolve_alike(ids: Seq<Seq<char>>, available: Seq<String>)
    ensures
        resolve_steps(ids, available, Seq::empty()) == resolve_steps(
            first_occurrences(ids),
            available,
            Seq::empty(),
        ),
    decreases ids.len(),
{
    if ids.len() > 0 {
        let init = ids.drop_last();
        let last = ids.last();
        let n = ids.len() - 1;
        assert(ids =~= init.push(last));
        lemma_first_occurrences_resolve_alike(init, available);
        if init.contains(last) {
            let j = choose|j: int| 0 <= j < init.len() && init[j] == last;
            assert(ids[j] == ids[n]);
            lemma_repeated_skill_ids_change_nothing(ids, available, j, n);
            assert(ids.remove(n) =~= init);
        } else {
            lemma_resolve_push(init, last, available, Seq::empty());
            lemma_resolve_push(first_occurrences(init), last, available, Seq::empty());
        }
    }
}

} // verus!
