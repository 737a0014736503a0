//! The installation plan of the bundled agent skill: the main copy, and one
//! symbolic link per agent directory that exists.
use vstd::prelude::*;
use vstd::string::*;
use crate::text::trim;
use crate::fspath::{join_path, path_join};

verus! {

/// What a step of the plan does.
#[derive(PartialEq, Eq, Structural, Clone, Copy, Debug)]
pub enum SkillAction {
    /// Copy the skill to a main directory that does not exist yet.
    CreateMain,
    /// Replace the existing main directory with a fresh copy.
    UpdateMain,
    /// The agent directory does not exist: no link.
    SkipMissingParent,
    /// Point the existing link at the main directory again.
    UpdateSymlink,
    /// Something that is not a link is in the way: left alone.
    SkipExistingEntity,
    /// Create the link.
    CreateSymlink,
}

/// What was found at one link location.
#[derive(PartialEq, Eq, Structural, Clone, Copy, Debug)]
pub enum LinkTarget {
    /// The agent directory that would hold the link does not exist.
    ParentMissing,
    /// Nothing is there yet.
    Absent,
    /// A symbolic link is there.
    Symlink,
    /// A file or directory that is not a link is there.
    OtherEntity,
}

/// One step of the plan.
#[derive(PartialEq, Eq, Structural, Clone, Copy, Debug)]
pub struct SkillPlanStep {
    /// What the step does.
    pub action: SkillAction,
    /// The step writes to the file system.
    pub will_write: bool,
}

/// The step for the main directory.
pub open spec fn main_step(main_exists: bool) -> SkillPlanStep {
    SkillPlanStep {
        action: if main_exists {
            SkillAction::UpdateMain
        } else {
            SkillAction::CreateMain
        },
        will_write: true,
    }
}

/// The step for one link location.
pub open spec fn link_step(t: LinkTarget) -> SkillPlanStep {
    match t {
        LinkTarget::ParentMissing => SkillPlanStep {
            action: SkillAction::SkipMissingParent,
            will_write: false,
        },
        LinkTarget::Absent => SkillPlanStep { action: SkillAction::CreateSymlink, will_write: true },
        LinkTarget::Symlink => SkillPlanStep { action: SkillAction::UpdateSymlink, will_write: true },
        LinkTarget::OtherEntity => SkillPlanStep {
            action: SkillAction::SkipExistingEntity,
            will_write: false,
        },
    }
}

/// The plan: the main directory first, then the link locations in order.
pub open spec fn skill_plan(main_exists: bool, links: Seq<LinkTarget>) -> Seq<SkillPlanStep> {
    seq![main_step(main_exists)] + links.map_values(|t: LinkTarget| link_step(t))
}

/// Plans the installation of the skill: the main directory is created or
/// updated; each link location gets a new link when free, an updated link
/// when a link is there, and is skipped when its agent directory is
/// missing or something that is not a link is in the way.
pub fn plan_skill_install(main_exists: bool, links: &Vec<LinkTarget>) -> (plan: Vec<SkillPlanStep>)
    ensures
        plan@ == skill_plan(main_exists, links@),
{
    let mut plan: Vec<SkillPlanStep> = Vec::new();
    plan.push(
        SkillPlanStep {
            action: if main_exists {
                SkillAction::UpdateMain
            } else {
                SkillAction::CreateMain
            },
            will_write: true,
        },
    );
    let mut i: usize = 0;
    while i < links.len()
        invariant
            i <= links@.len(),
            plan@ == seq![main_step(main_exists)] + links@.take(i as int).map_values(
                |t: LinkTarget| link_step(t),
            ),
        decreases links@.len() - i,
    {
        let step = match links[i] {
            LinkTarget::ParentMissing => SkillPlanStep {
                action: SkillAction::SkipMissingParent,
                will_write: false,
            },
            LinkTarget::Absent => SkillPlanStep {
                action: SkillAction::CreateSymlink,
                will_write: true,
            },
            LinkTarget::Symlink => SkillPlanStep {
                action: SkillAction::UpdateSymlink,
                will_write: true,
            },
            LinkTarget::OtherEntity => SkillPlanStep {
                action: SkillAction::SkipExistingEntity,
                will_write: false,
            },
        };
        plan.push(step);
        assert(links@.take(i + 1).map_values(|t: LinkTarget| link_step(t)) =~= links@.take(
            i as int,
        ).map_values(|t: LinkTarget| link_step(t)).push(link_step(links@[i as int])));
        i = i + 1;
    }
    assert(links@.take(links@.len() as int) =~= links@);
    plan
}

/// A step that makes a link: its action ends in `symlink` and it writes.
pub open spec fn writes_link(step: SkillPlanStep) -> bool {
    (step.action == SkillAction::UpdateSymlink || step.action == SkillAction::CreateSymlink)
        && step.will_write
}

/// The positions, below `n`, of the steps that make a link, in order.
pub open spec fn link_positions(plan: Seq<SkillPlanStep>, n: int) -> Seq<usize>
    decreases n,
{
    if n <= 0 {
        Seq::empty()
    } else if writes_link(plan[n - 1]) {
        link_positions(plan, n - 1).push((n - 1) as usize)
    } else {
        link_positions(plan, n - 1)
    }
}

/// The positions in the plan of the steps that make a link, in order.
pub fn links_to_write(plan: &Vec<SkillPlanStep>) -> (positions: Vec<usize>)
    ensures
        positions@ == link_positions(plan@, plan@.len() as int),
{
    let mut positions: Vec<usize> = Vec::new();
    let mut i: usize = 0;
    while i < plan.len()
        invariant
            i <= plan@.len(),
            positions@ == link_positions(plan@, i as int),
        decreases plan@.len() - i,
    {
        let step = plan[i];
        let is_link = match step.action {
            SkillAction::UpdateSymlink => true,
            SkillAction::CreateSymlink => true,
            _ => false,
        };
        if is_link && step.will_write {
            positions.push(i);
        }
        i = i + 1;
    }
    positions
}

proof fn lemma_link_positions_sound(plan: Seq<SkillPlanStep>, n: int, k: int)
    requires
        0 <= k < link_positions(plan, n).len(),
        n <= usize::MAX + 1,
    ensures
        0 <= link_positions(plan, n)[k] < n,
        writes_link(plan[link_positions(plan, n)[k] as int]),
    decreases n,
{
    if n > 0 {
        if writes_link(plan[n - 1]) {
            if k < link_positions(plan, n - 1).len() {
                lemma_link_positions_sound(plan, n - 1, k);
            }
        } else {
            lemma_link_positions_sound(plan, n - 1, k);
        }
    }
}

/// Whatever the plan, a link location where something that is not a link
/// is in the way is never written: the installation does not overwrite it,
/// even when confirmed in advance.
pub proof fn lemma_existing_entity_untouched(main_exists: bool, links: Seq<LinkTarget>, k: int)
    requires
        0 <= k < links.len() < usize::MAX,
        links[k] == LinkTarget::OtherEntity,
    ensures
        !skill_plan(main_exists, links)[k + 1].will_write,
        !link_positions(
            skill_plan(main_exists, links),
            skill_plan(main_exists, links).len() as int,
        ).contains((k + 1) as usize),
{
    let plan = skill_plan(main_exists, links);
    assert(plan[k + 1] == link_step(links[k]));
    if link_positions(plan, plan.len() as int).contains((k + 1) as usize) {
        let j = choose|j: int|
            0 <= j < link_positions(plan, plan.len() as int).len() && link_positions(
                plan,
                plan.len() as int,
            )[j] == (k + 1) as usize;
        lemma_link_positions_sound(plan, plan.len() as int, j);
    }
}

/// The plan has the main step first, then one step per link location in
/// the same order. The main directory is always written, and updated when
/// it exists; a link location is written exactly when it is free or holds
/// a link, and skipped when its agent directory is missing or something
/// that is not a link is in the way.
pub proof fn lemma_skill_plan_steps(main_exists: bool, links: Seq<LinkTarget>)
    ensures
        ({
            let plan = skill_plan(main_exists, links);
            &&& plan.len() == links.len() + 1
            &&& plan[0].will_write
            &&& (plan[0].action == SkillAction::UpdateMain) == main_exists
            &&& (plan[0].action == SkillAction::CreateMain) == !main_exists
            &&& forall|k: int|
                0 <= k < links.len() ==> {
                    let step = #[trigger] plan[k + 1];
                    &&& step.will_write == (links[k] == LinkTarget::Absent || links[k]
                        == LinkTarget::Symlink)
                    &&& (links[k] == LinkTarget::Absent ==> step.action
                        == SkillAction::CreateSymlink)
                    &&& (links[k] == LinkTarget::Symlink ==> step.action
                        == SkillAction::UpdateSymlink)
                    &&& (links[k] == LinkTarget::ParentMissing ==> step.action
                        == SkillAction::SkipMissingParent)
                    &&& (links[k] == LinkTarget::OtherEntity ==> step.action
                        == SkillAction::SkipExistingEntity)
                }
        }),
{
    let plan = skill_plan(main_exists, links);
    assert forall|k: int| 0 <= k < links.len() implies plan[k + 1] == link_step(links[k]) by {}
}

/// The positions of the links to write are exactly the steps that create or
/// update a link, each once, in increasing order.
pub proof fn lemma_links_to_write_exact(plan: Seq<SkillPlanStep>, n: int)
    requires
        0 <= n <= plan.len(),
        n <= usize::MAX + 1,
    ensures
        forall|i: int|
            0 <= i < n ==> (link_positions(plan, n).contains(i as usize) <==> ((plan[i].action
                == SkillAction::CreateSymlink || plan[i].action == SkillAction::UpdateSymlink)
                && plan[i].will_write)),
        forall|a: int, b: int|
            0 <= a < b < link_positions(plan, n).len() ==> link_positions(plan, n)[a]
                < link_positions(plan, n)[b],
        forall|a: int| 0 <= a < link_positions(plan, n).len() ==> link_positions(plan, n)[a] < n,
    decreases n,
{
    if n > 0 {
        lemma_links_to_write_exact(plan, n - 1);
        let prev = link_positions(plan, n - 1);
        let cur = link_positions(plan, n);
        assert forall|i: int| 0 <= i < n implies (cur.contains(i as usize) <==> ((plan[i].action
            == SkillAction::CreateSymlink || plan[i].action == SkillAction::UpdateSymlink)
            && plan[i].will_write)) by {
            if i < n - 1 {
                if cur.contains(i as usize) && !prev.contains(i as usize) {
                    let a = choose|a: int| 0 <= a < cur.len() && cur[a] == i as usize;
                    assert(a == prev.len());
                }
                if prev.contains(i as usize) {
                    let a = choose|a: int| 0 <= a < prev.len() && prev[a] == i as usize;
                    assert(cur[a] == i as usize);
                }
            } else {
                if writes_link(plan[i]) {
                    assert(cur[prev.len() as int] == i as usize);
                } else {
                    if cur.contains(i as usize) {
                        let a = choose|a: int| 0 <= a < cur.len() && cur[a] == i as usize;
                        assert(prev[a] < n - 1);
                    }
                }
            }
        }
    }
}

/// The code of an action.
pub open spec fn action_code(a: SkillAction) -> Seq<char> {
    match a {
        SkillAction::CreateMain => "create_main"@,
        SkillAction::UpdateMain => "update_main"@,
        SkillAction::SkipMissingParent => "skip_missing_parent"@,
        SkillAction::UpdateSymlink => "update_symlink"@,
        SkillAction::SkipExistingEntity => "skip_existing_entity"@,
        SkillAction::CreateSymlink => "create_symlink"@,
    }
}

/// The note of a step, given the skill source and the main directory.
pub open spec fn action_note(a: SkillAction, source: Seq<char>, main_target: Seq<char>) -> Seq<char> {
    match a {
        SkillAction::CreateMain | SkillAction::UpdateMain => "复制内置 skill 目录: "@ + source,
        SkillAction::SkipMissingParent => "父目录不存在，跳过软链接"@,
        SkillAction::UpdateSymlink => "更新软链接到 "@ + main_target,
        SkillAction::SkipExistingEntity => "目标已存在且不是软链接，必须手动处理，--yes 也不会覆盖"@,
        SkillAction::CreateSymlink => "创建软链接到 "@ + main_target,
    }
}

impl SkillAction {
    /// The code of the action, as the plan shows it.
    pub fn code(&self) -> (text: &'static str)
        ensures
            text@ == action_code(*self),
    {
        match self {
            SkillAction::CreateMain => "create_main",
            SkillAction::UpdateMain => "update_main",
            SkillAction::SkipMissingParent => "skip_missing_parent",
            SkillAction::UpdateSymlink => "update_symlink",
            SkillAction::SkipExistingEntity => "skip_existing_entity",
            SkillAction::CreateSymlink => "create_symlink",
        }
    }

    /// The note of the step, naming the skill source or the main directory.
    pub fn note(&self, source: &str, main_target: &str) -> (text: String)
        ensures
            text@ == action_note(*self, source@, main_target@),
    {
        match self {
            SkillAction::CreateMain | SkillAction::UpdateMain => {
                let mut t = "复制内置 skill 目录: ".to_owned();
                t.append(source);
                t
            },
            SkillAction::SkipMissingParent => "父目录不存在，跳过软链接".to_owned(),
            SkillAction::UpdateSymlink => {
                let mut t = "更新软链接到 ".to_owned();
                t.append(main_target);
                t
            },
            SkillAction::SkipExistingEntity => "目标已存在且不是软链接，必须手动处理，--yes 也不会覆盖".to_owned(),
            SkillAction::CreateSymlink => {
                let mut t = "创建软链接到 ".to_owned();
                t.append(main_target);
                t
            },
        }
    }
}

/// The line of a step in the printed plan.
pub open spec fn plan_line_text(step: SkillPlanStep, path: Seq<char>, note: Seq<char>) -> Seq<char> {
    "- ["@ + (if step.will_write {
        "write"@
    } else {
        "skip"@
    }) + "] "@ + action_code(step.action) + " -> "@ + path + " ("@ + note + ")"@
}

/// The line of a step in the printed plan:
/// `- [write|skip] <action> -> <path> (<note>)`.
pub fn plan_line(step: &SkillPlanStep, path: &str, note: &str) -> (line: String)
    ensures
        line@ == plan_line_text(*step, path@, note@),
{
    let mut line = "- [".to_owned();
    line.append(if step.will_write {
        "write"
    } else {
        "skip"
    });
    line.append("] ");
    line.append(step.action.code());
    line.append(" -> ");
    line.append(path);
    line.append(" (");
    line.append(note);
    line.append(")");
    line
}

/// What follows the printed plan.
#[derive(PartialEq, Eq, Structural, Clone, Copy, Debug)]
pub enum InstallStep {
    /// A dry run: stop without writing.
    Finish,
    /// Ask the user to confirm.
    Confirm,
    /// Install.
    Install,
}

/// What follows the printed plan: a dry run stops, a confirmed-in-advance
/// run installs, any other asks first.
pub fn install_next_step(dry_run: bool, yes: bool) -> (step: InstallStep)
    ensures
        step == (if dry_run {
            InstallStep::Finish
        } else if yes {
            InstallStep::Install
        } else {
            InstallStep::Confirm
        }),
{
    if dry_run {
        InstallStep::Finish
    } else if yes {
        InstallStep::Install
    } else {
        InstallStep::Confirm
    }
}

/// The answer to the confirmation question accepts the plan exactly when,
/// trimmed, it is `yes`.
pub fn confirm_install_answer(input: &str) -> (accepted: bool)
    ensures
        accepted == (trim(input@) == "yes"@),
{
    let answer = crate::text::trim_text(input);
    let yes = "yes".to_owned();
    answer == yes
}

/// The name of the skill's directory.
pub open spec fn skill_name() -> Seq<char> {
    "agent-browser-cli"@
}

/// The main installation directory, below the home directory.
pub open spec fn main_skill_rel() -> Seq<char> {
    ".agents/skills/agent-browser-cli"@
}

/// The agent directories, below the home directory, that get a link to
/// the main installation, in the order they are planned.
pub open spec fn agent_skill_dirs() -> Seq<Seq<char>> {
    seq![
        ".codex/skills"@,
        ".config/agents/skills"@,
        ".cursor/skills"@,
        ".gemini/skills"@,
    ]
}

/// Where the skill goes for a home directory: the main directory, and for
/// each agent directory in order, that directory and the link inside it.
pub struct SkillLocations {
    /// The main installation directory.
    pub main_target: String,
    /// Each agent directory and the link to create inside it.
    pub links: Vec<(String, String)>,
}

/// The agent directory and link at position `k` for a home directory.
pub open spec fn link_location(home: Seq<char>, k: int) -> (Seq<char>, Seq<char>) {
    let parent = path_join(home, agent_skill_dirs()[k]);
    (parent, path_join(parent, skill_name()))
}

/// The locations of the skill for the home directory `home`.
pub fn skill_locations(home: &str) -> (locations: SkillLocations)
    ensures
        locations.main_target@ == path_join(home@, main_skill_rel()),
        locations.links@.len() == agent_skill_dirs().len(),
        forall|k: int|
            0 <= k < agent_skill_dirs().len() ==> (#[trigger] locations.links@[k]).0@
                == link_location(home@, k).0 && locations.links@[k].1@ == link_location(
                home@,
                k,
            ).1,
{
    proof {
        reveal_strlit(".agents/skills/agent-browser-cli");
        reveal_strlit("agent-browser-cli");
        reveal_strlit(".codex/skills");
        reveal_strlit(".config/agents/skills");
        reveal_strlit(".cursor/skills");
        reveal_strlit(".gemini/skills");
    }
    let main_target = join_path(home, ".agents/skills/agent-browser-cli");
    let dirs: [&str; 4] = [
        ".codex/skills",
        ".config/agents/skills",
        ".cursor/skills",
        ".gemini/skills",
    ];
    assert(dirs@.map_values(|d: &str| d@) =~= agent_skill_dirs());
    let mut links: Vec<(String, String)> = Vec::new();
    let mut i: usize = 0;
    while i < 4
        invariant
            i <= 4,
            dirs@.map_values(|d: &str| d@) == agent_skill_dirs(),
            links@.len() == i,
            forall|k: int|
                0 <= k < i ==> (#[trigger] links@[k]).0@ == link_location(home@, k).0
                    && links@[k].1@ == link_location(home@, k).1,
        decreases 4 - i,
    {
        let parent = join_path(home, dirs[i]);
        let target = join_path(parent.as_str(), "agent-browser-cli");
        assert(dirs[i as int]@ == agent_skill_dirs()[i as int]);
        links.push((parent, target));
        i = i + 1;
    }
    SkillLocations { main_target, links }
}

} // verus!
