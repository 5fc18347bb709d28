//! Agent profile discovery and resolution for the chat input: which `agents/`
//! directories to scan, and resolving a profile's system prompt, tool policy
//! and the list of names.

use vstd::prelude::*;

use crate::approvals::{AgentsDir, ProfileFile};
use crate::chat_state::{PolicyView, ToolPolicy};
use crate::paths::{is_same_path, same_path};
use crate::text::{copy_list, copy_opt, list_has, opt_text, texts};
use crate::types::{AgentConfig, AgentView};

verus! {

// ---------------------------------------------------------------------------
// Directories
// ---------------------------------------------------------------------------

/// A list with one more entry, unless it is there already.
pub open spec fn with_new(list: Seq<Seq<char>>, x: Option<Seq<char>>) -> Seq<Seq<char>> {
    match x {
        Some(d) => if list.contains(d) {
            list
        } else {
            list.push(d)
        },
        None => list,
    }
}

/// Whether a path of the list is this one.
pub open spec fn lists_path(list: Seq<Seq<char>>, path: Seq<char>) -> bool {
    exists|i: int| 0 <= i < list.len() && same_path(#[trigger] list[i], path)
}

/// A list of paths with one more, unless it is there already.
pub open spec fn with_new_path(list: Seq<Seq<char>>, x: Option<Seq<char>>) -> Seq<Seq<char>> {
    match x {
        Some(d) => if lists_path(list, d) {
            list
        } else {
            list.push(d)
        },
        None => list,
    }
}

fn path_listed(list: &Vec<String>, path: &str) -> (r: bool)
    ensures
        r == lists_path(texts(list@), path@),
{
    let mut i: usize = 0;
    while i < list.len()
        invariant
            i <= list@.len(),
            forall|k: int| 0 <= k < i ==> !same_path(#[trigger] texts(list@)[k], path@),
        decreases list.len() - i,
    {
        if is_same_path(list[i].as_str(), path) {
            assert(same_path(texts(list@)[i as int], path@));
            return true;
        }
        i += 1;
    }
    false
}

fn push_new_path(list: &mut Vec<String>, x: Option<String>)
    ensures
        texts(final(list)@) == with_new_path(texts(old(list)@), opt_text(x)),
{
    if let Some(d) = x {
        if !path_listed(list, d.as_str()) {
            let ghost before = list@;
            list.push(d);
            assert(texts(list@) =~= texts(before).push(d@));
        }
    }
}

fn push_new(list: &mut Vec<String>, x: Option<String>)
    ensures
        texts(final(list)@) == with_new(texts(old(list)@), opt_text(x)),
{
    if let Some(d) = x {
        if !list_has(list, d.as_str()) {
            let ghost before = list@;
            list.push(d);
            assert(texts(list@) =~= texts(before).push(d@));
        }
    }
}

/// The known agents directories in priority order: the one of the
/// configuration first, then those of the working directory and of the
/// program, each once.
pub fn agents_dirs(config_dir: String, cwd_dir: Option<String>, exe_dir: Option<String>) -> (r: Vec<
    String,
>)
    ensures
        texts(r@) == with_new_path(
            with_new_path(seq![config_dir@], opt_text(cwd_dir)),
            opt_text(exe_dir),
        ),
{
    let mut dirs: Vec<String> = Vec::new();
    dirs.push(config_dir);
    assert(texts(dirs@) =~= seq![config_dir@]);
    push_new_path(&mut dirs, cwd_dir);
    push_new_path(&mut dirs, exe_dir);
    dirs
}

// ---------------------------------------------------------------------------
// Resolving a profile
// ---------------------------------------------------------------------------

/// The profile names that an agent name stands for where its prompt is looked
/// up; the empty name ("Auto") stands for the general profile.
pub open spec fn candidates(agent_name: Seq<char>) -> Seq<Seq<char>> {
    if agent_name.len() == 0 {
        seq!["general"@, "generalist"@]
    } else {
        seq![agent_name]
    }
}

/// The profile names that an agent name stands for.
pub fn candidate_names(agent_name: &str) -> (r: Vec<String>)
    ensures
        texts(r@) == candidates(agent_name@),
{
    let mut names: Vec<String> = Vec::new();
    if agent_name.is_empty() {
        names.push("general".to_owned());
        names.push("generalist".to_owned());
    } else {
        names.push(agent_name.to_owned());
    }
    assert(texts(names@) =~= candidates(agent_name@));
    names
}

/// The policy of a profile.
pub open spec fn policy_of(profile: Option<AgentView>) -> PolicyView {
    match profile {
        Some(p) => PolicyView::Profile {
            allowed_tools: p.allowed_tools,
            shell_config: p.shell_config,
            agent_name: p.name,
            handoff_enabled: p.handoff_enabled,
            handoff_targets: p.handoff_targets,
            restart_enabled: p.restart_enabled,
            reasoning_effort: p.reasoning_effort,
            trim_config: p.trim_config,
        },
        None => PolicyView::Unrestricted,
    }
}

/// The first profile of some lookups that was found, from `from` on.
pub open spec fn first_found(found: Seq<Option<AgentConfig>>, from: int) -> Option<AgentView>
    decreases found.len() - from,
{
    if from < 0 || from >= found.len() {
        None
    } else {
        match found[from] {
            Some(c) => Some(c@),
            None => first_found(found, from + 1),
        }
    }
}

/// Resolve the tool policy for an agent profile by name; `found` holds the
/// lookups of its candidate names, in their order. An empty name ("Auto") or a
/// profile not found yields an unrestricted policy (all tools and allow-all
/// shell, no handoff).
pub fn resolve_tool_policy(agent_name: &str, found: &Vec<Option<AgentConfig>>) -> (r: ToolPolicy)
    ensures
        agent_name@.len() == 0 ==> r@ == PolicyView::Unrestricted,
        agent_name@.len() > 0 ==> r@ == policy_of(first_found(found@, 0)),
{
    if agent_name.is_empty() {
        return ToolPolicy::Unrestricted;
    }
    let mut i: usize = 0;
    while i < found.len()
        invariant
            agent_name@.len() > 0,
            i <= found@.len(),
            first_found(found@, 0) == first_found(found@, i as int),
        decreases found.len() - i,
    {
        if let Some(cfg) = &found[i] {
            return ToolPolicy::Profile {
                allowed_tools: copy_list(&cfg.allowed_tools),
                shell_config: cfg.shell_config.copied(),
                agent_name: cfg.name.clone(),
                handoff_enabled: cfg.handoff_enabled,
                handoff_targets: copy_list(&cfg.handoff_targets),
                restart_enabled: cfg.restart_enabled,
                reasoning_effort: cfg.reasoning_effort,
                trim_config: copy_opt(&cfg.trim_config),
            };
        }
        i += 1;
    }
    ToolPolicy::Unrestricted
}

/// The prompt of the first profile, from `from` on, that has one of the names.
pub open spec fn prompt_in_dir(
    profiles: Seq<ProfileFile>,
    names: Seq<Seq<char>>,
    from: int,
) -> Seq<char>
    decreases profiles.len() - from,
{
    if from < 0 || from >= profiles.len() {
        Seq::empty()
    } else if names.contains(profiles[from].name@) {
        profiles[from].system_prompt@
    } else {
        prompt_in_dir(profiles, names, from + 1)
    }
}

/// The prompt that the directories give, from `from` on: a directory without a
/// prompt for the names passes on to the next.
pub open spec fn prompt_in_dirs(dirs: Seq<AgentsDir>, names: Seq<Seq<char>>, from: int) -> Seq<char>
    decreases dirs.len() - from,
{
    if from < 0 || from >= dirs.len() {
        Seq::empty()
    } else {
        let p = prompt_in_dir(dirs[from].profiles@, names, 0);
        if p.len() > 0 {
            p
        } else {
            prompt_in_dirs(dirs, names, from + 1)
        }
    }
}

fn dir_prompt(dir: &AgentsDir, names: &Vec<String>) -> (r: String)
    ensures
        r@ == prompt_in_dir(dir.profiles@, texts(names@), 0),
{
    let mut i: usize = 0;
    while i < dir.profiles.len()
        invariant
            i <= dir.profiles@.len(),
            prompt_in_dir(dir.profiles@, texts(names@), 0) == prompt_in_dir(
                dir.profiles@,
                texts(names@),
                i as int,
            ),
        decreases dir.profiles.len() - i,
    {
        if list_has(names, dir.profiles[i].name.as_str()) {
            return dir.profiles[i].system_prompt.clone();
        }
        i += 1;
    }
    String::new()
}

/// Load the system prompt of the first matching agent profile: the profile's
/// `name` is what matches, not the file name. Returns an empty string when no
/// candidate profile exists.
pub fn load_agent_system_prompt(dirs: &Vec<AgentsDir>, names: &Vec<String>) -> (r: String)
    ensures
        r@ == prompt_in_dirs(dirs@, texts(names@), 0),
{
    let mut i: usize = 0;
    while i < dirs.len()
        invariant
            i <= dirs@.len(),
            prompt_in_dirs(dirs@, texts(names@), 0) == prompt_in_dirs(
                dirs@,
                texts(names@),
                i as int,
            ),
        decreases dirs.len() - i,
    {
        let p = dir_prompt(&dirs[i], names);
        if !p.as_str().is_empty() {
            return p;
        }
        i += 1;
    }
    String::new()
}

/// Resolve the system prompt for an agent profile by name (empty = "Auto",
/// the general profile).
pub fn resolve_agent_prompt(dirs: &Vec<AgentsDir>, agent_name: &str) -> (r: String)
    ensures
        r@ == prompt_in_dirs(dirs@, candidates(agent_name@), 0),
{
    load_agent_system_prompt(dirs, &candidate_names(agent_name))
}

// ---------------------------------------------------------------------------
// Names
// ---------------------------------------------------------------------------

/// The names that the first `n` profiles add to a list: those of the enabled
/// ones, each once.
pub open spec fn names_with(
    known: Seq<Seq<char>>,
    profiles: Seq<ProfileFile>,
    n: int,
) -> Seq<Seq<char>>
    decreases n,
{
    if n <= 0 {
        known
    } else {
        let before = names_with(known, profiles, n - 1);
        if profiles[n - 1].enabled {
            with_new(before, Some(profiles[n - 1].name@))
        } else {
            before
        }
    }
}

/// The names in the first `n` directories.
pub open spec fn names_in(dirs: Seq<AgentsDir>, n: int) -> Seq<Seq<char>>
    decreases n,
{
    if n <= 0 {
        Seq::empty()
    } else {
        names_with(
            names_in(dirs, n - 1),
            dirs[n - 1].profiles@,
            dirs[n - 1].profiles@.len() as int,
        )
    }
}

/// Return the list of agent names from all known agents directories: the
/// enabled profiles, each name once.
pub fn get_agent_names(dirs: &Vec<AgentsDir>) -> (r: Vec<String>)
    ensures
        texts(r@) == names_in(dirs@, dirs@.len() as int),
{
    let mut names: Vec<String> = Vec::new();
    let mut i: usize = 0;
    assert(texts(names@) =~= names_in(dirs@, 0));
    while i < dirs.len()
        invariant
            i <= dirs@.len(),
            texts(names@) == names_in(dirs@, i as int),
        decreases dirs.len() - i,
    {
        let ghost known = texts(names@);
        let profiles = &dirs[i].profiles;
        let mut k: usize = 0;
        while k < profiles.len()
            invariant
                k <= profiles@.len(),
                texts(names@) == names_with(known, profiles@, k as int),
            decreases profiles.len() - k,
        {
            if profiles[k].enabled {
                push_new(&mut names, Some(profiles[k].name.clone()));
            }
            k += 1;
        }
        i += 1;
    }
    names
}

// ---------------------------------------------------------------------------
// Laws
// ---------------------------------------------------------------------------

proof fn lemma_names_with(known: Seq<Seq<char>>, profiles: Seq<ProfileFile>, n: int)
    requires
        known.no_duplicates(),
        0 <= n <= profiles.len(),
    ensures
        names_with(known, profiles, n).no_duplicates(),
    decreases n,
{
    if n > 0 {
        lemma_names_with(known, profiles, n - 1);
    }
}

/// The selector lists no name twice.
pub proof fn agent_names_are_distinct(dirs: Seq<AgentsDir>, n: int)
    requires
        0 <= n <= dirs.len(),
    ensures
        names_in(dirs, n).no_duplicates(),
    decreases n,
{
    if n > 0 {
        agent_names_are_distinct(dirs, n - 1);
        lemma_names_with(
            names_in(dirs, n - 1),
            dirs[n - 1].profiles@,
            dirs[n - 1].profiles@.len() as int,
        );
    }
}

/// No directory is searched twice, and the configuration's comes first.
pub proof fn agents_dirs_are_distinct(
    config_dir: Seq<char>,
    cwd_dir: Option<Seq<char>>,
    exe_dir: Option<Seq<char>>,
)
    ensures
        ({
            let dirs = with_new_path(with_new_path(seq![config_dir], cwd_dir), exe_dir);
            &&& dirs[0] == config_dir
            &&& forall|i: int, j: int|
                0 <= i < j < dirs.len() ==> !same_path(#[trigger] dirs[i], #[trigger] dirs[j])
        }),
{
}

} // verus!
