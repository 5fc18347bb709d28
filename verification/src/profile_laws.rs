//! Which profiles are found, what a profile allows, and what the profile editor and
//! the history of a profile hold.

use vstd::prelude::*;

use crate::agent_config::{
    chosen, offered_tools, position_of, save_goes, AgentDialogView, SaveTarget,
};
use crate::agent_history::{
    all_snapshots, dated, history, history_keeps_its_promises, name_number, preview, prompt_in,
    snapshot_order, sorting_keeps_the_entries, time_label, ts_seq, HistoryView, SnapshotList,
    SnapshotView,
};
use crate::agent_profile::{
    candidates, first_found, names_in, names_with, policy_of, prompt_in_dir, prompt_in_dirs,
    with_new_path,
};
use crate::approvals::{AgentsDir, ProfileFile};
use crate::chat_state::PolicyView;
use crate::json::JsonTree;
use crate::numbers::{
    all_digits, decimal, decimal_reads_back, is_digit, lemma_decimal_digits, value,
};
use crate::paths::{kept_pieces, rooted, same_path};
use crate::pieces::{
    comma_list, fields, join, lemma_fields_nonempty, lemma_fields_split, splitn, words,
};
use crate::text::{
    find, lemma_find_from, lemma_find_is, occurs_at, texts, trim, without_prefix, without_suffix,
};
use crate::types::{AgentConfig, AgentView, ReasoningEffort, ShellView};

verus! {

// ---------------------------------------------------------------------------
// Names
// ---------------------------------------------------------------------------

/// Whether one of the profiles is enabled and has this name.
pub open spec fn offers(profiles: Seq<ProfileFile>, name: Seq<char>) -> bool {
    exists|p: int|
        0 <= p < profiles.len() && (#[trigger] profiles[p]).enabled && profiles[p].name@ == name
}

/// A name is listed exactly if some directory holds an enabled profile with it.
pub proof fn exactly_the_enabled_profiles_are_listed(dirs: Seq<AgentsDir>, name: Seq<char>)
    ensures
        names_in(dirs, dirs.len() as int).contains(name) <==> exists|d: int|
            0 <= d < dirs.len() && offers((#[trigger] dirs[d]).profiles@, name),
{
    lemma_names_in(dirs, dirs.len() as int, name);
}

proof fn lemma_names_in(dirs: Seq<AgentsDir>, n: int, name: Seq<char>)
    requires
        0 <= n <= dirs.len(),
    ensures
        names_in(dirs, n).contains(name) <==> exists|d: int|
            0 <= d < n && offers((#[trigger] dirs[d]).profiles@, name),
    decreases n,
{
    if n > 0 {
        lemma_names_in(dirs, n - 1, name);
        let profiles = dirs[n - 1].profiles@;
        lemma_names_with(names_in(dirs, n - 1), profiles, profiles.len() as int, name);
        if offers(profiles, name) {
            assert(offers(dirs[n - 1].profiles@, name));
        }
    }
}

proof fn lemma_names_with(
    known: Seq<Seq<char>>,
    profiles: Seq<ProfileFile>,
    n: int,
    name: Seq<char>,
)
    requires
        0 <= n <= profiles.len(),
    ensures
        names_with(known, profiles, n).contains(name) <==> known.contains(name) || exists|p: int|
            0 <= p < n && (#[trigger] profiles[p]).enabled && profiles[p].name@ == name,
        known.is_prefix_of(names_with(known, profiles, n)),
    decreases n,
{
    if n > 0 {
        lemma_names_with(known, profiles, n - 1, name);
        let before = names_with(known, profiles, n - 1);
        let x = profiles[n - 1].name@;
        let after = names_with(known, profiles, n);
        if profiles[n - 1].enabled && !before.contains(x) {
            assert(after == before.push(x));
            assert(after[before.len() as int] == x);
            if before.contains(name) {
                let k = choose|k: int| 0 <= k < before.len() && before[k] == name;
                assert(after[k] == name);
            }
            if after.contains(name) && name != x {
                let k = choose|k: int| 0 <= k < after.len() && after[k] == name;
                assert(before[k] == name);
            }
            assert forall|i: int| 0 <= i < known.len() implies known[i] == #[trigger] after[i] by {
                assert(known[i] == before[i]);
            }
        }
    }
}

/// A further directory only adds names behind those that are listed without it.
pub proof fn a_further_directory_adds_behind(dirs: Seq<AgentsDir>, n: int)
    requires
        0 <= n < dirs.len(),
    ensures
        names_in(dirs, n).is_prefix_of(names_in(dirs, n + 1)),
{
    let profiles = dirs[n].profiles@;
    lemma_names_with(names_in(dirs, n), profiles, profiles.len() as int, Seq::empty());
}

/// A directory holds a profile exactly if one of its files has that name, enabled or
/// not.
pub proof fn a_directory_holds_the_profiles_of_its_files(dir: AgentsDir, i: int, name: Seq<char>)
    ensures
        0 <= i < dir.profiles@.len() ==> dir.holds(dir.profiles@[i].name@),
        (forall|j: int| 0 <= j < dir.profiles@.len() ==> (#[trigger] dir.profiles@[j]).name@ != name)
            ==> !dir.holds(name),
{
}

// ---------------------------------------------------------------------------
// Directories
// ---------------------------------------------------------------------------

/// Each of the directories is scanned, under this or another spelling of its path;
/// no other is; and the configured one comes first, the working directory's second.
pub proof fn every_agents_directory_is_scanned(
    config_dir: Seq<char>,
    cwd_dir: Option<Seq<char>>,
    exe_dir: Option<Seq<char>>,
)
    ensures
        ({
            let dirs = with_new_path(with_new_path(seq![config_dir], cwd_dir), exe_dir);
            &&& dirs[0] == config_dir
            &&& cwd_dir matches Some(d) ==> {
                &&& same_path(config_dir, d) || (dirs.len() > 1 && dirs[1] == d)
            }
            &&& exe_dir matches Some(d) ==> exists|i: int|
                0 <= i < dirs.len() && same_path(#[trigger] dirs[i], d)
            &&& forall|i: int|
                0 <= i < dirs.len() ==> (#[trigger] dirs[i]) == config_dir || Some(dirs[i])
                    == cwd_dir || Some(dirs[i]) == exe_dir
        }),
{
    let one = seq![config_dir];
    let two = with_new_path(one, cwd_dir);
    let dirs = with_new_path(two, exe_dir);
    if let Some(d) = cwd_dir {
        if !same_path(config_dir, d) {
            assert forall|i: int| 0 <= i < one.len() implies !same_path(#[trigger] one[i], d) by {
                assert(one[i] == config_dir);
            }
            assert(two == one.push(d));
        }
    }
    if let Some(d) = exe_dir {
        if dirs == two.push(d) {
            assert(same_path(dirs[two.len() as int], d));
        }
    }
}

/// A slash at the end of a path, a doubled slash and a dot between slashes do not
/// make another path; whether it starts at the root does.
pub proof fn a_path_has_several_spellings(a: Seq<char>, b: Seq<char>)
    requires
        a.len() > 0,
    ensures
        same_path(a.push('/'), a),
        same_path(a.push('/').push('/') + b, a.push('/') + b),
        same_path(a.push('/') + "."@.push('/') + b, a.push('/') + b),
        rooted(a) != rooted(b) ==> !same_path(a, b),
        same_path(a, a),
{
    let empty = Seq::<char>::empty();
    reveal_strlit("/");
    reveal_strlit(".");
    let fa = fields(a, '/');
    let fb = fields(b, '/');
    lemma_fields_nonempty(a, '/');
    lemma_fields_nonempty(b, '/');
    // One slash.
    lemma_fields_split(a, '/', empty);
    assert(a.push('/') + empty =~= a.push('/'));
    assert(fields(empty, '/') =~= seq![empty]);
    lemma_rooted_push(a, empty);
    lemma_rooted_push(a, b);
    lemma_kept(fa, seq![empty], rooted(a));
    lemma_kept_one(seq![empty]);
    // Two slashes.
    lemma_fields_split(a, '/', b);
    lemma_fields_split(a.push('/'), '/', b);
    let fab = fa + fb;
    assert(fields(a.push('/').push('/') + b, '/') =~= fa + seq![empty] + fb);
    lemma_rooted_push(a.push('/'), b);
    lemma_kept_within(fa, empty, fb, rooted(a));
    // A dot.
    let dot = "."@;
    lemma_fields_split(a, '/', dot);
    assert(!dot.contains('/'));
    crate::pieces::lemma_fields_single(dot, '/');
    lemma_fields_split(a.push('/') + dot, '/', b);
    assert(a.push('/') + dot.push('/') + b =~= (a.push('/') + dot).push('/') + b);
    assert(fields(a.push('/') + dot.push('/') + b, '/') =~= fa + seq![dot] + fb);
    lemma_rooted_push(a, dot.push('/') + b);
    assert(a.push('/') + (dot.push('/') + b) =~= a.push('/') + dot.push('/') + b);
    lemma_kept_within(fa, dot, fb, rooted(a));
}

proof fn lemma_rooted_push(a: Seq<char>, b: Seq<char>)
    requires
        a.len() > 0,
    ensures
        rooted(a.push('/') + b) == rooted(a),
{
    reveal_strlit("/");
    let s = a.push('/') + b;
    assert(s[0] == a[0]);
    assert("/"@.is_prefix_of(s) == "/"@.is_prefix_of(a)) by {
        if "/"@.is_prefix_of(s) {
            assert("/"@ =~= a.subrange(0, 1));
        }
        if "/"@.is_prefix_of(a) {
            assert("/"@ =~= s.subrange(0, 1));
        }
    }
}

/// Further pieces are kept by what they are, behind those before them.
spec fn kept_behind(pieces: Seq<Seq<char>>, n: int) -> Seq<Seq<char>>
    decreases n,
{
    if n <= 0 {
        Seq::empty()
    } else if pieces[n - 1].len() == 0 || pieces[n - 1] == "."@ {
        kept_behind(pieces, n - 1)
    } else {
        kept_behind(pieces, n - 1).push(pieces[n - 1])
    }
}

proof fn lemma_kept(x: Seq<Seq<char>>, y: Seq<Seq<char>>, from_root: bool)
    requires
        x.len() > 0,
    ensures
        kept_pieces(x + y, from_root, (x + y).len() as int) == kept_pieces(
            x,
            from_root,
            x.len() as int,
        ) + kept_behind(y, y.len() as int),
{
    lemma_kept_front(x, y, from_root, x.len() as int);
    lemma_kept_back(x, y, from_root, y.len() as int);
}

proof fn lemma_kept_front(x: Seq<Seq<char>>, y: Seq<Seq<char>>, from_root: bool, n: int)
    requires
        0 <= n <= x.len(),
    ensures
        kept_pieces(x + y, from_root, n) == kept_pieces(x, from_root, n),
    decreases n,
{
    if n > 0 {
        lemma_kept_front(x, y, from_root, n - 1);
        assert((x + y)[n - 1] == x[n - 1]);
    }
}

proof fn lemma_kept_back(x: Seq<Seq<char>>, y: Seq<Seq<char>>, from_root: bool, n: int)
    requires
        x.len() > 0,
        0 <= n <= y.len(),
    ensures
        kept_pieces(x + y, from_root, x.len() + n) == kept_pieces(
            x,
            from_root,
            x.len() as int,
        ) + kept_behind(y, n),
    decreases n,
{
    let front = kept_pieces(x, from_root, x.len() as int);
    if n > 0 {
        lemma_kept_back(x, y, from_root, n - 1);
        assert((x + y)[x.len() + n - 1] == y[n - 1]);
        assert(front + kept_behind(y, n - 1).push(y[n - 1]) =~= (front + kept_behind(y, n - 1)).push(
            y[n - 1],
        ));
    } else {
        lemma_kept_front(x, y, from_root, x.len() as int);
        assert(front + kept_behind(y, 0) =~= front);
    }
}

proof fn lemma_kept_one(y: Seq<Seq<char>>)
    requires
        y.len() == 1,
        y[0].len() == 0,
    ensures
        kept_behind(y, 1) == Seq::<Seq<char>>::empty(),
{
    assert(kept_behind(y, 0) == Seq::<Seq<char>>::empty());
}

proof fn lemma_kept_within(
    x: Seq<Seq<char>>,
    piece: Seq<char>,
    y: Seq<Seq<char>>,
    from_root: bool,
)
    requires
        x.len() > 0,
        piece.len() == 0 || piece == "."@,
    ensures
        kept_pieces(x + seq![piece] + y, from_root, (x + seq![piece] + y).len() as int)
            == kept_pieces(x + y, from_root, (x + y).len() as int),
{
    let one = seq![piece];
    lemma_kept(x + one, y, from_root);
    lemma_kept(x, one, from_root);
    lemma_kept(x, y, from_root);
    assert(kept_behind(one, 0) == Seq::<Seq<char>>::empty());
    assert(kept_behind(one, 1) == Seq::<Seq<char>>::empty());
    let front = kept_pieces(x, from_root, x.len() as int);
    assert(front + kept_behind(one, 1) =~= front);
}

// ---------------------------------------------------------------------------
// Prompts and policies
// ---------------------------------------------------------------------------

/// Whether a directory has a profile under one of the names.
pub open spec fn has_any(dir: AgentsDir, names: Seq<Seq<char>>) -> bool {
    exists|p: int| 0 <= p < dir.profiles@.len() && names.contains((#[trigger] dir.profiles@[p]).name@)
}

/// The prompt of an agent is that of the first profile with its name in the first
/// directory that has one with a prompt.
pub proof fn the_first_prompt_is_taken(
    dirs: Seq<AgentsDir>,
    names: Seq<Seq<char>>,
    d: int,
    p: int,
)
    requires
        0 <= d < dirs.len(),
        0 <= p < dirs[d].profiles@.len(),
        names.contains(dirs[d].profiles@[p].name@),
        dirs[d].profiles@[p].system_prompt@.len() > 0,
        forall|q: int| 0 <= q < p ==> !names.contains((#[trigger] dirs[d].profiles@[q]).name@),
        forall|e: int| 0 <= e < d ==> !has_any(#[trigger] dirs[e], names),
    ensures
        prompt_in_dirs(dirs, names, 0) == dirs[d].profiles@[p].system_prompt@,
{
    lemma_first_in_dir(dirs[d].profiles@, names, 0, p);
    lemma_skipped_dirs(dirs, names, 0, d);
}

proof fn lemma_first_in_dir(profiles: Seq<ProfileFile>, names: Seq<Seq<char>>, from: int, p: int)
    requires
        0 <= from <= p < profiles.len(),
        names.contains(profiles[p].name@),
        forall|q: int| from <= q < p ==> !names.contains((#[trigger] profiles[q]).name@),
    ensures
        prompt_in_dir(profiles, names, from) == profiles[p].system_prompt@,
    decreases p - from,
{
    if from < p {
        assert(!names.contains(profiles[from].name@));
        lemma_first_in_dir(profiles, names, from + 1, p);
    }
}

proof fn lemma_none_in_dir(profiles: Seq<ProfileFile>, names: Seq<Seq<char>>, from: int)
    requires
        0 <= from <= profiles.len(),
        forall|q: int|
            from <= q < profiles.len() ==> !names.contains((#[trigger] profiles[q]).name@),
    ensures
        prompt_in_dir(profiles, names, from).len() == 0,
    decreases profiles.len() - from,
{
    if from < profiles.len() {
        assert(!names.contains(profiles[from].name@));
        lemma_none_in_dir(profiles, names, from + 1);
    }
}

proof fn lemma_skipped_dirs(dirs: Seq<AgentsDir>, names: Seq<Seq<char>>, from: int, d: int)
    requires
        0 <= from <= d <= dirs.len(),
        forall|e: int| from <= e < d ==> !has_any(#[trigger] dirs[e], names),
        d < dirs.len() ==> prompt_in_dir(dirs[d].profiles@, names, 0).len() > 0,
    ensures
        d < dirs.len() ==> prompt_in_dirs(dirs, names, from) == prompt_in_dir(
            dirs[d].profiles@,
            names,
            0,
        ),
        d == dirs.len() ==> prompt_in_dirs(dirs, names, from).len() == 0,
    decreases d - from,
{
    if from < d {
        assert(!has_any(dirs[from], names));
        let profiles = dirs[from].profiles@;
        assert forall|q: int| 0 <= q < profiles.len() implies !names.contains(
            (#[trigger] profiles[q]).name@,
        ) by {
            if names.contains(profiles[q].name@) {
                assert(names.contains(dirs[from].profiles@[q].name@));
                assert(has_any(dirs[from], names));
            }
        }
        lemma_none_in_dir(profiles, names, 0);
        lemma_skipped_dirs(dirs, names, from + 1, d);
    }
}

/// Where no directory has a profile with the name, there is no prompt.
pub proof fn an_unknown_agent_has_no_prompt(dirs: Seq<AgentsDir>, names: Seq<Seq<char>>)
    requires
        forall|e: int| 0 <= e < dirs.len() ==> !has_any(#[trigger] dirs[e], names),
    ensures
        prompt_in_dirs(dirs, names, 0).len() == 0,
{
    lemma_skipped_dirs(dirs, names, 0, dirs.len() as int);
}

/// A named agent is looked up under its name; without a name the general one is.
pub proof fn an_agent_is_looked_up_by_its_name(agent_name: Seq<char>, n: Seq<char>)
    ensures
        agent_name.len() > 0 ==> (candidates(agent_name).contains(n) <==> n == agent_name),
        agent_name.len() == 0 ==> (candidates(agent_name).contains(n) <==> n == "general"@ || n
            == "generalist"@),
{
    let one = seq![agent_name];
    let two = seq!["general"@, "generalist"@];
    assert(one[0] == agent_name);
    assert(two[0] == "general"@);
    assert(two[1] == "generalist"@);
}

/// The policy of an agent is what its first found profile allows, in full; an agent
/// without a profile is unrestricted.
pub proof fn a_policy_is_what_the_profile_allows(
    found: Seq<Option<AgentConfig>>,
    k: int,
    c: AgentConfig,
)
    requires
        0 <= k < found.len(),
        found[k] == Some(c),
        forall|i: int| 0 <= i < k ==> (#[trigger] found[i]) is None,
    ensures
        policy_of(first_found(found, 0)) == (PolicyView::Profile {
            allowed_tools: texts(c.allowed_tools@),
            shell_config: ShellView {
                allowed_commands: texts(c.shell_config.allowed_commands@),
                shell_type: c.shell_config.shell_type@,
                shell_timeout_ms: c.shell_config.shell_timeout_ms,
                shell_enabled: c.shell_config.shell_enabled,
                working_dir: match c.shell_config.working_dir {
                    Some(d) => Some(d@),
                    None => None,
                },
            },
            agent_name: c.name@,
            handoff_enabled: c.handoff_enabled,
            handoff_targets: texts(c.handoff_targets@),
            restart_enabled: c.restart_enabled,
            reasoning_effort: c.reasoning_effort,
            trim_config: match c.trim_config {
                Some(t) => Some(t@),
                None => None,
            },
        }),
{
    lemma_first_found(found, 0, k);
}

proof fn lemma_first_found(found: Seq<Option<AgentConfig>>, from: int, k: int)
    requires
        0 <= from <= k <= found.len(),
        forall|i: int| from <= i < k ==> (#[trigger] found[i]) is None,
        k < found.len() ==> found[k] is Some,
    ensures
        k < found.len() ==> first_found(found, from) == Some(found[k]->Some_0@),
        k == found.len() ==> first_found(found, from) is None,
    decreases k - from,
{
    if from < k {
        assert(found[from] is None);
        lemma_first_found(found, from + 1, k);
    }
}

/// An agent of whom no directory has a profile is unrestricted.
pub proof fn without_a_profile_nothing_is_restricted(found: Seq<Option<AgentConfig>>)
    requires
        forall|i: int| 0 <= i < found.len() ==> (#[trigger] found[i]) is None,
    ensures
        policy_of(first_found(found, 0)) == PolicyView::Unrestricted,
{
    lemma_first_found(found, 0, found.len() as int);
}

// ---------------------------------------------------------------------------
// The editor
// ---------------------------------------------------------------------------

/// Every tool but the shell is offered, and no other.
pub proof fn every_tool_but_the_shell_is_offered(names: Seq<Seq<char>>, t: Seq<char>)
    ensures
        offered_tools(names).contains(t) <==> names.contains(t) && t != "shell"@,
    decreases names.len(),
{
    if names.len() > 0 {
        let rest = names.drop_last();
        every_tool_but_the_shell_is_offered(rest, t);
        let before = offered_tools(rest);
        let now = offered_tools(names);
        assert(names[names.len() - 1] == names.last());
        if rest.contains(t) {
            let k = choose|k: int| 0 <= k < rest.len() && rest[k] == t;
            assert(names[k] == t);
        }
        if names.contains(t) && t != names.last() {
            let k = choose|k: int| 0 <= k < names.len() && names[k] == t;
            assert(rest[k] == t);
        }
        if names.last() != "shell"@ {
            assert(now[before.len() as int] == names.last());
            if before.contains(t) {
                let k = choose|k: int| 0 <= k < before.len() && before[k] == t;
                assert(now[k] == t);
            }
            if now.contains(t) && t != names.last() {
                let k = choose|k: int| 0 <= k < now.len() && now[k] == t;
                assert(before[k] == t);
            }
        }
    }
}

/// The chosen tools are exactly those whose box is checked.
pub proof fn exactly_the_checked_tools_are_chosen(
    available: Seq<Seq<char>>,
    boxes: Seq<bool>,
    n: int,
    t: Seq<char>,
)
    requires
        0 <= n <= available.len(),
        n <= boxes.len(),
    ensures
        chosen(available, boxes, n).contains(t) <==> exists|i: int|
            0 <= i < n && boxes[i] && #[trigger] available[i] == t,
    decreases n,
{
    if n > 0 {
        exactly_the_checked_tools_are_chosen(available, boxes, n - 1, t);
        let before = chosen(available, boxes, n - 1);
        let now = chosen(available, boxes, n);
        if boxes[n - 1] {
            assert(now[before.len() as int] == available[n - 1]);
            if before.contains(t) {
                let k = choose|k: int| 0 <= k < before.len() && before[k] == t;
                assert(now[k] == t);
            }
            if now.contains(t) && t != available[n - 1] {
                let k = choose|k: int| 0 <= k < now.len() && now[k] == t;
                assert(before[k] == t);
            }
        }
    }
}

/// The form of a loaded profile shows what the profile holds.
pub proof fn a_loaded_form_shows_the_profile(d: AgentDialogView, agent: AgentView, i: int)
    requires
        0 <= i < d.available_tools.len(),
    ensures
        ({
            let f = d.loaded(agent);
            &&& f.name == agent.name
            &&& f.description == agent.description
            &&& f.system_prompt == agent.system_prompt
            &&& f.enabled == agent.enabled
            &&& f.reasoning_effort == agent.reasoning_effort
            &&& f.shell_enabled == agent.shell_config.shell_enabled
            &&& f.shell_type == agent.shell_config.shell_type
            &&& agent.shell_config.shell_timeout_ms <= u32::MAX ==> f.shell_timeout_ms
                == agent.shell_config.shell_timeout_ms
            &&& f.shell_allowed_commands == join(agent.shell_config.allowed_commands, ", "@)
            &&& f.handoff_enabled == agent.handoff_enabled
            &&& f.handoff_targets == join(agent.handoff_targets, ", "@)
            &&& f.allowed_tools == agent.allowed_tools
            &&& f.tool_checkboxes.len() == d.available_tools.len()
            &&& f.tool_checkboxes[i] <==> agent.allowed_tools.contains(d.available_tools[i])
            &&& f.message is None
            &&& !f.is_new
            &&& f.agents == d.agents
            &&& f.available_tools == d.available_tools
            &&& f.selected_index == d.selected_index
            &&& f.open == d.open
        }),
{
}

/// What is saved is what the form shows, without space at the ends of the name and
/// the description; what the form does not show has its default.
pub proof fn a_saved_profile_is_what_the_form_shows(d: AgentDialogView)
    requires
        d.tool_checkboxes.len() == d.available_tools.len(),
    ensures
        ({
            let a = d.described();
            &&& a.name == trim(d.name)
            &&& a.description == trim(d.description)
            &&& a.system_prompt == d.system_prompt
            &&& a.enabled == d.enabled
            &&& a.reasoning_effort == d.reasoning_effort
            &&& a.shell_config.shell_enabled == d.shell_enabled
            &&& a.shell_config.shell_type == d.shell_type
            &&& a.shell_config.shell_timeout_ms == d.shell_timeout_ms
            &&& a.shell_config.allowed_commands == comma_list(d.shell_allowed_commands)
            &&& a.shell_config.working_dir is None
            &&& a.handoff_enabled == d.handoff_enabled
            &&& a.handoff_targets == comma_list(d.handoff_targets)
            &&& a.allowed_tools == chosen(
                d.available_tools,
                d.tool_checkboxes,
                d.available_tools.len() as int,
            )
            &&& a.restart_enabled
            &&& a.task_timeout_ms == 60_000
            &&& a.trim_config is None
            &&& a.agents_dir.len() == 0
            &&& a.agents_search_dirs.len() == 0
            &&& a.custom_prompts.len() == 0
        }),
{
}

/// A new profile is added; a changed one takes the place of the selected one, under
/// the name that it had; with neither, nothing is written.
pub proof fn a_profile_is_saved_in_its_place(d: AgentDialogView, t: SaveTarget)
    requires
        save_goes(d, t),
    ensures
        d.is_new ==> t is Add,
        !d.is_new && d.selected_index >= 0 ==> (t matches SaveTarget::Edit { old_name }
            && old_name@ == d.agents[d.selected_index as int].name),
        !d.is_new && d.selected_index < 0 ==> t is Nowhere,
{
}

/// An empty form has no text and no checked tool, and the defaults of a new profile;
/// the list of profiles and the offered tools stay.
pub proof fn an_empty_form_has_the_defaults(d: AgentDialogView, i: int)
    requires
        0 <= i < d.tool_checkboxes.len(),
    ensures
        ({
            let f = d.cleared();
            &&& f.name.len() == 0 && f.description.len() == 0 && f.system_prompt.len() == 0
            &&& f.enabled
            &&& f.reasoning_effort == ReasoningEffort::Off
            &&& !f.shell_enabled
            &&& f.shell_type == "powershell"@
            &&& f.shell_timeout_ms == 300_000
            &&& f.shell_allowed_commands.len() == 0
            &&& !f.handoff_enabled && f.handoff_targets.len() == 0
            &&& f.allowed_tools.len() == 0
            &&& f.tool_checkboxes.len() == d.tool_checkboxes.len()
            &&& !f.tool_checkboxes[i]
            &&& !f.is_new && f.selected_index == -1 && f.message is None
            &&& f.agents == d.agents && f.available_tools == d.available_tools && f.open == d.open
        }),
{
}

/// The position of a name is the first at which the list has it.
pub proof fn a_profile_is_found_by_its_name(agents: Seq<AgentView>, name: Seq<char>)
    ensures
        match position_of(agents, name, 0) {
            Some(p) => 0 <= p < agents.len() && agents[p].name == name && forall|i: int|
                0 <= i < p ==> (#[trigger] agents[i]).name != name,
            None => forall|i: int| 0 <= i < agents.len() ==> (#[trigger] agents[i]).name != name,
        },
{
    lemma_position_of(agents, name, 0);
}

proof fn lemma_position_of(agents: Seq<AgentView>, name: Seq<char>, from: int)
    requires
        0 <= from,
    ensures
        match position_of(agents, name, from) {
            Some(p) => from <= p < agents.len() && agents[p].name == name && forall|i: int|
                from <= i < p ==> (#[trigger] agents[i]).name != name,
            None => forall|i: int| from <= i < agents.len() ==> (#[trigger] agents[i]).name != name,
        },
    decreases agents.len() - from,
{
    if from < agents.len() && agents[from].name != name {
        lemma_position_of(agents, name, from + 1);
    }
}

// ---------------------------------------------------------------------------
// The history
// ---------------------------------------------------------------------------

proof fn lemma_no_hyphen(n: nat, rest: Seq<char>)
    ensures
        find(decimal(n) + "-"@ + rest, "-"@) == Some(decimal(n).len() as int),
        find(decimal(n), "-"@) is None,
{
    reveal_strlit("-");
    lemma_decimal_digits(n);
    let d = decimal(n);
    let s = d + "-"@ + rest;
    assert(s.subrange(d.len() as int, d.len() as int + 1) =~= "-"@);
    assert forall|j: int| 0 <= j < d.len() implies !occurs_at(s, "-"@, j) by {
        assert(is_digit(d[j]));
        assert(s.subrange(j, j + 1)[0] == d[j]);
    }
    lemma_find_is(s, "-"@, 0, d.len() as int);
    lemma_find_from(d, "-"@, 0);
    assert forall|j: int| 0 <= j implies !occurs_at(d, "-"@, j) by {
        if occurs_at(d, "-"@, j) {
            assert(is_digit(d[j]));
            assert(d.subrange(j, j + 1)[0] == d[j]);
        }
    }
}

/// The name of a snapshot reads back: the time and the number that were written into
/// it, and no number where none was.
pub proof fn a_snapshot_name_reads_back(name: Seq<char>, ts: u64, seq: u32)
    ensures
        ts_seq(decimal(ts as nat)) == (ts as int, 0int),
        ts_seq(decimal(ts as nat) + "-"@ + decimal(seq as nat)) == (ts as int, seq as int),
        snapshot_order(name + "-"@ + decimal(ts as nat) + ".json"@, name) == (ts as int, 0int),
        snapshot_order(
            name + "-"@ + (decimal(ts as nat) + "-"@ + decimal(seq as nat)) + ".json"@,
            name,
        ) == (ts as int, seq as int),
{
    let d = decimal(ts as nat);
    let e = decimal(seq as nat);
    lemma_no_hyphen(ts as nat, e);
    decimal_reads_back(ts as nat, u64::MAX as int);
    decimal_reads_back(seq as nat, u32::MAX as int);
    let both = d + "-"@ + e;
    reveal_strlit("-");
    assert(both.take(d.len() as int) =~= d);
    assert(both.skip(d.len() as int + 1) =~= e);
    reveal_with_fuel(splitn, 3);
    assert(splitn(d, "-"@, 2) =~= seq![d]);
    assert(splitn(both, "-"@, 2) =~= seq![d, e]);
    lemma_stem(name, d);
    lemma_stem(name, both);
}

proof fn lemma_stem(name: Seq<char>, tail: Seq<char>)
    ensures
        snapshot_order(name + "-"@ + tail + ".json"@, name) == ts_seq(tail),
{
    let stem = name + "-"@ + tail;
    let file = stem + ".json"@;
    assert(".json"@.is_suffix_of(file)) by {
        assert(file.skip(file.len() - ".json"@.len()) =~= ".json"@);
    }
    assert(file.take(file.len() - ".json"@.len()) =~= stem);
    assert((name + "-"@).is_prefix_of(stem));
    assert(stem.skip((name + "-"@).len() as int) =~= tail);
}

/// Every entry of the history is a snapshot with its directory, its path and the
/// time and number of its name; and every snapshot whose name has a time is there,
/// under this or another spelling of its path.
pub proof fn the_history_is_the_dated_snapshots(lists: Seq<SnapshotList>, name: Seq<char>)
    ensures
        forall|i: int|
            0 <= i < history(lists, name).len() ==> dates(
                all_snapshots(lists),
                name,
                #[trigger] history(lists, name)[i],
            ),
        forall|k: int|
            0 <= k < all_snapshots(lists).len() && snapshot_order(
                (#[trigger] all_snapshots(lists)[k]).file_name,
                name,
            ).0 > 0 ==> shows(history(lists, name), all_snapshots(lists)[k].path),
{
    let all = all_snapshots(lists);
    let d = dated(all, name);
    let h = history(lists, name);
    lemma_dated(all, name);
    sorting_keeps_the_entries(d);
    assert forall|i: int| 0 <= i < h.len() implies dates(all, name, #[trigger] h[i]) by {
        assert(h.to_multiset().count(h[i]) > 0) by {
            h.to_multiset_ensures();
            assert(h.contains(h[i]));
        }
        d.to_multiset_ensures();
        assert(d.contains(h[i]));
        let j = choose|j: int| 0 <= j < d.len() && d[j] == h[i];
        assert(dates(all, name, d[j]));
    }
    assert forall|k: int|
        0 <= k < all.len() && snapshot_order((#[trigger] all[k]).file_name, name).0
            > 0 implies shows(h, all[k].path) by {
        assert(shows(d, all[k].path));
        let j = choose|j: int| 0 <= j < d.len() && same_path((#[trigger] d[j]).path, all[k].path);
        d.to_multiset_ensures();
        assert(d.contains(d[j]));
        h.to_multiset_ensures();
        assert(d.to_multiset().count(d[j]) > 0);
        assert(h.to_multiset().count(d[j]) > 0);
        assert(h.contains(d[j]));
        let i = choose|i: int| 0 <= i < h.len() && h[i] == d[j];
        assert(same_path(h[i].path, all[k].path));
    }
}

/// The history goes from the newest snapshot to the oldest: by the time, and within
/// one second by the number.
pub proof fn the_history_goes_back_in_time(
    lists: Seq<SnapshotList>,
    name: Seq<char>,
    i: int,
    j: int,
)
    requires
        0 <= i < j < history(lists, name).len(),
    ensures
        ({
            let a = history(lists, name)[i];
            let b = history(lists, name)[j];
            a.ts > b.ts || (a.ts == b.ts && a.seq >= b.seq)
        }),
{
    history_keeps_its_promises(lists, name);
}

/// Whether an entry is one of the snapshots, with the time and number of its name.
pub open spec fn dates(snapshots: Seq<SnapshotView>, name: Seq<char>, e: HistoryView) -> bool {
    exists|k: int|
        0 <= k < snapshots.len() && (#[trigger] snapshots[k]).path == e.path && snapshots[k].dir
            == e.dir && snapshot_order(snapshots[k].file_name, name) == (e.ts as int, e.seq as int)
}

/// Whether some entry has this path.
pub open spec fn shows(entries: Seq<HistoryView>, path: Seq<char>) -> bool {
    exists|i: int| 0 <= i < entries.len() && same_path((#[trigger] entries[i]).path, path)
}

proof fn lemma_order_fits(file_name: Seq<char>, name: Seq<char>)
    ensures
        0 <= snapshot_order(file_name, name).0 <= u64::MAX,
        0 <= snapshot_order(file_name, name).1 <= u32::MAX,
{
    let stem = match without_suffix(file_name, ".json"@) {
        Some(s) => s,
        None => file_name,
    };
    let tail = match without_prefix(stem, name + "-"@) {
        Some(t) => t,
        None => Seq::empty(),
    };
    let parts = splitn(tail, "-"@, 2);
    lemma_name_number(parts[0], u64::MAX as int);
    if parts.len() > 1 {
        lemma_name_number(parts[1], u32::MAX as int);
    }
}

proof fn lemma_name_number(s: Seq<char>, max: int)
    requires
        0 <= max,
    ensures
        0 <= name_number(s, max) <= max,
{
    lemma_value_sign(s);
    if s.len() > 0 {
        lemma_value_sign(s.drop_first());
    }
}

proof fn lemma_value_sign(s: Seq<char>)
    ensures
        all_digits(s) ==> value(s) >= 0,
    decreases s.len(),
{
    if s.len() > 1 && all_digits(s) {
        let t = s.drop_last();
        assert forall|i: int| 0 <= i < t.len() implies is_digit(#[trigger] t[i]) by {
            assert(t[i] == s[i]);
        }
        lemma_value_sign(t);
        assert(is_digit(s[s.len() - 1]));
    } else if s.len() == 1 && all_digits(s) {
        assert(is_digit(s[0]));
        assert(value(s.drop_last()) == 0);
    }
}

proof fn lemma_dated(snapshots: Seq<SnapshotView>, name: Seq<char>)
    ensures
        forall|i: int|
            0 <= i < dated(snapshots, name).len() ==> dates(
                snapshots,
                name,
                #[trigger] dated(snapshots, name)[i],
            ),
        forall|k: int|
            0 <= k < snapshots.len() && snapshot_order(
                (#[trigger] snapshots[k]).file_name,
                name,
            ).0 > 0 ==> shows(dated(snapshots, name), snapshots[k].path),
    decreases snapshots.len(),
{
    if snapshots.len() > 0 {
        let rest = snapshots.drop_last();
        let s = snapshots.last();
        lemma_dated(rest, name);
        lemma_order_fits(s.file_name, name);
        let before = dated(rest, name);
        let now = dated(snapshots, name);
        assert(snapshots[snapshots.len() - 1] == s);
        assert forall|i: int| 0 <= i < now.len() implies dates(
            snapshots,
            name,
            #[trigger] now[i],
        ) by {
            if i < before.len() {
                assert(now[i] == before[i]);
                assert(dates(rest, name, before[i]));
                let k = choose|k: int|
                    0 <= k < rest.len() && (#[trigger] rest[k]).path == before[i].path
                        && rest[k].dir == before[i].dir && snapshot_order(rest[k].file_name, name)
                        == (before[i].ts as int, before[i].seq as int);
                assert(snapshots[k] == rest[k]);
            } else {
                assert(snapshots[snapshots.len() - 1].path == now[i].path);
            }
        }
        assert forall|k: int|
            0 <= k < snapshots.len() && snapshot_order(
                (#[trigger] snapshots[k]).file_name,
                name,
            ).0 > 0 implies shows(now, snapshots[k].path) by {
            if k < rest.len() {
                assert(rest[k] == snapshots[k]);
                assert(shows(before, rest[k].path));
                let i = choose|i: int|
                    0 <= i < before.len() && same_path((#[trigger] before[i]).path, rest[k].path);
                assert(now[i] == before[i]);
            } else if now != before {
                assert(now[before.len() as int].path == s.path);
            }
        }
    }
}

/// Every listed file of every directory is a snapshot, with its directory, its path
/// and its name; no other is.
pub proof fn every_listed_file_is_a_snapshot(lists: Seq<SnapshotList>, s: SnapshotView)
    ensures
        all_snapshots(lists).contains(s) <==> exists|l: int|
            0 <= l < lists.len() && lists_file(#[trigger] lists[l], s),
    decreases lists.len(),
{
    if lists.len() > 0 {
        let rest = lists.drop_last();
        every_listed_file_is_a_snapshot(rest, s);
        let a = all_snapshots(rest);
        let b = lists.last().snapshots();
        let all = all_snapshots(lists);
        assert(all == a + b);
        if a.contains(s) {
            let k = choose|k: int| 0 <= k < a.len() && a[k] == s;
            assert(all[k] == s);
            let l = choose|l: int| 0 <= l < rest.len() && lists_file(#[trigger] rest[l], s);
            assert(lists[l] == rest[l]);
        }
        if b.contains(s) {
            let k = choose|k: int| 0 <= k < b.len() && b[k] == s;
            assert(all[a.len() + k] == s);
            let f = lists.last().files->Some_0@[k];
            assert(f.path@ == s.path);
            assert(lists_file(lists[lists.len() - 1], s));
        }
        if all.contains(s) {
            let k = choose|k: int| 0 <= k < all.len() && all[k] == s;
            if k < a.len() {
                assert(a[k] == s);
            } else {
                assert(b[k - a.len()] == s);
            }
        }
        if exists|l: int| 0 <= l < lists.len() && lists_file(#[trigger] lists[l], s) {
            let l = choose|l: int| 0 <= l < lists.len() && lists_file(#[trigger] lists[l], s);
            if l < rest.len() {
                assert(rest[l] == lists[l]);
            } else {
                let v = lists.last().files->Some_0@;
                let k = choose|k: int|
                    0 <= k < v.len() && (#[trigger] v[k]).path@ == s.path && (match v[k].file_name {
                        Some(f) => f@ == s.file_name,
                        None => s.file_name.len() == 0,
                    });
                assert(b[k].file_name =~= s.file_name);
                assert(b[k] == s);
            }
        }
    }
}

/// Whether a directory's list has a file with this path and name.
pub open spec fn lists_file(list: SnapshotList, s: SnapshotView) -> bool {
    &&& list.dir@ == s.dir
    &&& list.files matches Some(v) && exists|k: int|
        0 <= k < v@.len() && (#[trigger] v@[k]).path@ == s.path && (match v@[k].file_name {
            Some(f) => f@ == s.file_name,
            None => s.file_name.len() == 0,
        })
}

/// The preview of a prompt is its words on one line, cut to 57 characters and three
/// dots where that line is longer than 60.
pub proof fn a_preview_is_the_prompt_on_one_line(prompt: Seq<char>)
    ensures
        ({
            let line = join(words(prompt), " "@);
            &&& line.len() <= 60 ==> preview(prompt) == line
            &&& line.len() > 60 ==> preview(prompt) == line.take(57) + "..."@
        }),
{
}

/// The prompt of a snapshot is the text under its name; a snapshot without one, or
/// one that cannot be read, has none.
pub proof fn a_snapshots_prompt_is_read(t: JsonTree, s: Seq<char>)
    ensures
        t.get("system_prompt"@) == Some(JsonTree::Text(s)) ==> prompt_in(Some(t)) == s,
        !(t.get("system_prompt"@) matches Some(JsonTree::Text(_))) ==> prompt_in(Some(t)).len()
            == 0,
        prompt_in(None).len() == 0,
{
}

/// A time is labelled as it was written out, or by its number where it could not be.
pub proof fn a_time_is_labelled(ts: u64, written: Seq<char>)
    ensures
        time_label(ts, Some(written)) == written,
        time_label(ts, None) == "timestamp "@ + decimal(ts as nat),
{
}

} // verus!
