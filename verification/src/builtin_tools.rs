//! The tools that each kind of agent is given.
use vstd::prelude::*;

verus! {

/// A tool of the harness itself.
#[derive(Debug, Clone, Copy, PartialEq, Eq, Structural)]
pub enum BuiltinTool {
    Read,
    Write,
    Edit,
    Bash,
    Grep,
    Glob,
    RepoMap,
    Skill,
    Task,
    TaskOutput,
    AskUserQuestion,
    TodoWrite,
    TodoList,
    FetchUrl,
    WebSearch,
    EnterPlanMode,
    ExitPlanMode,
    PublishGithub,
}

/// The name under which the model calls a tool.
pub open spec fn tool_name(tool: BuiltinTool) -> Seq<char> {
    match tool {
        BuiltinTool::Read => "Read"@,
        BuiltinTool::Write => "Write"@,
        BuiltinTool::Edit => "Edit"@,
        BuiltinTool::Bash => "Bash"@,
        BuiltinTool::Grep => "Grep"@,
        BuiltinTool::Glob => "Glob"@,
        BuiltinTool::RepoMap => "RepoMap"@,
        BuiltinTool::Skill => "Skill"@,
        BuiltinTool::Task => "Task"@,
        BuiltinTool::TaskOutput => "TaskOutput"@,
        BuiltinTool::AskUserQuestion => "AskUserQuestion"@,
        BuiltinTool::TodoWrite => "TodoWrite"@,
        BuiltinTool::TodoList => "TodoList"@,
        BuiltinTool::FetchUrl => "FetchUrl"@,
        BuiltinTool::WebSearch => "WebSearch"@,
        BuiltinTool::EnterPlanMode => "EnterPlanMode"@,
        BuiltinTool::ExitPlanMode => "ExitPlanMode"@,
        BuiltinTool::PublishGithub => "PublishGithub"@,
    }
}

impl BuiltinTool {
    /// The name under which the model calls the tool.
    pub fn name(self) -> (r: &'static str)
        ensures
            r@ == tool_name(self),
    {
        match self {
            BuiltinTool::Read => "Read",
            BuiltinTool::Write => "Write",
            BuiltinTool::Edit => "Edit",
            BuiltinTool::Bash => "Bash",
            BuiltinTool::Grep => "Grep",
            BuiltinTool::Glob => "Glob",
            BuiltinTool::RepoMap => "RepoMap",
            BuiltinTool::Skill => "Skill",
            BuiltinTool::Task => "Task",
            BuiltinTool::TaskOutput => "TaskOutput",
            BuiltinTool::AskUserQuestion => "AskUserQuestion",
            BuiltinTool::TodoWrite => "TodoWrite",
            BuiltinTool::TodoList => "TodoList",
            BuiltinTool::FetchUrl => "FetchUrl",
            BuiltinTool::WebSearch => "WebSearch",
            BuiltinTool::EnterPlanMode => "EnterPlanMode",
            BuiltinTool::ExitPlanMode => "ExitPlanMode",
            BuiltinTool::PublishGithub => "PublishGithub",
        }
    }
}

/// What a main agent may do.
#[derive(Debug, Clone, Copy, PartialEq, Eq, Structural)]
pub enum AgentProfile {
    Full,
    Explore,
    Coder,
}

/// What a subagent may do.
#[derive(Debug, Clone, Copy, PartialEq, Eq, Structural)]
pub enum SubagentProfile {
    Explore,
    Coder,
}

/// Tools that change files or run commands.
pub open spec fn changes_workspace(tool: BuiltinTool) -> bool {
    tool is Write || tool is Edit || tool is Bash
}

/// The working tools of a full agent, without those of a cloud session.
pub open spec fn standard_tools() -> Seq<BuiltinTool> {
    seq![
        BuiltinTool::Read,
        BuiltinTool::Write,
        BuiltinTool::Edit,
        BuiltinTool::Bash,
        BuiltinTool::Grep,
        BuiltinTool::Glob,
        BuiltinTool::RepoMap,
        BuiltinTool::Skill,
        BuiltinTool::Task,
        BuiltinTool::TaskOutput,
        BuiltinTool::AskUserQuestion,
        BuiltinTool::TodoWrite,
        BuiltinTool::TodoList,
        BuiltinTool::FetchUrl,
        BuiltinTool::WebSearch,
        BuiltinTool::EnterPlanMode,
        BuiltinTool::ExitPlanMode,
    ]
}

/// The tools with that of a cloud session, where there is one.
pub open spec fn with_publish(tools: Seq<BuiltinTool>, cloud_publish: bool) -> Seq<BuiltinTool> {
    if cloud_publish {
        tools.push(BuiltinTool::PublishGithub)
    } else {
        tools
    }
}

/// The tools of an exploring main agent.
pub open spec fn exploring_tools() -> Seq<BuiltinTool> {
    seq![
        BuiltinTool::Read,
        BuiltinTool::Grep,
        BuiltinTool::Glob,
        BuiltinTool::RepoMap,
        BuiltinTool::Skill,
        BuiltinTool::AskUserQuestion,
        BuiltinTool::TodoWrite,
        BuiltinTool::TodoList,
        BuiltinTool::FetchUrl,
        BuiltinTool::WebSearch,
        BuiltinTool::EnterPlanMode,
        BuiltinTool::ExitPlanMode,
    ]
}

/// The tools of a main agent.
pub open spec fn profile_tools(profile: AgentProfile, cloud_publish: bool) -> Seq<BuiltinTool> {
    match profile {
        AgentProfile::Full => with_publish(standard_tools(), cloud_publish),
        AgentProfile::Explore => exploring_tools(),
        AgentProfile::Coder => with_publish(standard_tools(), cloud_publish),
    }
}

/// The tools of a subagent.
pub open spec fn subagent_tools(profile: SubagentProfile) -> Seq<BuiltinTool> {
    match profile {
        SubagentProfile::Explore => seq![
            BuiltinTool::Read,
            BuiltinTool::Grep,
            BuiltinTool::Glob,
            BuiltinTool::RepoMap,
        ],
        SubagentProfile::Coder => seq![
            BuiltinTool::Read,
            BuiltinTool::Write,
            BuiltinTool::Edit,
            BuiltinTool::Bash,
            BuiltinTool::Grep,
            BuiltinTool::Glob,
            BuiltinTool::RepoMap,
        ],
    }
}

/// All tools of the harness. `cloud_publish` tells whether publishing is available.
pub fn builtin_tools(cloud_publish: bool) -> (r: Vec<BuiltinTool>)
    ensures
        r@ == with_publish(standard_tools(), cloud_publish),
{
    with_cloud_publish(
        vec![
            BuiltinTool::Read,
            BuiltinTool::Write,
            BuiltinTool::Edit,
            BuiltinTool::Bash,
            BuiltinTool::Grep,
            BuiltinTool::Glob,
            BuiltinTool::RepoMap,
            BuiltinTool::Skill,
            BuiltinTool::Task,
            BuiltinTool::TaskOutput,
            BuiltinTool::AskUserQuestion,
            BuiltinTool::TodoWrite,
            BuiltinTool::TodoList,
            BuiltinTool::FetchUrl,
            BuiltinTool::WebSearch,
            BuiltinTool::EnterPlanMode,
            BuiltinTool::ExitPlanMode,
        ],
        cloud_publish,
    )
}

fn with_cloud_publish(tools: Vec<BuiltinTool>, cloud_publish: bool) -> (r: Vec<BuiltinTool>)
    ensures
        r@ == with_publish(tools@, cloud_publish),
{
    let mut tools = tools;
    if cloud_publish {
        tools.push(BuiltinTool::PublishGithub);
    }
    tools
}

/// The tools of a main agent.
pub fn agent_tools(profile: AgentProfile, cloud_publish: bool) -> (r: Vec<BuiltinTool>)
    ensures
        r@ == profile_tools(profile, cloud_publish),
{
    match profile {
        AgentProfile::Full => builtin_tools(cloud_publish),
        AgentProfile::Explore => {
            let tools = vec![
                BuiltinTool::Read,
                BuiltinTool::Grep,
                BuiltinTool::Glob,
                BuiltinTool::RepoMap,
                BuiltinTool::Skill,
                BuiltinTool::AskUserQuestion,
                BuiltinTool::TodoWrite,
                BuiltinTool::TodoList,
                BuiltinTool::FetchUrl,
                BuiltinTool::WebSearch,
                BuiltinTool::EnterPlanMode,
                BuiltinTool::ExitPlanMode,
            ];
            proof {
                assert(tools@ == exploring_tools());
            }
            tools
        },
        AgentProfile::Coder => builtin_tools(cloud_publish),
    }
}

/// All tools of the harness under the default configuration.
pub fn default_builtin_tools(cloud_publish: bool) -> (r: Vec<BuiltinTool>)
    ensures
        r@ == with_publish(standard_tools(), cloud_publish),
{
    builtin_tools(cloud_publish)
}

/// The tools of a subagent.
pub fn tools_for_profile(profile: SubagentProfile) -> (r: Vec<BuiltinTool>)
    ensures
        r@ == subagent_tools(profile),
{
    let tools = match profile {
        SubagentProfile::Explore => vec![
            BuiltinTool::Read,
            BuiltinTool::Grep,
            BuiltinTool::Glob,
            BuiltinTool::RepoMap,
        ],
        SubagentProfile::Coder => vec![
            BuiltinTool::Read,
            BuiltinTool::Write,
            BuiltinTool::Edit,
            BuiltinTool::Bash,
            BuiltinTool::Grep,
            BuiltinTool::Glob,
            BuiltinTool::RepoMap,
        ],
    };
    proof {
        assert(tools@ == subagent_tools(profile));
    }
    tools
}

/// The lightweight harness toolset.
pub fn core_tools() -> (r: Vec<BuiltinTool>)
    ensures
        r@ == seq![
            BuiltinTool::Read,
            BuiltinTool::Write,
            BuiltinTool::Edit,
            BuiltinTool::Bash,
            BuiltinTool::Grep,
            BuiltinTool::Glob,
        ],
{
    vec![
        BuiltinTool::Read,
        BuiltinTool::Write,
        BuiltinTool::Edit,
        BuiltinTool::Bash,
        BuiltinTool::Grep,
        BuiltinTool::Glob,
    ]
}

/// The read-only inspection toolset.
pub fn minimal_tools() -> (r: Vec<BuiltinTool>)
    ensures
        r@ == seq![BuiltinTool::Read, BuiltinTool::Grep, BuiltinTool::Glob],
{
    vec![BuiltinTool::Read, BuiltinTool::Grep, BuiltinTool::Glob]
}

/// An exploring agent or subagent has no tool that changes files or runs commands,
/// and can start no other agent.
pub proof fn explorers_only_look(i: int)
    ensures
        0 <= i < exploring_tools().len() ==> !changes_workspace(exploring_tools()[i])
            && !(exploring_tools()[i] is Task),
        0 <= i < subagent_tools(SubagentProfile::Explore).len() ==> !changes_workspace(
            subagent_tools(SubagentProfile::Explore)[i],
        ) && !(subagent_tools(SubagentProfile::Explore)[i] is Task),
{
}

/// No subagent can start another subagent.
pub proof fn subagents_start_no_tasks(profile: SubagentProfile, i: int)
    ensures
        0 <= i < subagent_tools(profile).len() ==> !(subagent_tools(profile)[i] is Task),
{
}

/// A full agent and a coding one have every tool of the harness, each once, and publishing
/// exactly where it is available. An exploring one has all of them but those that change the
/// workspace, start other agents or publish.
pub proof fn profiles_have_their_tools(tool: BuiltinTool, cloud_publish: bool)
    ensures
        !(tool is PublishGithub) ==> profile_tools(AgentProfile::Full, cloud_publish).contains(tool)
            && profile_tools(AgentProfile::Coder, cloud_publish).contains(tool),
        profile_tools(AgentProfile::Full, cloud_publish).contains(BuiltinTool::PublishGithub)
            <==> cloud_publish,
        profile_tools(AgentProfile::Coder, cloud_publish).contains(BuiltinTool::PublishGithub)
            <==> cloud_publish,
        profile_tools(AgentProfile::Explore, cloud_publish).contains(tool) <==> !(tool is Write
            || tool is Edit || tool is Bash || tool is Task || tool is TaskOutput
            || tool is PublishGithub),
        profile_tools(AgentProfile::Full, cloud_publish).no_duplicates(),
        profile_tools(AgentProfile::Explore, cloud_publish).no_duplicates(),
{
    let all = standard_tools();
    let full = profile_tools(AgentProfile::Full, cloud_publish);
    let explore = exploring_tools();
    assert(full.take(17) == all);
    assert forall|i: int| 0 <= i < 17 implies full[i] == #[trigger] all[i] by {
        assert(full.take(17)[i] == full[i]);
    }
    let at = place_of(tool);
    if !(tool is PublishGithub) {
        assert(all[at] == tool);
        assert(full[at] == tool);
    }
    if cloud_publish {
        assert(full[17] == BuiltinTool::PublishGithub);
    }
    let e = exploring_place_of(tool);
    if e >= 0 {
        assert(explore[e] == tool);
    }
}

spec fn place_of(tool: BuiltinTool) -> int {
    match tool {
        BuiltinTool::Read => 0,
        BuiltinTool::Write => 1,
        BuiltinTool::Edit => 2,
        BuiltinTool::Bash => 3,
        BuiltinTool::Grep => 4,
        BuiltinTool::Glob => 5,
        BuiltinTool::RepoMap => 6,
        BuiltinTool::Skill => 7,
        BuiltinTool::Task => 8,
        BuiltinTool::TaskOutput => 9,
        BuiltinTool::AskUserQuestion => 10,
        BuiltinTool::TodoWrite => 11,
        BuiltinTool::TodoList => 12,
        BuiltinTool::FetchUrl => 13,
        BuiltinTool::WebSearch => 14,
        BuiltinTool::EnterPlanMode => 15,
        BuiltinTool::ExitPlanMode => 16,
        BuiltinTool::PublishGithub => 17,
    }
}

spec fn exploring_place_of(tool: BuiltinTool) -> int {
    match tool {
        BuiltinTool::Read => 0,
        BuiltinTool::Grep => 1,
        BuiltinTool::Glob => 2,
        BuiltinTool::RepoMap => 3,
        BuiltinTool::Skill => 4,
        BuiltinTool::AskUserQuestion => 5,
        BuiltinTool::TodoWrite => 6,
        BuiltinTool::TodoList => 7,
        BuiltinTool::FetchUrl => 8,
        BuiltinTool::WebSearch => 9,
        BuiltinTool::EnterPlanMode => 10,
        BuiltinTool::ExitPlanMode => 11,
        _ => -1,
    }
}

/// A subagent reads, searches and maps the repository; a coding one also writes, edits and
/// runs commands, and neither has any other tool.
pub proof fn subagents_have_working_tools_only(tool: BuiltinTool)
    ensures
        subagent_tools(SubagentProfile::Explore).contains(tool) <==> tool is Read || tool is Grep
            || tool is Glob || tool is RepoMap,
        subagent_tools(SubagentProfile::Coder).contains(tool) <==> tool is Read || tool is Grep
            || tool is Glob || tool is RepoMap || tool is Write || tool is Edit || tool is Bash,
{
    let explore = subagent_tools(SubagentProfile::Explore);
    assert(explore[0] is Read && explore[1] is Grep && explore[2] is Glob && explore[3] is RepoMap);
    let coder = subagent_tools(SubagentProfile::Coder);
    assert(coder[0] is Read && coder[1] is Write && coder[2] is Edit && coder[3] is Bash
        && coder[4] is Grep && coder[5] is Glob && coder[6] is RepoMap);
}

/// The lightweight toolset reads, writes, edits, runs commands and searches; the minimal one
/// only reads and searches.
pub proof fn small_toolsets_hold_what_they_promise(
    lightweight: Vec<BuiltinTool>,
    minimal: Vec<BuiltinTool>,
    tool: BuiltinTool,
)
    requires
        call_ensures(core_tools, (), lightweight),
        call_ensures(minimal_tools, (), minimal),
    ensures
        lightweight@.contains(tool) <==> tool is Read || tool is Write || tool is Edit
            || tool is Bash || tool is Grep || tool is Glob,
        minimal@.contains(tool) <==> tool is Read || tool is Grep || tool is Glob,
        lightweight@.len() == 6,
        minimal@.len() == 3,
{
    assert(lightweight@[0] is Read && lightweight@[1] is Write && lightweight@[2] is Edit
        && lightweight@[3] is Bash && lightweight@[4] is Grep && lightweight@[5] is Glob);
    assert(minimal@[0] is Read && minimal@[1] is Grep && minimal@[2] is Glob);
}

/// The tools that the permission rules speak of go by the names that the rules use.
pub proof fn tools_go_by_their_names()
    ensures
        tool_name(BuiltinTool::Write) == "Write"@,
        tool_name(BuiltinTool::Edit) == "Edit"@,
        tool_name(BuiltinTool::Bash) == "Bash"@,
        tool_name(BuiltinTool::Read) == "Read"@,
        tool_name(BuiltinTool::Grep) == "Grep"@,
        tool_name(BuiltinTool::Glob) == "Glob"@,
        tool_name(BuiltinTool::TodoWrite) == "TodoWrite"@,
        tool_name(BuiltinTool::PublishGithub) == "PublishGithub"@,
        tool_name(BuiltinTool::Task) == "Task"@,
{
}

} // verus!
