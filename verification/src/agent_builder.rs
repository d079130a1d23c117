//! Assembly of an agent: which parts are taken as given and which are made from the
//! configuration.
use vstd::prelude::*;

use crate::agent::Agent;
use crate::builtin_tools::{
    agent_tools, core_tools, minimal_tools, profile_tools, AgentProfile, BuiltinTool,
};
use crate::context_engine::{initial_state, ContextEngine, ContextState};
use crate::hooks::{HookRunner, HookSpec};
use crate::llm::{Message, Role};
use crate::permission::{
    fresh_policy, rule_list, GatePolicy, NoPrompter, PermissionGate, PermissionMode, PermissionRule,
    RuleAction,
};
use crate::text::{opt_text, same_text, to_lowercase, trim, trimmed, unicode_lowercase};

verus! {

/// A permission rule as it was configured.
#[derive(Debug, Clone)]
pub struct RuleEntry {
    pub pattern: String,
    pub action: String,
}

/// A hook as it was configured.
#[derive(Debug, Clone)]
pub struct HookEntry {
    pub event: String,
    pub command: String,
}

/// The configuration that the assembly reads.
#[derive(Debug)]
pub struct AgentSettings {
    pub include_workspace_context: bool,
    pub agent_profile: AgentProfile,
    pub context_window_tokens: u32,
    pub auto_allow_bash: bool,
    pub permission_rules: Vec<RuleEntry>,
}

/// Where the agent works.
#[derive(Debug)]
pub struct SandboxSettings {
    pub workdir: String,
    /// Whether the sandbox confines what runs in it.
    pub enforced: bool,
}

/// How MCP servers are attached.
#[derive(Debug, Clone, Copy, PartialEq, Eq, Structural)]
pub enum McpAttach {
    /// Connect from the workspace configuration.
    Auto,
    /// Do not connect or register MCP tools.
    Skip,
    /// Use a connected manager; the registry must already hold its tools.
    Inject,
}

/// Which tools the agent starts with.
#[derive(Debug, Clone, Copy, PartialEq, Eq, Structural)]
pub enum ToolsChoice {
    /// The tools of the configured profile.
    Profile,
    /// Reading, writing, editing, commands and search.
    Core,
    /// Reading and search.
    Minimal,
    /// A registry of the caller.
    Given,
}

/// Which parts the caller brings; each of the others is made.
#[derive(Debug, Clone, Copy, PartialEq, Eq, Structural)]
pub struct GivenParts {
    pub client: bool,
    pub permission: bool,
    pub plan_mode: bool,
    pub plan_approval: bool,
    pub todos: bool,
    pub ask_user: bool,
    pub background_tasks: bool,
    pub record_writer: bool,
    pub session_store: bool,
    pub model_executor: bool,
    pub approval_broker: bool,
}

/// Fluent builder for an agent. Everything but the constructor's arguments has a
/// default until it is overridden.
pub struct AgentBuilder<E> {
    pub config: AgentSettings,
    pub sandbox: SandboxSettings,
    pub session_id: String,
    pub permission_mode: PermissionMode,
    pub tools: ToolsChoice,
    pub mcp: McpAttach,
    /// Whether automatic attachment was asked for, and is not just the default.
    pub mcp_asked: bool,
    pub context: Option<ContextEngine>,
    pub hooks: Option<HookRunner<E>>,
    pub load_hooks_from_config: bool,
    pub given: GivenParts,
    pub external_session_id: Option<String>,
    pub include_workspace_context: Option<bool>,
    pub deny_git_push: Option<bool>,
    pub extensions: Vec<E>,
}

/// What the assembly reads from its surroundings.
#[derive(Debug)]
pub struct BuildEnvironment {
    /// The configured hooks; `None` when they could not be loaded.
    pub hooks: Option<Vec<HookEntry>>,
    pub external_session_id: Option<String>,
    pub cellz_url: Option<String>,
    /// Whether this is a run in the cloud.
    pub cloud_run: bool,
    /// Whether publishing from the cloud is available.
    pub cloud_publish: bool,
}

/// Where session snapshots are kept.
#[derive(Debug)]
pub enum SessionStorePlan {
    /// In the store that the caller brought.
    Given,
    /// At the given address.
    Remote(String),
    /// In files.
    File,
}

/// How an agent is put together.
pub struct BuildPlan<E> {
    pub include_workspace: bool,
    /// The tools to register; `None` for the registry of the caller.
    pub tools: Option<Vec<BuiltinTool>>,
    pub mcp: McpAttach,
    /// Whether the tools of MCP servers that get connected join the registry.
    pub merge_mcp_tools: bool,
    pub hooks: HookRunner<E>,
    pub context: ContextEngine,
    /// The permission gate; `None` for the one of the caller.
    pub permission: Option<PermissionGate<NoPrompter>>,
    pub session_store: SessionStorePlan,
    /// The session whose execution record is written.
    pub session_id: String,
    pub given: GivenParts,
}

/// The action that a lower-case name stands for.
pub open spec fn action_named(name: Seq<char>) -> Option<RuleAction> {
    if name == "allow"@ {
        Some(RuleAction::Allow)
    } else if name == "deny"@ {
        Some(RuleAction::Deny)
    } else if name == "ask"@ {
        Some(RuleAction::Ask)
    } else {
        None
    }
}

/// The rules of a configuration, without those whose action is unknown.
pub open spec fn kept_rules(entries: Seq<RuleEntry>) -> Seq<(Seq<char>, RuleAction)>
    decreases entries.len(),
{
    if entries.len() == 0 {
        Seq::empty()
    } else {
        let entry = entries.last();
        let before = kept_rules(entries.drop_last());
        match action_named(unicode_lowercase(trimmed(entry.action@))) {
            Some(action) => before.push((entry.pattern@, action)),
            None => before,
        }
    }
}

/// The action that a lower-case name stands for.
pub fn rule_action(name: &str) -> (r: Option<RuleAction>)
    ensures
        r == action_named(name@),
{
    if same_text(name, "allow") {
        Some(RuleAction::Allow)
    } else if same_text(name, "deny") {
        Some(RuleAction::Deny)
    } else if same_text(name, "ask") {
        Some(RuleAction::Ask)
    } else {
        None
    }
}

/// The permission rules of a configuration. An entry with an unknown action is left
/// out.
pub fn permission_rules_from_config(config: &AgentSettings) -> (r: Vec<PermissionRule>)
    ensures
        rule_list(r@) == kept_rules(config.permission_rules@),
{
    let entries = &config.permission_rules;
    let mut rules: Vec<PermissionRule> = Vec::new();
    let mut i: usize = 0;
    proof {
        assert(entries@.take(0) == Seq::<RuleEntry>::empty());
        assert(rule_list(rules@) == kept_rules(entries@.take(0)));
    }
    while i < entries.len()
        invariant
            i <= entries.len(),
            rule_list(rules@) == kept_rules(entries@.take(i as int)),
        decreases entries.len() - i,
    {
        let entry = &entries[i];
        let name = trim(entry.action.as_str());
        let lowered = to_lowercase(name.as_str());
        let ghost before = rule_list(rules@);
        proof {
            assert(entries@.take(i + 1).drop_last() == entries@.take(i as int));
            assert(entries@.take(i + 1).last() == entries@[i as int]);
        }
        if let Some(action) = rule_action(lowered.as_str()) {
            rules.push(PermissionRule { pattern: entry.pattern.clone(), action });
            proof {
                assert(rule_list(rules@) == before.push((entry.pattern@, action)));
            }
        }
        i += 1;
    }
    proof {
        assert(entries@.take(entries@.len() as int) == entries@);
    }
    rules
}

/// The events and commands of a list of hooks.
pub open spec fn hook_texts(specs: Seq<HookSpec>) -> Seq<(Seq<char>, Seq<char>)> {
    Seq::new(specs.len(), |i: int| (specs[i].event@, specs[i].command@))
}

/// The events and commands of a list of configured hooks.
pub open spec fn entry_texts(entries: Seq<HookEntry>) -> Seq<(Seq<char>, Seq<char>)> {
    Seq::new(entries.len(), |i: int| (entries[i].event@, entries[i].command@))
}

/// The hooks of a configuration.
pub fn hook_specs_from_entries(entries: &Vec<HookEntry>) -> (r: Vec<HookSpec>)
    ensures
        hook_texts(r@) == entry_texts(entries@),
{
    let mut specs: Vec<HookSpec> = Vec::new();
    let mut i: usize = 0;
    while i < entries.len()
        invariant
            i <= entries.len(),
            specs.len() == i,
            forall|k: int|
                0 <= k < i ==> specs[k].event@ == #[trigger] entries[k].event@ && specs[k].command@
                    == entries[k].command@,
        decreases entries.len() - i,
    {
        specs.push(
            HookSpec { event: entries[i].event.clone(), command: entries[i].command.clone() },
        );
        i += 1;
    }
    proof {
        assert(hook_texts(specs@) == entry_texts(entries@));
    }
    specs
}

/// The policy of a gate that the assembly makes.
pub open spec fn assembled_policy(
    mode: PermissionMode,
    rules: Seq<(Seq<char>, RuleAction)>,
    auto_allow_bash: bool,
    deny_git_push: Option<bool>,
    cloud_run: bool,
) -> GatePolicy {
    GatePolicy {
        rules,
        auto_allow_bash,
        deny_git_push: match deny_git_push {
            Some(deny) => deny,
            None => cloud_run,
        },
        ..fresh_policy(mode, cloud_run)
    }
}

/// A gate with the given rules. Pushes are refused as asked for, else in the cloud.
pub fn shared_permission_with_rules(
    mode: PermissionMode,
    rules: Vec<PermissionRule>,
    auto_allow_bash: bool,
    deny_git_push: Option<bool>,
    cloud_run: bool,
) -> (r: PermissionGate<NoPrompter>)
    ensures
        r.wf(),
        r.policy() == assembled_policy(
            mode,
            rule_list(rules@),
            auto_allow_bash,
            deny_git_push,
            cloud_run,
        ),
{
    let mut gate = PermissionGate::new(mode, cloud_run).with_rules(rules).with_auto_allow_bash(
        auto_allow_bash,
    );
    if let Some(deny) = deny_git_push {
        gate.set_deny_git_push(deny);
    }
    gate
}

/// Links a gate that replaces another one to the sandbox and the configured rules, so
/// that a new prompter does not drop them.
pub fn set_permission_gate<P>(
    gate: &mut PermissionGate<P>,
    config: &AgentSettings,
    sandbox: &SandboxSettings,
)
    requires
        old(gate).wf(),
    ensures
        final(gate).wf(),
        final(gate).asks() == old(gate).asks(),
        final(gate).policy() == (GatePolicy {
            auto_allow_bash: config.auto_allow_bash && sandbox.enforced,
            rules: kept_rules(config.permission_rules@),
            ..old(gate).policy()
        }),
{
    gate.set_auto_allow_bash(config.auto_allow_bash && sandbox.enforced);
    gate.set_rules(permission_rules_from_config(config));
}

/// The system message with the workspace memory behind it, where the conversation
/// opens with a system message and holds no memory yet.
pub fn memory_prefix(has_memory_context: bool, first: Option<&Message>, memory: Option<String>) -> (r:
    Option<String>)
    ensures
        opt_text(r) == (match (first, memory) {
            (Some(system), Some(text)) => if !has_memory_context && system.role is System {
                Some(
                    (match system.content {
                        Some(content) => content@,
                        None => Seq::empty(),
                    }) + "\n\n"@ + text@,
                )
            } else {
                None
            },
            _ => None,
        }),
{
    if has_memory_context {
        return None;
    }
    match (first, memory) {
        (Some(system), Some(text)) => {
            if system.role != Role::System {
                return None;
            }
            let mut prefix = match &system.content {
                Some(content) => content.clone(),
                None => String::new(),
            };
            prefix.append("\n\n");
            prefix.append(text.as_str());
            Some(prefix)
        },
        _ => None,
    }
}

/// What becomes of a connected MCP manager: whether its tools join the registry and
/// whether it is kept. They join only where the plan merges them.
pub fn mcp_connected(merge_mcp_tools: bool, tool_count: usize, no_servers: bool) -> (r: (bool, bool))
    ensures
        r == (merge_mcp_tools && tool_count != 0, !no_servers),
{
    (merge_mcp_tools && tool_count != 0, !no_servers)
}

/// No part is brought by the caller.
pub open spec fn nothing_given() -> GivenParts {
    GivenParts {
        client: false,
        permission: false,
        plan_mode: false,
        plan_approval: false,
        todos: false,
        ask_user: false,
        background_tasks: false,
        record_writer: false,
        session_store: false,
        model_executor: false,
        approval_broker: false,
    }
}

/// The id under which an assembled agent links its requests, if one is set.
pub open spec fn linked_session(given: Option<String>, found: Option<String>) -> Option<Seq<char>> {
    if given is Some {
        opt_text(given)
    } else {
        opt_text(found)
    }
}

/// The hooks of the configuration that a builder loads. Those that could not be read
/// are none.
pub open spec fn loaded_hooks<E>(b: AgentBuilder<E>, env: BuildEnvironment) -> Seq<
    (Seq<char>, Seq<char>),
> {
    match env.hooks {
        Some(entries) => if b.load_hooks_from_config {
            entry_texts(entries@)
        } else {
            Seq::empty()
        },
        None => Seq::empty(),
    }
}

/// The hooks that an assembled agent runs, without its extensions: the events and
/// commands, the extensions that a given runner brings, and where commands run. Hooks
/// of the configuration stand behind those of a given runner.
pub open spec fn base_hooks<E>(b: AgentBuilder<E>, env: BuildEnvironment) -> (
    Seq<(Seq<char>, Seq<char>)>,
    Seq<E>,
    Option<Seq<char>>,
) {
    match b.hooks {
        Some(hooks) => (
            hook_texts(hooks.commands()) + loaded_hooks(b, env),
            hooks.registered(),
            hooks.shell_dir(),
        ),
        None => (loaded_hooks(b, env), Seq::empty(), Some(b.sandbox.workdir@)),
    }
}

/// Whether a plan puts together what a builder asks for.
pub open spec fn planned<E>(b: AgentBuilder<E>, env: BuildEnvironment, plan: BuildPlan<E>) -> bool {
    &&& plan.include_workspace == (match b.include_workspace_context {
        Some(wanted) => wanted,
        None => b.config.include_workspace_context,
    })
    &&& match plan.tools {
        Some(tools) => match b.tools {
            ToolsChoice::Profile => tools@ == profile_tools(
                b.config.agent_profile,
                env.cloud_publish,
            ),
            ToolsChoice::Core => tools@ == seq![
                BuiltinTool::Read,
                BuiltinTool::Write,
                BuiltinTool::Edit,
                BuiltinTool::Bash,
                BuiltinTool::Grep,
                BuiltinTool::Glob,
            ],
            ToolsChoice::Minimal => tools@ == seq![
                BuiltinTool::Read,
                BuiltinTool::Grep,
                BuiltinTool::Glob,
            ],
            ToolsChoice::Given => false,
        },
        None => b.tools is Given,
    }
    &&& plan.mcp == b.mcp
    &&& plan.merge_mcp_tools == (b.mcp is Auto && (b.tools is Given ==> b.mcp_asked))
    &&& (
        hook_texts(plan.hooks.commands()),
        plan.hooks.registered(),
        plan.hooks.shell_dir(),
    ) == (
        base_hooks(b, env).0,
        base_hooks(b, env).1 + b.extensions@,
        base_hooks(b, env).2,
    )
    &&& plan.context@ == ({
        let context = match b.context {
            Some(given) => given@,
            None => initial_state(b.config.context_window_tokens),
        };
        match linked_session(b.external_session_id, env.external_session_id) {
            Some(id) => ContextState { external_session_id: Some(id), ..context },
            None => context,
        }
    })
    &&& match plan.permission {
        Some(gate) => {
            &&& !b.given.permission
            &&& gate.wf()
            &&& gate.policy() == assembled_policy(
                b.permission_mode,
                kept_rules(b.config.permission_rules@),
                b.config.auto_allow_bash && b.sandbox.enforced,
                b.deny_git_push,
                env.cloud_run,
            )
        },
        None => b.given.permission,
    }
    &&& match plan.session_store {
        SessionStorePlan::Given => b.given.session_store,
        SessionStorePlan::Remote(url) => !b.given.session_store && env.cellz_url == Some(url)
            && url@.len() > 0,
        SessionStorePlan::File => {
            &&& !b.given.session_store
            &&& env.cellz_url matches Some(url) ==> url@.len() == 0
        },
    }
    &&& plan.session_id == b.session_id
    &&& plan.given == b.given
}

/// A builder with everything but its tools at its default.
pub open spec fn fresh_builder<E>(
    b: AgentBuilder<E>,
    config: AgentSettings,
    sandbox: SandboxSettings,
    session_id: String,
    permission_mode: PermissionMode,
) -> bool {
    &&& b.config == config
    &&& b.sandbox == sandbox
    &&& b.session_id == session_id
    &&& b.permission_mode == permission_mode
    &&& b.mcp is Auto
    &&& !b.mcp_asked
    &&& b.context is None
    &&& b.hooks is None
    &&& b.load_hooks_from_config
    &&& b.given == nothing_given()
    &&& b.external_session_id is None
    &&& b.include_workspace_context is None
    &&& b.deny_git_push is None
    &&& b.extensions@ == Seq::<E>::empty()
}

impl<E> AgentBuilder<E> {
    /// A builder with everything at its default.
    pub fn new(
        config: AgentSettings,
        sandbox: SandboxSettings,
        session_id: String,
        permission_mode: PermissionMode,
    ) -> (r: Self)
        ensures
            fresh_builder(r, config, sandbox, session_id, permission_mode),
            r.tools is Profile,
    {
        AgentBuilder {
            config,
            sandbox,
            session_id,
            permission_mode,
            tools: ToolsChoice::Profile,
            mcp: McpAttach::Auto,
            mcp_asked: false,
            context: None,
            hooks: None,
            load_hooks_from_config: true,
            given: GivenParts {
                client: false,
                permission: false,
                plan_mode: false,
                plan_approval: false,
                todos: false,
                ask_user: false,
                background_tasks: false,
                record_writer: false,
                session_store: false,
                model_executor: false,
                approval_broker: false,
            },
            external_session_id: None,
            include_workspace_context: None,
            deny_git_push: None,
            extensions: Vec::new(),
        }
    }

    /// Overrides the agent configuration.
    pub fn config(self, config: AgentSettings) -> (r: Self)
        ensures
            r == (AgentBuilder { config, ..self }),
    {
        let mut builder = self;
        builder.config = config;
        builder
    }

    /// Overrides the sandbox.
    pub fn sandbox(self, sandbox: SandboxSettings) -> (r: Self)
        ensures
            r == (AgentBuilder { sandbox, ..self }),
    {
        let mut builder = self;
        builder.sandbox = sandbox;
        builder
    }

    /// Overrides the session.
    pub fn session(self, session_id: String) -> (r: Self)
        ensures
            r == (AgentBuilder { session_id, ..self }),
    {
        let mut builder = self;
        builder.session_id = session_id;
        builder
    }

    /// Overrides the permission mode.
    pub fn permission_mode(self, permission_mode: PermissionMode) -> (r: Self)
        ensures
            r == (AgentBuilder { permission_mode, ..self }),
    {
        let mut builder = self;
        builder.permission_mode = permission_mode;
        builder
    }

    /// Bypasses permission checks.
    pub fn bypass_permissions(self) -> (r: Self)
        ensures
            r == (AgentBuilder { permission_mode: PermissionMode::BypassPermissions, ..self }),
    {
        let mut builder = self;
        builder.permission_mode = PermissionMode::BypassPermissions;
        builder
    }

    /// Uses the core toolset: Read, Write, Edit, Bash, Grep, Glob.
    pub fn core_tools(self) -> (r: Self)
        ensures
            r == (AgentBuilder { tools: ToolsChoice::Core, ..self }),
    {
        let mut builder = self;
        builder.tools = ToolsChoice::Core;
        builder
    }

    /// Uses the read-only minimal toolset: Read, Grep, Glob.
    pub fn minimal_tools(self) -> (r: Self)
        ensures
            r == (AgentBuilder { tools: ToolsChoice::Minimal, ..self }),
    {
        let mut builder = self;
        builder.tools = ToolsChoice::Minimal;
        builder
    }

    /// Uses a chat client of the caller.
    pub fn client(self) -> (r: Self)
        ensures
            r == (AgentBuilder { given: GivenParts { client: true, ..self.given }, ..self }),
    {
        let mut builder = self;
        builder.given.client = true;
        builder
    }

    /// Replaces the registry by one of the caller. MCP tools are not merged into it
    /// unless [`Self::mcp_auto`] is called.
    pub fn tools(self) -> (r: Self)
        ensures
            r == (AgentBuilder { tools: ToolsChoice::Given, ..self }),
    {
        let mut builder = self;
        builder.tools = ToolsChoice::Given;
        builder
    }

    /// Skips MCP discovery and registration.
    pub fn without_mcp(self) -> (r: Self)
        ensures
            r == (AgentBuilder { mcp: McpAttach::Skip, mcp_asked: false, ..self }),
    {
        let mut builder = self;
        builder.mcp = McpAttach::Skip;
        builder.mcp_asked = false;
        builder
    }

    /// Attaches a connected MCP manager.
    pub fn mcp(self) -> (r: Self)
        ensures
            r == (AgentBuilder { mcp: McpAttach::Inject, mcp_asked: false, ..self }),
    {
        let mut builder = self;
        builder.mcp = McpAttach::Inject;
        builder.mcp_asked = false;
        builder
    }

    /// Connects MCP servers from the workspace, also after [`Self::without_mcp`] or
    /// [`Self::mcp`]. Their tools then join a replaced registry too.
    pub fn mcp_auto(self) -> (r: Self)
        ensures
            r == (AgentBuilder { mcp: McpAttach::Auto, mcp_asked: true, ..self }),
    {
        let mut builder = self;
        builder.mcp = McpAttach::Auto;
        builder.mcp_asked = true;
        builder
    }

    /// Uses the given context engine.
    pub fn context_engine(self, context: ContextEngine) -> (r: Self)
        ensures
            r == (AgentBuilder { context: Some(context), ..self }),
    {
        let mut builder = self;
        builder.context = Some(context);
        builder
    }

    /// Uses an execution record of the caller.
    pub fn record_writer(self) -> (r: Self)
        ensures
            r == (AgentBuilder { given: GivenParts { record_writer: true, ..self.given }, ..self }),
    {
        let mut builder = self;
        builder.given.record_writer = true;
        builder
    }

    /// Uses a session store of the caller.
    pub fn session_store(self) -> (r: Self)
        ensures
            r == (AgentBuilder { given: GivenParts { session_store: true, ..self.given }, ..self }),
    {
        let mut builder = self;
        builder.given.session_store = true;
        builder
    }

    /// Uses a model executor of the caller instead of the chat client.
    pub fn model_executor(self) -> (r: Self)
        ensures
            r == (AgentBuilder { given: GivenParts { model_executor: true, ..self.given }, ..self }),
    {
        let mut builder = self;
        builder.given.model_executor = true;
        builder
    }

    /// Waits for approvals at a broker of the caller when the policy asks.
    pub fn approval_broker(self) -> (r: Self)
        ensures
            r == (AgentBuilder { given: GivenParts { approval_broker: true, ..self.given }, ..self }),
    {
        let mut builder = self;
        builder.given.approval_broker = true;
        builder
    }

    /// Overrides the session id for inference linkage.
    pub fn external_session_id(self, id: String) -> (r: Self)
        ensures
            r == (AgentBuilder { external_session_id: Some(id), ..self }),
    {
        let mut builder = self;
        builder.external_session_id = Some(id);
        builder
    }

    /// Uses the given hooks. Hooks of the configuration are not loaded then, unless
    /// [`Self::load_hooks_from_config`] is set afterwards.
    pub fn hooks(self, hooks: HookRunner<E>) -> (r: Self)
        ensures
            r == (AgentBuilder { hooks: Some(hooks), load_hooks_from_config: false, ..self }),
    {
        let mut builder = self;
        builder.hooks = Some(hooks);
        builder.load_hooks_from_config = false;
        builder
    }

    /// Registers an extension in the host process.
    pub fn extension_hook(self, hook: E) -> (r: Self)
        ensures
            r.extensions@ == self.extensions@.push(hook),
            r == (AgentBuilder { extensions: r.extensions, ..self }),
    {
        let mut builder = self;
        builder.extensions.push(hook);
        builder
    }

    /// Registers extensions in the host process.
    pub fn extension_hooks(self, hooks: Vec<E>) -> (r: Self)
        ensures
            r.extensions@ == self.extensions@ + hooks@,
            r == (AgentBuilder { extensions: r.extensions, ..self }),
    {
        let mut builder = self;
        let mut more = hooks;
        builder.extensions.append(&mut more);
        builder
    }

    /// Loads the hooks of the configuration, or not. They are loaded by default where no
    /// hooks are given; beside given hooks they are registered behind those.
    pub fn load_hooks_from_config(self, load: bool) -> (r: Self)
        ensures
            r == (AgentBuilder { load_hooks_from_config: load, ..self }),
    {
        let mut builder = self;
        builder.load_hooks_from_config = load;
        builder
    }

    /// Uses a permission gate of the caller.
    pub fn permission(self) -> (r: Self)
        ensures
            r == (AgentBuilder { given: GivenParts { permission: true, ..self.given }, ..self }),
    {
        let mut builder = self;
        builder.given.permission = true;
        builder
    }

    /// Uses a plan mode of the caller.
    pub fn plan_mode(self) -> (r: Self)
        ensures
            r == (AgentBuilder { given: GivenParts { plan_mode: true, ..self.given }, ..self }),
    {
        let mut builder = self;
        builder.given.plan_mode = true;
        builder
    }

    /// Asks a prompter of the caller to approve plans.
    pub fn plan_approval(self) -> (r: Self)
        ensures
            r == (AgentBuilder { given: GivenParts { plan_approval: true, ..self.given }, ..self }),
    {
        let mut builder = self;
        builder.given.plan_approval = true;
        builder
    }

    /// Uses a todo list of the caller.
    pub fn todos(self) -> (r: Self)
        ensures
            r == (AgentBuilder { given: GivenParts { todos: true, ..self.given }, ..self }),
    {
        let mut builder = self;
        builder.given.todos = true;
        builder
    }

    /// Asks the user through a prompter of the caller.
    pub fn ask_user(self) -> (r: Self)
        ensures
            r == (AgentBuilder { given: GivenParts { ask_user: true, ..self.given }, ..self }),
    {
        let mut builder = self;
        builder.given.ask_user = true;
        builder
    }

    /// Uses background tasks of the caller.
    pub fn background_tasks(self) -> (r: Self)
        ensures
            r == (AgentBuilder { given: GivenParts { background_tasks: true, ..self.given }, ..self }),
    {
        let mut builder = self;
        builder.given.background_tasks = true;
        builder
    }

    /// Overrides whether the system prompt tells of the workspace.
    pub fn include_workspace_context(self, wanted: bool) -> (r: Self)
        ensures
            r == (AgentBuilder { include_workspace_context: Some(wanted), ..self }),
    {
        let mut builder = self;
        builder.include_workspace_context = Some(wanted);
        builder
    }

    /// Refuses `git push` and `gh` commands, or not.
    pub fn deny_git_push(self, deny: bool) -> (r: Self)
        ensures
            r == (AgentBuilder { deny_git_push: Some(deny), ..self }),
    {
        let mut builder = self;
        builder.deny_git_push = Some(deny);
        builder
    }

    /// Decides how the agent is put together.
    pub fn build(self, env: BuildEnvironment) -> (r: BuildPlan<E>)
        ensures
            planned(self, env, r),
    {
        let include_workspace = match self.include_workspace_context {
            Some(wanted) => wanted,
            None => self.config.include_workspace_context,
        };
        let tools = match self.tools {
            ToolsChoice::Given => None,
            ToolsChoice::Core => Some(core_tools()),
            ToolsChoice::Minimal => Some(minimal_tools()),
            ToolsChoice::Profile => Some(agent_tools(self.config.agent_profile, env.cloud_publish)),
        };
        let permission = if self.given.permission {
            None
        } else {
            Some(
                shared_permission_with_rules(
                    self.permission_mode,
                    permission_rules_from_config(&self.config),
                    self.config.auto_allow_bash && self.sandbox.enforced,
                    self.deny_git_push,
                    env.cloud_run,
                ),
            )
        };
        let mut loaded: Vec<HookSpec> = Vec::new();
        if self.load_hooks_from_config {
            if let Some(entries) = &env.hooks {
                loaded = hook_specs_from_entries(entries);
            }
        }
        proof {
            assert(hook_texts(loaded@) == loaded_hooks(self, env));
        }
        let ghost specs = loaded@;
        let hooks = match self.hooks {
            Some(given) => {
                let mut hooks = given;
                hooks.extend_specs(loaded);
                proof {
                    assert(hook_texts(hooks.commands()) == hook_texts(given.commands()) + hook_texts(specs));
                }
                hooks
            },
            None => HookRunner::with_bash(loaded, self.sandbox.workdir),
        };
        proof {
            assert(hook_texts(hooks.commands()) == base_hooks(self, env).0);
            assert(hooks.registered() == base_hooks(self, env).1);
        }
        let hooks = hooks.with_extensions(self.extensions);
        let mut context = match self.context {
            Some(context) => context,
            None => ContextEngine::new(self.config.context_window_tokens),
        };
        let linked = match self.external_session_id {
            Some(id) => Some(id),
            None => env.external_session_id,
        };
        if linked.is_some() {
            context.set_external_session_id(linked);
        }
        let session_store = if self.given.session_store {
            SessionStorePlan::Given
        } else {
            match env.cellz_url {
                Some(url) => if url.as_str().is_empty() {
                    SessionStorePlan::File
                } else {
                    SessionStorePlan::Remote(url)
                },
                None => SessionStorePlan::File,
            }
        };
        BuildPlan {
            include_workspace,
            tools,
            mcp: self.mcp,
            merge_mcp_tools: self.mcp == McpAttach::Auto && (self.tools != ToolsChoice::Given
                || self.mcp_asked),
            hooks,
            context,
            permission,
            session_store,
            session_id: self.session_id,
            given: self.given,
        }
    }
}

impl Agent {
    /// A builder with everything at its default.
    pub fn builder<E>(
        config: AgentSettings,
        sandbox: SandboxSettings,
        session_id: String,
        permission_mode: PermissionMode,
    ) -> (r: AgentBuilder<E>)
        ensures
            fresh_builder(r, config, sandbox, session_id, permission_mode),
            r.tools is Profile,
    {
        AgentBuilder::new(config, sandbox, session_id, permission_mode)
    }

    /// A builder for an agent with the core toolset.
    pub fn core_agent<E>(
        config: AgentSettings,
        sandbox: SandboxSettings,
        session_id: String,
        permission_mode: PermissionMode,
    ) -> (r: AgentBuilder<E>)
        ensures
            fresh_builder(r, config, sandbox, session_id, permission_mode),
            r.tools is Core,
    {
        AgentBuilder::new(config, sandbox, session_id, permission_mode).core_tools()
    }

    /// A builder for an agent with the read-only minimal toolset.
    pub fn minimal<E>(
        config: AgentSettings,
        sandbox: SandboxSettings,
        session_id: String,
        permission_mode: PermissionMode,
    ) -> (r: AgentBuilder<E>)
        ensures
            fresh_builder(r, config, sandbox, session_id, permission_mode),
            r.tools is Minimal,
    {
        AgentBuilder::new(config, sandbox, session_id, permission_mode).minimal_tools()
    }
}

/// A gate that the assembly makes never lets Bash through on the sandbox's account
/// where the sandbox does not confine it.
pub proof fn bash_is_freed_only_in_a_sandbox<E>(
    b: AgentBuilder<E>,
    env: BuildEnvironment,
    plan: BuildPlan<E>,
)
    requires
        planned(b, env, plan),
    ensures
        plan.permission matches Some(gate) ==> (gate.policy().auto_allow_bash ==> b.sandbox.enforced),
{
}

/// No MCP tool joins a registry of the caller where the builder was not asked for
/// automatic attachment.
pub proof fn replaced_registry_stays_as_given<E>(
    b: AgentBuilder<E>,
    env: BuildEnvironment,
    plan: BuildPlan<E>,
)
    requires
        planned(b, env, plan),
        b.tools is Given,
        !b.mcp_asked,
    ensures
        plan.tools is None,
        !plan.merge_mcp_tools,
{
}

/// The commands of given hooks come first and are all kept. Behind them stand those of
/// the configuration where loading them is set, and nothing else.
pub proof fn given_hooks_come_first<E>(
    b: AgentBuilder<E>,
    env: BuildEnvironment,
    plan: BuildPlan<E>,
    given: HookRunner<E>,
    entries: Vec<HookEntry>,
)
    requires
        planned(b, env, plan),
        b.hooks == Some(given),
        env.hooks == Some(entries),
    ensures
        hook_texts(plan.hooks.commands()) == (if b.load_hooks_from_config {
            hook_texts(given.commands()) + entry_texts(entries@)
        } else {
            hook_texts(given.commands())
        }),
{
    assert(hook_texts(given.commands()) + Seq::empty() == hook_texts(given.commands()));
}

/// Replacing the permission gate of an assembled agent keeps its rules and its sandbox policy.
pub proof fn replaced_gate_keeps_the_policy<E, P>(
    b: AgentBuilder<E>,
    env: BuildEnvironment,
    plan: BuildPlan<E>,
    before: PermissionGate<P>,
    after: PermissionGate<P>,
)
    requires
        planned(b, env, plan),
        after.policy() == (GatePolicy {
            auto_allow_bash: b.config.auto_allow_bash && b.sandbox.enforced,
            rules: kept_rules(b.config.permission_rules@),
            ..before.policy()
        }),
    ensures
        plan.permission matches Some(gate) ==> after.policy().rules == gate.policy().rules
            && after.policy().auto_allow_bash == gate.policy().auto_allow_bash,
{
}

/// A configured rule is kept under its pattern, behind those before it, where its action is one
/// of the three that are known; any other is left out.
pub proof fn known_rules_are_kept_in_order(entries: Seq<RuleEntry>, entry: RuleEntry)
    ensures
        kept_rules(Seq::empty()).len() == 0,
        ({
            let named = unicode_lowercase(trimmed(entry.action@));
            let before = kept_rules(entries);
            let after = kept_rules(entries.push(entry));
            &&& named == "allow"@ ==> after == before.push((entry.pattern@, RuleAction::Allow))
            &&& named == "deny"@ ==> after == before.push((entry.pattern@, RuleAction::Deny))
            &&& named == "ask"@ ==> after == before.push((entry.pattern@, RuleAction::Ask))
            &&& named != "allow"@ && named != "deny"@ && named != "ask"@ ==> after == before
        }),
{
    reveal_strlit("allow");
    reveal_strlit("deny");
    reveal_strlit("ask");
    assert("allow"@.len() == 5 && "deny"@.len() == 4 && "ask"@.len() == 3);
    assert(entries.push(entry).drop_last() == entries);
}

/// Each configured hook runs its own command at its own event, in the order of the
/// configuration.
pub proof fn configured_hooks_keep_their_order(entries: &Vec<HookEntry>, r: Vec<HookSpec>, i: int)
    requires
        call_ensures(hook_specs_from_entries, (entries,), r),
        0 <= i < entries@.len(),
    ensures
        r@.len() == entries@.len(),
        r@[i].event@ == entries@[i].event@,
        r@[i].command@ == entries@[i].command@,
{
    assert(hook_texts(r@).len() == entry_texts(entries@).len());
    assert(hook_texts(r@)[i] == entry_texts(entries@)[i]);
}

/// The workspace memory stands behind the system message that opens a conversation, once.
pub proof fn memory_follows_the_system_message(
    has_memory_context: bool,
    first: Option<&Message>,
    memory: Option<String>,
    r: Option<String>,
)
    requires
        call_ensures(memory_prefix, (has_memory_context, first, memory), r),
    ensures
        r is Some <==> !has_memory_context && memory is Some && first is Some && first->0.role
            is System,
        r matches Some(prefix) ==> (first->0.content matches Some(content) ==> prefix@ == content@
            + "\n\n"@ + memory->0@),
{
}

/// The tools of a connected manager join the registry where that is planned and there are any;
/// a manager without servers is not kept.
pub proof fn connected_tools_join_where_planned(
    merge_mcp_tools: bool,
    tool_count: usize,
    no_servers: bool,
    r: (bool, bool),
)
    requires
        call_ensures(mcp_connected, (merge_mcp_tools, tool_count, no_servers), r),
    ensures
        r.0 <==> merge_mcp_tools && tool_count > 0,
        r.1 <==> !no_servers,
{
}

/// A gate that is assembled has the mode, the rules and the freedom for commands that it was
/// given. It refuses pushes as it was told to, and where nothing was told in the cloud only.
pub proof fn assembled_gates_follow_their_settings(
    mode: PermissionMode,
    rules: Vec<PermissionRule>,
    auto_allow_bash: bool,
    deny_git_push: Option<bool>,
    cloud_run: bool,
    r: PermissionGate<NoPrompter>,
)
    requires
        call_ensures(
            shared_permission_with_rules,
            (mode, rules, auto_allow_bash, deny_git_push, cloud_run),
            r,
        ),
    ensures
        r.policy().mode == mode,
        r.policy().rules == rule_list(rules@),
        r.policy().auto_allow_bash == auto_allow_bash,
        deny_git_push matches Some(deny) ==> r.policy().deny_git_push == deny,
        deny_git_push is None ==> r.policy().deny_git_push == cloud_run,
{
}

/// A gate that replaces another takes its rules from the configuration, frees commands only in
/// a sandbox that confines them, and keeps everything else.
pub proof fn replacing_gates_are_linked<P>(
    gate: &mut PermissionGate<P>,
    config: &AgentSettings,
    sandbox: &SandboxSettings,
    r: (),
)
    requires
        call_ensures(set_permission_gate::<P>, (gate, config, sandbox), r),
    ensures
        final(gate).policy().auto_allow_bash <==> config.auto_allow_bash && sandbox.enforced,
        final(gate).policy().rules == kept_rules(config.permission_rules@),
        final(gate).policy().mode == old(gate).policy().mode,
        final(gate).policy().deny_git_push == old(gate).policy().deny_git_push,
        final(gate).asks() == old(gate).asks(),
{
}

/// A builder plans the tools that were chosen: those of the profile, the six that work on files
/// and commands, the three that only read, or none beside the registry of the caller.
pub proof fn chosen_tools_are_planned<E>(b: AgentBuilder<E>, env: BuildEnvironment, plan: BuildPlan<E>)
    requires
        call_ensures(AgentBuilder::<E>::build, (b, env), plan),
    ensures
        plan.tools is None <==> b.tools is Given,
        b.tools is Profile ==> plan.tools->0@ == profile_tools(
            b.config.agent_profile,
            env.cloud_publish,
        ),
        b.tools is Core ==> plan.tools->0@ == seq![
            BuiltinTool::Read,
            BuiltinTool::Write,
            BuiltinTool::Edit,
            BuiltinTool::Bash,
            BuiltinTool::Grep,
            BuiltinTool::Glob,
        ],
        b.tools is Minimal ==> plan.tools->0@ == seq![
            BuiltinTool::Read,
            BuiltinTool::Grep,
            BuiltinTool::Glob,
        ],
        plan.mcp == b.mcp,
        plan.merge_mcp_tools ==> b.mcp is Auto,
        b.mcp is Auto && !(b.tools is Given) ==> plan.merge_mcp_tools,
        b.mcp is Auto && b.mcp_asked ==> plan.merge_mcp_tools,
{
}

/// A plan keeps the session and what the caller brings. Whether the workspace is shown is
/// decided by the builder, and by the configuration where it says nothing.
pub proof fn plans_follow_the_builder<E>(b: AgentBuilder<E>, env: BuildEnvironment, plan: BuildPlan<E>)
    requires
        call_ensures(AgentBuilder::<E>::build, (b, env), plan),
    ensures
        plan.session_id == b.session_id,
        plan.given == b.given,
        b.include_workspace_context matches Some(wanted) ==> plan.include_workspace == wanted,
        b.include_workspace_context is None ==> plan.include_workspace
            == b.config.include_workspace_context,
        plan.permission is None <==> b.given.permission,
        plan.permission matches Some(gate) ==> gate.policy().mode == b.permission_mode
            && gate.policy().rules == kept_rules(b.config.permission_rules@) && (
        gate.policy().auto_allow_bash <==> b.config.auto_allow_bash && b.sandbox.enforced) && (
        b.deny_git_push matches Some(deny) ==> gate.policy().deny_git_push == deny) && (
        b.deny_git_push is None ==> gate.policy().deny_git_push == env.cloud_run),
{
}

/// Snapshots go to the store that the caller brings, else to the address that is set, and to
/// files where none is.
pub proof fn snapshots_go_where_they_are_kept<E>(
    b: AgentBuilder<E>,
    env: BuildEnvironment,
    plan: BuildPlan<E>,
)
    requires
        call_ensures(AgentBuilder::<E>::build, (b, env), plan),
    ensures
        plan.session_store is Given <==> b.given.session_store,
        plan.session_store is Remote <==> !b.given.session_store && env.cellz_url is Some
            && env.cellz_url->0@.len() > 0,
        plan.session_store matches SessionStorePlan::Remote(url) ==> url@ == env.cellz_url->0@,
{
}

/// An agent goes on with the context it is given, or with an empty one of the configured size,
/// and links it to the id of the builder before that of its surroundings.
pub proof fn contexts_are_linked_to_their_session<E>(
    b: AgentBuilder<E>,
    env: BuildEnvironment,
    plan: BuildPlan<E>,
)
    requires
        call_ensures(AgentBuilder::<E>::build, (b, env), plan),
    ensures
        b.external_session_id matches Some(id) ==> plan.context@.external_session_id == Some(id@),
        b.external_session_id is None && env.external_session_id is Some
            ==> plan.context@.external_session_id == Some(env.external_session_id->0@),
        b.external_session_id is None && env.external_session_id is None ==> (
        b.context matches Some(given) ==> plan.context@ == given@),
        b.context matches Some(given) ==> plan.context@ == (ContextState {
            external_session_id: plan.context@.external_session_id,
            ..given@
        }),
        b.context is None ==> plan.context@ == (ContextState {
            external_session_id: plan.context@.external_session_id,
            ..initial_state(b.config.context_window_tokens)
        }),
{
}

/// Extensions of the builder come behind those of given hooks; commands run in the sandbox
/// where no hooks are given, and those of the configuration only where loading them is set.
pub proof fn extensions_join_behind<E>(b: AgentBuilder<E>, env: BuildEnvironment, plan: BuildPlan<E>)
    requires
        call_ensures(AgentBuilder::<E>::build, (b, env), plan),
    ensures
        b.hooks matches Some(given) ==> plan.hooks.registered() == given.registered()
            + b.extensions@,
        b.hooks is None ==> plan.hooks.registered() == b.extensions@,
        b.hooks is None ==> plan.hooks.shell_dir() == Some(b.sandbox.workdir@),
        b.hooks matches Some(given) ==> plan.hooks.shell_dir() == given.shell_dir(),
        b.hooks is None && (env.hooks is None || !b.load_hooks_from_config)
            ==> plan.hooks.commands().len() == 0,
        b.hooks is None && env.hooks is Some && b.load_hooks_from_config ==> hook_texts(
            plan.hooks.commands(),
        ) == entry_texts(env.hooks->0@),
{
    assert(hook_texts(plan.hooks.commands()).len() == plan.hooks.commands().len());
    if b.hooks is None {
        assert(Seq::<E>::empty() + b.extensions@ == b.extensions@);
    }
}

/// A new builder has nothing but what it was given: the tools of the profile, servers attached
/// automatically, hooks of the configuration loaded.
pub proof fn new_builders_are_plain<E>(
    config: AgentSettings,
    sandbox: SandboxSettings,
    session_id: String,
    permission_mode: PermissionMode,
    r: AgentBuilder<E>,
)
    requires
        call_ensures(
            AgentBuilder::<E>::new,
            (config, sandbox, session_id, permission_mode),
            r,
        ),
    ensures
        r.config == config,
        r.sandbox == sandbox,
        r.session_id == session_id,
        r.permission_mode == permission_mode,
        r.tools is Profile,
        r.mcp is Auto,
        !r.mcp_asked,
        r.context is None,
        r.hooks is None,
        r.load_hooks_from_config,
        !r.given.client && !r.given.permission && !r.given.session_store && !r.given.model_executor,
        !r.given.plan_mode && !r.given.plan_approval && !r.given.todos && !r.given.ask_user,
        !r.given.background_tasks && !r.given.record_writer && !r.given.approval_broker,
        r.external_session_id is None,
        r.include_workspace_context is None,
        r.deny_git_push is None,
        r.extensions@.len() == 0,
{
}

/// Each part that the caller brings is noted as brought; no other part is, and nothing else of
/// the builder changes.
pub proof fn brought_parts_are_noted<E>(
    b: AgentBuilder<E>,
    client: AgentBuilder<E>,
    record_writer: AgentBuilder<E>,
    session_store: AgentBuilder<E>,
    model_executor: AgentBuilder<E>,
    approval_broker: AgentBuilder<E>,
    permission: AgentBuilder<E>,
    plan_mode: AgentBuilder<E>,
    plan_approval: AgentBuilder<E>,
    todos: AgentBuilder<E>,
    ask_user: AgentBuilder<E>,
    background_tasks: AgentBuilder<E>,
)
    requires
        call_ensures(AgentBuilder::<E>::client, (b,), client),
        call_ensures(AgentBuilder::<E>::record_writer, (b,), record_writer),
        call_ensures(AgentBuilder::<E>::session_store, (b,), session_store),
        call_ensures(AgentBuilder::<E>::model_executor, (b,), model_executor),
        call_ensures(AgentBuilder::<E>::approval_broker, (b,), approval_broker),
        call_ensures(AgentBuilder::<E>::permission, (b,), permission),
        call_ensures(AgentBuilder::<E>::plan_mode, (b,), plan_mode),
        call_ensures(AgentBuilder::<E>::plan_approval, (b,), plan_approval),
        call_ensures(AgentBuilder::<E>::todos, (b,), todos),
        call_ensures(AgentBuilder::<E>::ask_user, (b,), ask_user),
        call_ensures(AgentBuilder::<E>::background_tasks, (b,), background_tasks),
    ensures
        client.given.client && client == (AgentBuilder { given: client.given, ..b }),
        client.given == (GivenParts { client: client.given.client, ..b.given }),
        record_writer.given.record_writer && record_writer == (AgentBuilder { given: record_writer.given, ..b }),
        record_writer.given == (GivenParts { record_writer: record_writer.given.record_writer, ..b.given }),
        session_store.given.session_store && session_store == (AgentBuilder { given: session_store.given, ..b }),
        session_store.given == (GivenParts { session_store: session_store.given.session_store, ..b.given }),
        model_executor.given.model_executor && model_executor == (AgentBuilder { given: model_executor.given, ..b }),
        model_executor.given == (GivenParts { model_executor: model_executor.given.model_executor, ..b.given }),
        approval_broker.given.approval_broker && approval_broker == (AgentBuilder { given: approval_broker.given, ..b }),
        approval_broker.given == (GivenParts { approval_broker: approval_broker.given.approval_broker, ..b.given }),
        permission.given.permission && permission == (AgentBuilder { given: permission.given, ..b }),
        permission.given == (GivenParts { permission: permission.given.permission, ..b.given }),
        plan_mode.given.plan_mode && plan_mode == (AgentBuilder { given: plan_mode.given, ..b }),
        plan_mode.given == (GivenParts { plan_mode: plan_mode.given.plan_mode, ..b.given }),
        plan_approval.given.plan_approval && plan_approval == (AgentBuilder { given: plan_approval.given, ..b }),
        plan_approval.given == (GivenParts { plan_approval: plan_approval.given.plan_approval, ..b.given }),
        todos.given.todos && todos == (AgentBuilder { given: todos.given, ..b }),
        todos.given == (GivenParts { todos: todos.given.todos, ..b.given }),
        ask_user.given.ask_user && ask_user == (AgentBuilder { given: ask_user.given, ..b }),
        ask_user.given == (GivenParts { ask_user: ask_user.given.ask_user, ..b.given }),
        background_tasks.given.background_tasks && background_tasks == (AgentBuilder { given: background_tasks.given, ..b }),
        background_tasks.given == (GivenParts { background_tasks: background_tasks.given.background_tasks, ..b.given }),
{
}

/// Each choice of tools, of servers and of permissions is taken as it was made, and changes
/// nothing else.
pub proof fn choices_are_taken<E>(
    b: AgentBuilder<E>,
    core_choice: AgentBuilder<E>,
    minimal_choice: AgentBuilder<E>,
    given_choice: AgentBuilder<E>,
    bypassing: AgentBuilder<E>,
    skipping: AgentBuilder<E>,
    injecting: AgentBuilder<E>,
    automatic: AgentBuilder<E>,
)
    requires
        call_ensures(AgentBuilder::<E>::core_tools, (b,), core_choice),
        call_ensures(AgentBuilder::<E>::minimal_tools, (b,), minimal_choice),
        call_ensures(AgentBuilder::<E>::tools, (b,), given_choice),
        call_ensures(AgentBuilder::<E>::bypass_permissions, (b,), bypassing),
        call_ensures(AgentBuilder::<E>::without_mcp, (b,), skipping),
        call_ensures(AgentBuilder::<E>::mcp, (b,), injecting),
        call_ensures(AgentBuilder::<E>::mcp_auto, (b,), automatic),
    ensures
        core_choice.tools is Core && core_choice == (AgentBuilder { tools: core_choice.tools, ..b }),
        minimal_choice.tools is Minimal && minimal_choice == (AgentBuilder {
            tools: minimal_choice.tools,
            ..b
        }),
        given_choice.tools is Given && given_choice == (AgentBuilder { tools: given_choice.tools, ..b }),
        bypassing.permission_mode is BypassPermissions && bypassing == (AgentBuilder {
            permission_mode: bypassing.permission_mode,
            ..b
        }),
        skipping.mcp is Skip && !skipping.mcp_asked && skipping.tools == b.tools,
        injecting.mcp is Inject && !injecting.mcp_asked && injecting.tools == b.tools,
        automatic.mcp is Auto && automatic.mcp_asked && automatic.tools == b.tools,
{
}

/// Each setting is kept as it was given, and changes nothing else.
pub proof fn settings_are_kept<E>(
    b: AgentBuilder<E>,
    id: String,
    wanted: bool,
    mode: PermissionMode,
    linked: AgentBuilder<E>,
    showing: AgentBuilder<E>,
    denying: AgentBuilder<E>,
    loading: AgentBuilder<E>,
    in_session: AgentBuilder<E>,
    in_mode: AgentBuilder<E>,
)
    requires
        call_ensures(AgentBuilder::<E>::external_session_id, (b, id), linked),
        call_ensures(AgentBuilder::<E>::include_workspace_context, (b, wanted), showing),
        call_ensures(AgentBuilder::<E>::deny_git_push, (b, wanted), denying),
        call_ensures(AgentBuilder::<E>::load_hooks_from_config, (b, wanted), loading),
        call_ensures(AgentBuilder::<E>::session, (b, id), in_session),
        call_ensures(AgentBuilder::<E>::permission_mode, (b, mode), in_mode),
    ensures
        linked == (AgentBuilder { external_session_id: Some(id), ..b }),
        showing == (AgentBuilder { include_workspace_context: Some(wanted), ..b }),
        denying == (AgentBuilder { deny_git_push: Some(wanted), ..b }),
        loading == (AgentBuilder { load_hooks_from_config: wanted, ..b }),
        in_session == (AgentBuilder { session_id: id, ..b }),
        in_mode == (AgentBuilder { permission_mode: mode, ..b }),
{
}

} // verus!
