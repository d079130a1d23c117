//! Tool permission gate: modes, rules, and interactive approval for gated tools.
use vstd::prelude::*;

use crate::cloud_github::{blocked, default_denied, denial, deny_git_cli};
use crate::json::{is_json, json_string_member, json_valid, string_member};
use crate::text::{
    chars_of, copy_texts, ends_with, has_prefix, has_suffix, has_text, lemma_position_first,
    occurs_at, opt_text, pieces, pieces_from, position_from, same_text,
    split_on, starts_with, text_between, texts, to_lowercase, trim, trimmed, unicode_lowercase,
};

verus! {

/// Permission modes of an agent session.
#[derive(Debug, Clone, Copy, PartialEq, Eq, Structural)]
pub enum PermissionMode {
    /// Ask before Write / Edit / Bash / MCP.
    Default,
    /// Auto-approve file edits (Write / Edit); still ask for Bash / MCP.
    AcceptEdits,
    /// Never prompt; deny anything that would have required confirmation.
    DontAsk,
    /// Auto-approve all gated tools.
    BypassPermissions,
    /// Another name of `Default`.
    Manual,
    /// Another name of `BypassPermissions`.
    Yolo,
}

/// The mode that a trimmed, lower-case name stands for.
pub open spec fn mode_named(name: Seq<char>) -> PermissionMode {
    if name == "yolo"@ || name == "bypass"@ || name == "bypasspermissions"@ || name
        == "bypass_permissions"@ {
        PermissionMode::BypassPermissions
    } else if name == "accept_edits"@ || name == "acceptedits"@ || name == "accept-edits"@ {
        PermissionMode::AcceptEdits
    } else if name == "dont_ask"@ || name == "dontask"@ || name == "dont-ask"@ {
        PermissionMode::DontAsk
    } else {
        PermissionMode::Default
    }
}

/// The mode with the other names of `Default` and `BypassPermissions` resolved.
pub open spec fn canonical(mode: PermissionMode) -> PermissionMode {
    match mode {
        PermissionMode::Manual => PermissionMode::Default,
        PermissionMode::Yolo => PermissionMode::BypassPermissions,
        other => other,
    }
}

/// The name under which a mode is written.
pub open spec fn mode_name(mode: PermissionMode) -> Seq<char> {
    match canonical(mode) {
        PermissionMode::AcceptEdits => "accept_edits"@,
        PermissionMode::DontAsk => "dont_ask"@,
        PermissionMode::BypassPermissions => "bypass"@,
        _ => "default"@,
    }
}

impl Default for PermissionMode {
    fn default() -> (r: Self)
        ensures
            r == PermissionMode::Default,
    {
        PermissionMode::Default
    }
}

impl PermissionMode {
    /// The mode that a name stands for, whatever its case and surrounding space.
    pub fn parse(s: &str) -> (r: Self)
        ensures
            r == mode_named(unicode_lowercase(trimmed(s@))),
    {
        let trimmed_name = trim(s);
        let name = to_lowercase(trimmed_name.as_str());
        Self::from_name(name.as_str())
    }

    /// The mode that a trimmed, lower-case name stands for.
    pub fn from_name(name: &str) -> (r: Self)
        ensures
            r == mode_named(name@),
    {
        if same_text(name, "yolo") || same_text(name, "bypass") || same_text(
            name,
            "bypasspermissions",
        ) || same_text(name, "bypass_permissions") {
            PermissionMode::BypassPermissions
        } else if same_text(name, "accept_edits") || same_text(name, "acceptedits") || same_text(
            name,
            "accept-edits",
        ) {
            PermissionMode::AcceptEdits
        } else if same_text(name, "dont_ask") || same_text(name, "dontask") || same_text(
            name,
            "dont-ask",
        ) {
            PermissionMode::DontAsk
        } else {
            PermissionMode::Default
        }
    }

    /// The name under which the mode is written.
    pub fn as_str(self) -> (r: &'static str)
        ensures
            r@ == mode_name(self),
    {
        match self {
            PermissionMode::Default | PermissionMode::Manual => "default",
            PermissionMode::AcceptEdits => "accept_edits",
            PermissionMode::DontAsk => "dont_ask",
            PermissionMode::BypassPermissions | PermissionMode::Yolo => "bypass",
        }
    }

    fn auto_approves_all(self) -> (r: bool)
        ensures
            r == (canonical(self) is BypassPermissions),
    {
        matches!(self, PermissionMode::BypassPermissions | PermissionMode::Yolo)
    }

    fn auto_approves_edits(self) -> (r: bool)
        ensures
            r == (canonical(self) is BypassPermissions || self is AcceptEdits),
    {
        matches!(
            self,
            PermissionMode::AcceptEdits | PermissionMode::BypassPermissions | PermissionMode::Yolo
        )
    }

    fn denies_without_prompt(self) -> (r: bool)
        ensures
            r == (self is DontAsk),
    {
        matches!(self, PermissionMode::DontAsk)
    }
}

/// Reading the written name of a mode gives the mode back, its other names resolved.
pub proof fn mode_name_reads_back(mode: PermissionMode)
    ensures
        mode_named(mode_name(mode)) == canonical(mode),
{
    reveal_strlit("default");
    reveal_strlit("accept_edits");
    reveal_strlit("dont_ask");
    reveal_strlit("bypass");
    reveal_strlit("yolo");
    reveal_strlit("bypasspermissions");
    reveal_strlit("bypass_permissions");
    reveal_strlit("acceptedits");
    reveal_strlit("accept-edits");
    reveal_strlit("dontask");
    reveal_strlit("dont-ask");
    assert("default"@.len() == 7);
    assert("accept_edits"@.len() == 12);
    assert("dont_ask"@.len() == 8);
    assert("bypass"@.len() == 6);
    assert("yolo"@.len() == 4);
    assert("bypasspermissions"@.len() == 17);
    assert("bypass_permissions"@.len() == 18);
    assert("acceptedits"@.len() == 11);
    assert("accept-edits"@[6] == '-');
    assert("accept_edits"@[6] == '_');
    assert("dontask"@[0] == 'd' && "dontask"@[1] == 'o');
    assert("default"@[1] == 'e');
    assert("dont-ask"@.len() == 8);
}

/// What the user answers to a permission prompt.
#[derive(Debug, Clone, Copy, PartialEq, Eq, Structural)]
pub enum PromptChoice {
    AllowOnce,
    AllowSession,
    Deny,
}

/// Pure policy outcome. `Ask` is the only case that may reach a user.
#[derive(Debug, Clone, Copy, PartialEq, Eq, Structural)]
pub enum PolicyDecision {
    Allow,
    Deny,
    Ask,
}

/// What a matching rule does with a tool call.
#[derive(Debug, Clone, Copy, PartialEq, Eq, Structural)]
pub enum RuleAction {
    Allow,
    Deny,
    Ask,
}

/// A single rule matched against the tool name, with a `*` at one end of its
/// pattern standing for any text.
#[derive(Debug, Clone)]
pub struct PermissionRule {
    pub pattern: String,
    pub action: RuleAction,
}

/// Whether a rule's pattern covers a tool name.
pub open spec fn pattern_covers(pattern: Seq<char>, tool: Seq<char>) -> bool {
    if pattern == "*"@ {
        true
    } else if pattern.len() > 0 && pattern.last() == '*' {
        has_prefix(tool, pattern.drop_last())
    } else if pattern.len() > 0 && pattern[0] == '*' {
        has_suffix(tool, pattern.drop_first())
    } else {
        tool == pattern
    }
}

impl PermissionRule {
    /// Whether the rule covers a tool name.
    pub fn matches(&self, tool_name: &str) -> (r: bool)
        ensures
            r == pattern_covers(self.pattern@, tool_name@),
    {
        let pat = self.pattern.as_str();
        if same_text(pat, "*") {
            return true;
        }
        let chars = chars_of(pat);
        let n: usize = chars.len();
        if n > 0 && chars[n - 1] == '*' {
            let prefix = text_between(&chars, 0, n - 1);
            proof {
                assert(prefix@ == pat@.drop_last());
            }
            return starts_with(tool_name, prefix.as_str());
        }
        if n > 0 && chars[0] == '*' {
            let suffix = text_between(&chars, 1, n);
            proof {
                assert(suffix@ == pat@.drop_first());
            }
            return ends_with(tool_name, suffix.as_str());
        }
        same_text(tool_name, pat)
    }

    /// A rule with the same pattern and action.
    pub fn copy(&self) -> (r: Self)
        ensures
            r.pattern@ == self.pattern@,
            r.action == self.action,
    {
        PermissionRule { pattern: self.pattern.clone(), action: self.action }
    }
}

/// What the policy reads from the arguments of a tool call.
pub struct CallFacts {
    /// Whether the arguments are a JSON text.
    pub valid: bool,
    /// The string under `path`, if there is one.
    pub path: Option<String>,
    /// The string under `command`, if there is one.
    pub command: Option<String>,
}

/// The contents of [`CallFacts`].
pub struct Facts {
    pub valid: bool,
    pub path: Option<Seq<char>>,
    pub command: Option<Seq<char>>,
}

impl View for CallFacts {
    type V = Facts;

    open spec fn view(&self) -> Facts {
        Facts { valid: self.valid, path: opt_text(self.path), command: opt_text(self.command) }
    }
}

/// What the policy reads from the given arguments.
pub open spec fn facts_of(arguments: Seq<char>) -> Facts {
    Facts {
        valid: json_valid(arguments),
        path: json_string_member(arguments, "path"@),
        command: json_string_member(arguments, "command"@),
    }
}

/// Reads from the arguments of a tool call what the policy needs.
pub fn call_facts(arguments: &str) -> (r: CallFacts)
    ensures
        r@ == facts_of(arguments@),
{
    CallFacts {
        valid: is_json(arguments),
        path: extract_tool_path(arguments),
        command: extract_bash_command(arguments),
    }
}

fn extract_bash_command(arguments: &str) -> (r: Option<String>)
    ensures
        opt_text(r) == json_string_member(arguments@, "command"@),
{
    string_member(arguments, "command")
}

fn extract_tool_path(arguments: &str) -> (r: Option<String>)
    ensures
        opt_text(r) == json_string_member(arguments@, "path"@),
{
    string_member(arguments, "path")
}

/// A path with `/` for each `\`.
pub open spec fn slashed(path: Seq<char>) -> Seq<char> {
    path.map_values(
        |c: char|
            if c == '\\' {
                '/'
            } else {
                c
            },
    )
}

/// A path without its leading `./`, as often as it stands there.
pub open spec fn without_dot_slash(path: Seq<char>) -> Seq<char>
    decreases path.len(),
{
    if path.len() >= 2 && path[0] == '.' && path[1] == '/' {
        without_dot_slash(path.skip(2))
    } else {
        path
    }
}

/// Whether a path leads through `node_modules` or `.git`.
pub open spec fn protected_path(path: Seq<char>) -> bool {
    let parts = pieces(without_dot_slash(slashed(path)), '/');
    parts.contains("node_modules"@) || parts.contains(".git"@)
}

/// Whether writes to the path are blocked.
pub fn is_protected_write_path(path: &str) -> (r: bool)
    ensures
        r == protected_path(path@),
{
    let chars = chars_of(path);
    let n: usize = chars.len();
    let mut normal: Vec<char> = Vec::new();
    let mut i: usize = 0;
    while i < n
        invariant
            i <= n == chars.len(),
            chars@ == path@,
            normal@ == slashed(path@).take(i as int),
        decreases n - i,
    {
        let c: char = if chars[i] == '\\' {
            '/'
        } else {
            chars[i]
        };
        normal.push(c);
        proof {
            assert(slashed(path@).take(i + 1) == slashed(path@).take(i as int).push(c));
        }
        i += 1;
    }
    proof {
        assert(slashed(path@).take(n as int) == slashed(path@));
    }
    let mut start: usize = 0;
    proof {
        assert(normal@.skip(0) == normal@);
    }
    while n - start >= 2 && normal[start] == '.' && normal[start + 1] == '/'
        invariant
            start <= n == normal.len(),
            without_dot_slash(normal@) == without_dot_slash(normal@.skip(start as int)),
        decreases n - start,
    {
        proof {
            assert(normal@.skip(start as int).skip(2) == normal@.skip(start + 2));
        }
        start += 2;
    }
    let trimmed_path = text_between(&normal, start, n);
    proof {
        assert(trimmed_path@ == normal@.skip(start as int));
        assert(trimmed_path@ == without_dot_slash(slashed(path@)));
    }
    path_has_segment(trimmed_path.as_str(), "node_modules") || path_has_segment(
        trimmed_path.as_str(),
        ".git",
    )
}

fn path_has_segment(path: &str, segment: &str) -> (r: bool)
    ensures
        r == pieces(path@, '/').contains(segment@),
{
    let parts = split_on(path, '/');
    has_text(&parts, segment)
}

/// Tools that change files.
pub open spec fn edits_files(tool: Seq<char>) -> bool {
    tool == "Write"@ || tool == "Edit"@
}

/// Tools that need confirmation unless something else decides.
pub open spec fn gated(tool: Seq<char>) -> bool {
    edits_files(tool) || tool == "Bash"@ || has_prefix(tool, "mcp__"@)
}

/// The hard refusal of a tool call, if policy refuses it.
pub open spec fn policy_refusal(tool: Seq<char>, facts: Facts, deny_git_push: bool) -> Option<
    Seq<char>,
> {
    if deny_git_push && tool == "Bash"@ && facts.command is Some && blocked(facts.command->0) is Some {
        Some(denial(blocked(facts.command->0)->0, default_denied()))
    } else if edits_files(tool) && facts.path is Some && protected_path(facts.path->0) {
        Some(
            "Policy denied `"@ + tool + "` on `"@ + facts.path->0
                + "`: writes under `node_modules/` and `.git/` are blocked."@,
        )
    } else {
        None
    }
}

/// The key under which an approval for the session is remembered.
pub open spec fn approval_key(tool: Seq<char>, arguments: Seq<char>, facts: Facts) -> Option<
    Seq<char>,
> {
    if !facts.valid {
        None
    } else if edits_files(tool) {
        match facts.path {
            Some(path) => Some(tool + ":"@ + path),
            None => None,
        }
    } else if tool == "Bash"@ {
        match facts.command {
            Some(command) => Some("Bash:"@ + command),
            None => None,
        }
    } else if has_prefix(tool, "mcp__"@) {
        Some(tool + ":"@ + arguments)
    } else {
        None
    }
}

fn is_edit_tool(tool_name: &str) -> (r: bool)
    ensures
        r == edits_files(tool_name@),
{
    same_text(tool_name, "Write") || same_text(tool_name, "Edit")
}

/// The hard refusal of a tool call: writes under protected path segments, and
/// `git push` / `gh` when `cloud_run` is set.
pub fn policy_denied(tool_name: &str, arguments: &str, cloud_run: bool) -> (r: Option<String>)
    ensures
        opt_text(r) == policy_refusal(tool_name@, facts_of(arguments@), cloud_run),
{
    policy_denied_with_git_push(tool_name, arguments, cloud_run)
}

/// The hard refusal of a tool call, with push protection on or off.
pub fn policy_denied_with_git_push(
    tool_name: &str,
    arguments: &str,
    deny_git_push: bool,
) -> (r: Option<String>)
    ensures
        opt_text(r) == policy_refusal(tool_name@, facts_of(arguments@), deny_git_push),
{
    let facts = call_facts(arguments);
    policy_denied_for(tool_name, &facts, deny_git_push)
}

/// The hard refusal of a tool call whose arguments have been read.
pub fn policy_denied_for(tool_name: &str, facts: &CallFacts, deny_git_push: bool) -> (r: Option<
    String,
>)
    ensures
        opt_text(r) == policy_refusal(tool_name@, facts@, deny_git_push),
{
    if deny_git_push && same_text(tool_name, "Bash") {
        if let Some(command) = &facts.command {
            if let Some(message) = deny_git_cli(command.as_str()) {
                return Some(message);
            }
        }
    }
    if !is_edit_tool(tool_name) {
        return None;
    }
    match &facts.path {
        Some(path) => {
            if is_protected_write_path(path.as_str()) {
                let mut out = "Policy denied `".to_string();
                out.append(tool_name);
                out.append("` on `");
                out.append(path.as_str());
                out.append("`: writes under `node_modules/` and `.git/` are blocked.");
                Some(out)
            } else {
                None
            }
        },
        None => None,
    }
}

/// Session approval key: `Write:relative/path` or `Bash:command`.
pub fn session_approval_key(tool_name: &str, arguments: &str) -> (r: Option<String>)
    ensures
        opt_text(r) == approval_key(tool_name@, arguments@, facts_of(arguments@)),
{
    let facts = call_facts(arguments);
    session_key_for(tool_name, arguments, &facts)
}

/// Session approval key of a tool call whose arguments have been read.
pub fn session_key_for(tool_name: &str, arguments: &str, facts: &CallFacts) -> (r: Option<String>)
    ensures
        opt_text(r) == approval_key(tool_name@, arguments@, facts@),
{
    if !facts.valid {
        None
    } else if is_edit_tool(tool_name) {
        match &facts.path {
            Some(path) => {
                let mut key = tool_name.to_string();
                key.append(":");
                key.append(path.as_str());
                Some(key)
            },
            None => None,
        }
    } else if same_text(tool_name, "Bash") {
        match &facts.command {
            Some(command) => {
                let mut key = "Bash:".to_string();
                key.append(command.as_str());
                Some(key)
            },
            None => None,
        }
    } else if starts_with(tool_name, "mcp__") {
        let mut key = tool_name.to_string();
        key.append(":");
        key.append(arguments);
        Some(key)
    } else {
        None
    }
}

/// The first `max` characters of a text, with an ellipsis where it was cut.
pub open spec fn preview_text(input: Seq<char>, max: int) -> Seq<char> {
    if input.len() <= max {
        input
    } else {
        input.take(max) + "..."@
    }
}

pub(crate) fn truncate(input: &str, max: usize) -> (r: String)
    ensures
        r@ == preview_text(input@, max as int),
{
    let chars = chars_of(input);
    if chars.len() <= max {
        input.to_string()
    } else {
        let mut out = text_between(&chars, 0, max);
        proof {
            assert(input@.subrange(0, max as int) == input@.take(max as int));
        }
        out.append("...");
        out
    }
}

/// Why a prompt gave no answer.
#[derive(Debug, Clone)]
pub enum PromptError {
    /// Nobody can be asked.
    Unavailable,
    /// Asking failed, with the reason.
    Failed(String),
}

/// Asks a user about a tool call.
pub trait PermissionPrompter {
    /// The questions that were put to the prompter, in order: the tool and the preview of
    /// its arguments. A verified prompter says where it keeps them.
    open spec fn asked(&self) -> Seq<(Seq<char>, Seq<char>)> {
        Seq::empty()
    }

    /// Whether the prompter may give this answer when asked about the tool with
    /// this preview of its arguments. Unless a prompter says more, it may give any.
    open spec fn may_answer(
        &self,
        tool: Seq<char>,
        preview: Seq<char>,
        answer: Result<PromptChoice, PromptError>,
    ) -> bool {
        true
    }

    /// Asks about one tool call. What the prompter may answer stays the same.
    fn prompt(&mut self, tool_name: &str, args_preview: &str) -> (answer: Result<
        PromptChoice,
        PromptError,
    >)
        ensures
            final(self).asked() == old(self).asked().push((tool_name@, args_preview@)),
            old(self).may_answer(tool_name@, args_preview@, answer),
            forall|tool: Seq<char>, preview: Seq<char>, other: Result<PromptChoice, PromptError>|
                #[trigger] final(self).may_answer(tool, preview, other) == old(self).may_answer(
                    tool,
                    preview,
                    other,
                ),
    ;
}

/// A prompter with nobody behind it.
pub struct NoPrompter {
    questions: Ghost<Seq<(Seq<char>, Seq<char>)>>,
}

impl NoPrompter {
    /// A prompter that has not been asked anything.
    pub fn new() -> (r: Self)
        ensures
            r.asked() == Seq::<(Seq<char>, Seq<char>)>::empty(),
    {
        NoPrompter { questions: Ghost(Seq::empty()) }
    }
}

impl PermissionPrompter for NoPrompter {
    closed spec fn asked(&self) -> Seq<(Seq<char>, Seq<char>)> {
        self.questions@
    }

    open spec fn may_answer(
        &self,
        tool: Seq<char>,
        preview: Seq<char>,
        answer: Result<PromptChoice, PromptError>,
    ) -> bool {
        answer == Err::<PromptChoice, PromptError>(PromptError::Unavailable)
    }

    fn prompt(&mut self, tool_name: &str, args_preview: &str) -> (answer: Result<
        PromptChoice,
        PromptError,
    >) {
        self.questions = Ghost(self.questions@.push((tool_name@, args_preview@)));
        Err(PromptError::Unavailable)
    }
}

/// The choice that a typed, lower-case answer stands for.
pub open spec fn choice_named(answer: Seq<char>) -> PromptChoice {
    if answer == "y"@ || answer == "yes"@ {
        PromptChoice::AllowOnce
    } else if answer == "a"@ || answer == "approve"@ || answer == "always"@ {
        PromptChoice::AllowSession
    } else {
        PromptChoice::Deny
    }
}

/// The question put to a user at a terminal.
pub fn prompt_question(tool_name: &str, args_preview: &str) -> (r: String)
    ensures
        r@ == "\nAllow "@ + tool_name@ + "("@ + args_preview@
            + ")? [y]es / [n]o / [a]pprove for session: "@,
{
    let mut out = "\nAllow ".to_string();
    out.append(tool_name);
    out.append("(");
    out.append(args_preview);
    out.append(")? [y]es / [n]o / [a]pprove for session: ");
    out
}

/// The choice in a line that a user typed.
pub fn choice_from_line(line: &str) -> (r: PromptChoice)
    ensures
        r == choice_named(unicode_lowercase(trimmed(line@))),
{
    let trimmed_line = trim(line);
    let answer = to_lowercase(trimmed_line.as_str());
    choice_from_answer(answer.as_str())
}

/// The choice that a trimmed, lower-case answer stands for.
pub fn choice_from_answer(answer: &str) -> (r: PromptChoice)
    ensures
        r == choice_named(answer@),
{
    if same_text(answer, "y") || same_text(answer, "yes") {
        PromptChoice::AllowOnce
    } else if same_text(answer, "a") || same_text(answer, "approve") || same_text(answer, "always") {
        PromptChoice::AllowSession
    } else {
        PromptChoice::Deny
    }
}

/// What a gate decides by.
pub struct GatePolicy {
    pub mode: PermissionMode,
    pub approved: Set<Seq<char>>,
    pub rules: Seq<(Seq<char>, RuleAction)>,
    pub auto_allow_bash: bool,
    pub deny_git_push: bool,
}

/// The patterns and actions of a list of rules.
pub open spec fn rule_list(rules: Seq<PermissionRule>) -> Seq<(Seq<char>, RuleAction)> {
    Seq::new(rules.len(), |i: int| (rules[i].pattern@, rules[i].action))
}

/// The action of the first rule that covers the tool.
pub open spec fn first_rule(rules: Seq<(Seq<char>, RuleAction)>, tool: Seq<char>) -> Option<
    RuleAction,
>
    decreases rules.len(),
{
    if rules.len() == 0 {
        None
    } else if pattern_covers(rules[0].0, tool) {
        Some(rules[0].1)
    } else {
        first_rule(rules.drop_first(), tool)
    }
}

/// What a gate decides about a tool call.
pub open spec fn decision(
    policy: GatePolicy,
    tool: Seq<char>,
    arguments: Seq<char>,
    facts: Facts,
) -> PolicyDecision {
    let rule = first_rule(policy.rules, tool);
    if policy_refusal(tool, facts, policy.deny_git_push) is Some {
        PolicyDecision::Deny
    } else if rule == Some(RuleAction::Allow) {
        PolicyDecision::Allow
    } else if rule == Some(RuleAction::Deny) {
        PolicyDecision::Deny
    } else if rule is None && (canonical(policy.mode) is BypassPermissions || !gated(tool) || (
    policy.mode is AcceptEdits && edits_files(tool)) || (policy.auto_allow_bash && tool
        == "Bash"@)) {
        PolicyDecision::Allow
    } else if policy.mode is DontAsk {
        PolicyDecision::Deny
    } else {
        match approval_key(tool, arguments, facts) {
            Some(key) => if policy.approved.contains(key) {
                PolicyDecision::Allow
            } else {
                PolicyDecision::Ask
            },
            None => PolicyDecision::Ask,
        }
    }
}

/// The policy after a choice about a tool call.
pub open spec fn after_choice(policy: GatePolicy, key: Option<Seq<char>>, choice: PromptChoice) -> GatePolicy {
    match (choice, key) {
        (PromptChoice::AllowSession, Some(k)) => GatePolicy {
            approved: policy.approved.insert(k),
            ..policy
        },
        _ => policy,
    }
}

/// Gate for Write / Edit / Bash / MCP tools before execution.
pub struct PermissionGate<P> {
    mode: PermissionMode,
    approved_session: Vec<String>,
    rules: Vec<PermissionRule>,
    prompter: P,
    auto_allow_bash: bool,
    deny_git_push: bool,
}

impl PermissionGate<NoPrompter> {
    /// A gate with nobody to ask. In a cloud run it refuses pushes.
    pub fn new(mode: PermissionMode, cloud_run: bool) -> (r: Self)
        ensures
            r.wf(),
            r.policy() == fresh_policy(mode, cloud_run),
            r.asks().asked() == Seq::<(Seq<char>, Seq<char>)>::empty(),
    {
        PermissionGate::with_prompter(mode, NoPrompter::new(), cloud_run)
    }
}

/// The policy of a new gate.
pub open spec fn fresh_policy(mode: PermissionMode, cloud_run: bool) -> GatePolicy {
    GatePolicy {
        mode,
        approved: Set::empty(),
        rules: Seq::empty(),
        auto_allow_bash: false,
        deny_git_push: cloud_run,
    }
}

impl<P> PermissionGate<P> {
    /// Each session approval is remembered once.
    pub closed spec fn wf(&self) -> bool {
        texts(self.approved_session@).no_duplicates()
    }

    /// What this gate decides by.
    pub closed spec fn policy(&self) -> GatePolicy {
        GatePolicy {
            mode: self.mode,
            approved: texts(self.approved_session@).to_set(),
            rules: rule_list(self.rules@),
            auto_allow_bash: self.auto_allow_bash,
            deny_git_push: self.deny_git_push,
        }
    }

    /// Whom this gate asks.
    pub closed spec fn asks(&self) -> P {
        self.prompter
    }

    /// A gate that asks the given prompter. In a cloud run it refuses pushes.
    pub fn with_prompter(mode: PermissionMode, prompter: P, cloud_run: bool) -> (r: Self)
        ensures
            r.wf(),
            r.policy() == fresh_policy(mode, cloud_run),
            r.asks() == prompter,
    {
        let gate = PermissionGate {
            mode,
            approved_session: Vec::new(),
            rules: Vec::new(),
            prompter,
            auto_allow_bash: false,
            deny_git_push: cloud_run,
        };
        proof {
            assert(texts(gate.approved_session@).to_set() == Set::<Seq<char>>::empty());
            assert(rule_list(gate.rules@) == Seq::<(Seq<char>, RuleAction)>::empty());
        }
        gate
    }

    /// This gate with the given rules.
    pub fn with_rules(self, rules: Vec<PermissionRule>) -> (r: Self)
        requires
            self.wf(),
        ensures
            r.wf(),
            r.policy() == (GatePolicy { rules: rule_list(rules@), ..self.policy() }),
            r.asks() == self.asks(),
    {
        let mut gate = self;
        gate.rules = rules;
        gate
    }

    /// This gate with Bash approved, or not, without asking.
    pub fn with_auto_allow_bash(self, enabled: bool) -> (r: Self)
        requires
            self.wf(),
        ensures
            r.wf(),
            r.policy() == (GatePolicy { auto_allow_bash: enabled, ..self.policy() }),
            r.asks() == self.asks(),
    {
        let mut gate = self;
        gate.auto_allow_bash = enabled;
        gate
    }

    /// This gate with pushes refused or not.
    pub fn with_deny_git_push(self, deny: bool) -> (r: Self)
        requires
            self.wf(),
        ensures
            r.wf(),
            r.policy() == (GatePolicy { deny_git_push: deny, ..self.policy() }),
            r.asks() == self.asks(),
    {
        let mut gate = self;
        gate.deny_git_push = deny;
        gate
    }

    pub fn set_auto_allow_bash(&mut self, enabled: bool)
        requires
            old(self).wf(),
        ensures
            final(self).wf(),
            final(self).policy() == (GatePolicy { auto_allow_bash: enabled, ..old(self).policy() }),
            final(self).asks() == old(self).asks(),
    {
        self.auto_allow_bash = enabled;
    }

    pub fn auto_allow_bash(&self) -> (r: bool)
        ensures
            r == self.policy().auto_allow_bash,
    {
        self.auto_allow_bash
    }

    pub fn set_deny_git_push(&mut self, deny: bool)
        requires
            old(self).wf(),
        ensures
            final(self).wf(),
            final(self).policy() == (GatePolicy { deny_git_push: deny, ..old(self).policy() }),
            final(self).asks() == old(self).asks(),
    {
        self.deny_git_push = deny;
    }

    pub fn deny_git_push(&self) -> (r: bool)
        ensures
            r == self.policy().deny_git_push,
    {
        self.deny_git_push
    }

    pub fn set_rules(&mut self, rules: Vec<PermissionRule>)
        requires
            old(self).wf(),
        ensures
            final(self).wf(),
            final(self).policy() == (GatePolicy { rules: rule_list(rules@), ..old(self).policy() }),
            final(self).asks() == old(self).asks(),
    {
        self.rules = rules;
    }

    pub fn set_prompter(&mut self, prompter: P)
        requires
            old(self).wf(),
        ensures
            final(self).wf(),
            final(self).policy() == old(self).policy(),
            final(self).asks() == prompter,
    {
        self.prompter = prompter;
    }

    /// Takes over everything that the other gate decides by, except its mode.
    pub fn inherit_policy_from<Q>(&mut self, other: &PermissionGate<Q>)
        requires
            old(self).wf(),
            other.wf(),
        ensures
            final(self).wf(),
            final(self).policy() == (GatePolicy { mode: old(self).policy().mode, ..other.policy() }),
            final(self).asks() == old(self).asks(),
    {
        self.auto_allow_bash = other.auto_allow_bash;
        self.deny_git_push = other.deny_git_push;
        self.rules = copy_rules(&other.rules);
        self.approved_session = copy_texts(&other.approved_session);
    }

    /// The mode, its other names resolved.
    pub fn mode(&self) -> (r: PermissionMode)
        ensures
            r == canonical(self.policy().mode),
    {
        match self.mode {
            PermissionMode::Manual => PermissionMode::Default,
            PermissionMode::Yolo => PermissionMode::BypassPermissions,
            other => other,
        }
    }

    fn matching_rule(&self, tool_name: &str) -> (r: Option<RuleAction>)
        ensures
            r == first_rule(self.policy().rules, tool_name@),
    {
        let ghost all = rule_list(self.rules@);
        let mut i: usize = 0;
        proof {
            assert(all.skip(0) == all);
        }
        while i < self.rules.len()
            invariant
                i <= self.rules.len(),
                all == rule_list(self.rules@),
                first_rule(all, tool_name@) == first_rule(all.skip(i as int), tool_name@),
            decreases self.rules.len() - i,
        {
            proof {
                assert(all.skip(i as int)[0] == all[i as int]);
                assert(all.skip(i as int).drop_first() == all.skip(i + 1));
            }
            if self.rules[i].matches(tool_name) {
                return Some(self.rules[i].action);
            }
            i += 1;
        }
        None
    }

    /// The hard refusal of a tool call under this gate's policy.
    pub fn policy_denied(&self, tool_name: &str, arguments: &str) -> (r: Option<String>)
        ensures
            opt_text(r) == policy_refusal(
                tool_name@,
                facts_of(arguments@),
                self.policy().deny_git_push,
            ),
    {
        policy_denied_with_git_push(tool_name, arguments, self.deny_git_push)
    }

    /// Classifies a tool call without talking to a user.
    pub fn evaluate(&self, tool_name: &str, arguments: &str) -> (r: PolicyDecision)
        requires
            self.wf(),
        ensures
            r == decision(self.policy(), tool_name@, arguments@, facts_of(arguments@)),
    {
        let facts = call_facts(arguments);
        self.evaluate_facts(tool_name, arguments, &facts)
    }

    /// Classifies a tool call whose arguments have been read.
    pub fn evaluate_facts(&self, tool_name: &str, arguments: &str, facts: &CallFacts) -> (r:
        PolicyDecision)
        requires
            self.wf(),
        ensures
            r == decision(self.policy(), tool_name@, arguments@, facts@),
    {
        if policy_denied_for(tool_name, facts, self.deny_git_push).is_some() {
            return PolicyDecision::Deny;
        }
        let rule = self.matching_rule(tool_name);
        let mut forced_ask = false;
        if let Some(action) = rule {
            match action {
                RuleAction::Allow => return PolicyDecision::Allow,
                RuleAction::Deny => return PolicyDecision::Deny,
                RuleAction::Ask => {
                    forced_ask = true;
                },
            }
        }
        if !forced_ask {
            if self.mode.auto_approves_all() {
                return PolicyDecision::Allow;
            }
            if !requires_confirmation(tool_name) {
                return PolicyDecision::Allow;
            }
            if self.mode.auto_approves_edits() && is_edit_tool(tool_name) {
                return PolicyDecision::Allow;
            }
            if self.auto_allow_bash && same_text(tool_name, "Bash") {
                return PolicyDecision::Allow;
            }
            if self.mode.denies_without_prompt() {
                return PolicyDecision::Deny;
            }
        } else if self.mode.denies_without_prompt() {
            return PolicyDecision::Deny;
        }
        if let Some(key) = session_key_for(tool_name, arguments, facts) {
            if has_text(&self.approved_session, key.as_str()) {
                return PolicyDecision::Allow;
            }
        }
        PolicyDecision::Ask
    }

    /// Records a choice. `AllowSession` is remembered for this gate.
    pub fn apply_choice(&mut self, tool_name: &str, arguments: &str, choice: PromptChoice) -> (r:
        bool)
        requires
            old(self).wf(),
        ensures
            final(self).wf(),
            r == (choice != PromptChoice::Deny),
            final(self).policy() == after_choice(
                old(self).policy(),
                approval_key(tool_name@, arguments@, facts_of(arguments@)),
                choice,
            ),
            final(self).asks() == old(self).asks(),
    {
        let facts = call_facts(arguments);
        self.apply_choice_facts(tool_name, arguments, &facts, choice)
    }

    /// Records a choice about a tool call whose arguments have been read.
    pub fn apply_choice_facts(
        &mut self,
        tool_name: &str,
        arguments: &str,
        facts: &CallFacts,
        choice: PromptChoice,
    ) -> (r: bool)
        requires
            old(self).wf(),
        ensures
            final(self).wf(),
            r == (choice != PromptChoice::Deny),
            final(self).policy() == after_choice(
                old(self).policy(),
                approval_key(tool_name@, arguments@, facts@),
                choice,
            ),
            final(self).asks() == old(self).asks(),
    {
        match choice {
            PromptChoice::AllowOnce => true,
            PromptChoice::AllowSession => {
                if let Some(key) = session_key_for(tool_name, arguments, facts) {
                    let ghost before = texts(self.approved_session@);
                    let ghost added = key@;
                    if !has_text(&self.approved_session, key.as_str()) {
                        self.approved_session.push(key);
                        proof {
                            let after = texts(self.approved_session@);
                            assert(after == before.push(added));
                            assert(after.to_set() == before.to_set().insert(added)) by {
                                assert forall|t: Seq<char>| after.to_set().contains(t)
                                    == before.to_set().insert(added).contains(t) by {
                                    if before.contains(t) {
                                        let k = choose|k: int| 0 <= k < before.len() && before[k] == t;
                                        assert(after[k] == t);
                                    }
                                    if t == added {
                                        assert(after[after.len() - 1] == t);
                                    }
                                }
                            }
                        }
                    } else {
                        proof {
                            assert(before.to_set().insert(added) == before.to_set());
                        }
                    }
                }
                true
            },
            PromptChoice::Deny => false,
        }
    }

    /// What a user-denied tool call is answered.
    pub fn denied_message(tool_name: &str) -> (r: String)
        ensures
            r@ == user_denial(tool_name@),
    {
        let mut out = "Tool `".to_string();
        out.append(tool_name);
        out.append("` was denied by the user.");
        out
    }

    /// What a refused tool call is answered: the policy's reason, or the user's denial.
    pub fn permission_denied_message(tool_name: &str, arguments: &str, cloud_run: bool) -> (r: String)
        ensures
            r@ == (match policy_refusal(tool_name@, facts_of(arguments@), cloud_run) {
                Some(message) => message,
                None => user_denial(tool_name@),
            }),
    {
        match policy_denied(tool_name, arguments, cloud_run) {
            Some(message) => message,
            None => Self::denied_message(tool_name),
        }
    }

    /// Whether the tool needs confirmation unless something else decides.
    pub fn requires_confirmation(tool_name: &str) -> (r: bool)
        ensures
            r == gated(tool_name@),
    {
        requires_confirmation(tool_name)
    }
}

/// The answer to a tool call that the user denied.
pub open spec fn user_denial(tool: Seq<char>) -> Seq<char> {
    "Tool `"@ + tool + "` was denied by the user."@
}

fn requires_confirmation(tool_name: &str) -> (r: bool)
    ensures
        r == gated(tool_name@),
{
    is_edit_tool(tool_name) || same_text(tool_name, "Bash") || starts_with(tool_name, "mcp__")
}

fn copy_rules(rules: &Vec<PermissionRule>) -> (r: Vec<PermissionRule>)
    ensures
        rule_list(r@) == rule_list(rules@),
{
    let mut out: Vec<PermissionRule> = Vec::new();
    let mut i: usize = 0;
    while i < rules.len()
        invariant
            i <= rules.len(),
            rule_list(out@) == rule_list(rules@).take(i as int),
        decreases rules.len() - i,
    {
        let ghost before = out@;
        out.push(rules[i].copy());
        proof {
            assert(rule_list(out@) == rule_list(before).push(rule_list(rules@)[i as int]));
            assert(rule_list(rules@).take(i + 1) == rule_list(rules@).take(i as int).push(
                rule_list(rules@)[i as int],
            ));
        }
        i += 1;
    }
    proof {
        assert(rule_list(rules@).take(rules@.len() as int) == rule_list(rules@));
    }
    out
}

impl<P: PermissionPrompter> PermissionGate<P> {
    /// Whether the tool may run: decided by policy, or by asking the prompter about
    /// a preview of the arguments. Where the policy decides, nobody is asked; where it
    /// does not, the prompter is asked once.
    pub fn check(&mut self, tool_name: &str, arguments: &str) -> (r: Result<bool, PromptError>)
        requires
            old(self).wf(),
        ensures
            final(self).wf(),
            final(self).asks().asked() == (match decision(
                old(self).policy(),
                tool_name@,
                arguments@,
                facts_of(arguments@),
            ) {
                PolicyDecision::Ask => old(self).asks().asked().push(
                    (tool_name@, preview_text(arguments@, 120)),
                ),
                _ => old(self).asks().asked(),
            }),
            checked(
                old(self),
                final(self),
                tool_name@,
                arguments@,
                facts_of(arguments@),
                r,
            ),
    {
        match self.evaluate(tool_name, arguments) {
            PolicyDecision::Allow => Ok(true),
            PolicyDecision::Deny => Ok(false),
            PolicyDecision::Ask => {
                let preview = truncate(arguments, 120);
                let answer = self.prompter.prompt(tool_name, preview.as_str());
                proof {
                    assert(old(self).asks().may_answer(
                        tool_name@,
                        preview_text(arguments@, 120),
                        answer,
                    ));
                    assert(same_answers(old(self).asks(), self.asks()));
                }
                match answer {
                    Ok(choice) => Ok(self.apply_choice(tool_name, arguments, choice)),
                    Err(e) => Err(e),
                }
            },
        }
    }
}

/// Whether two states of a prompter may give the same answers.
pub open spec fn same_answers<P: PermissionPrompter>(before: P, after: P) -> bool {
    forall|tool: Seq<char>, preview: Seq<char>, answer: Result<PromptChoice, PromptError>|
        #[trigger] after.may_answer(tool, preview, answer) == before.may_answer(
            tool,
            preview,
            answer,
        )
}

/// What a checked tool call gives and leaves: the policy's own decision, for which nobody
/// is asked, or what follows from the answer to the one question, which shows at most
/// 120 characters of the arguments.
pub open spec fn checked<P: PermissionPrompter>(
    gate: &PermissionGate<P>,
    after: &PermissionGate<P>,
    tool: Seq<char>,
    arguments: Seq<char>,
    facts: Facts,
    r: Result<bool, PromptError>,
) -> bool {
    match decision(gate.policy(), tool, arguments, facts) {
        PolicyDecision::Allow => {
            &&& r == Ok::<bool, PromptError>(true)
            &&& after.policy() == gate.policy()
            &&& after.asks() == gate.asks()
        },
        PolicyDecision::Deny => {
            &&& r == Ok::<bool, PromptError>(false)
            &&& after.policy() == gate.policy()
            &&& after.asks() == gate.asks()
        },
        PolicyDecision::Ask => {
            &&& after.asks().asked() == gate.asks().asked().push(
                (tool, preview_text(arguments, 120)),
            )
            &&& same_answers(gate.asks(), after.asks())
            &&& exists|answer: Result<PromptChoice, PromptError>|
                {
                    &&& #[trigger] gate.asks().may_answer(
                        tool,
                        preview_text(arguments, 120),
                        answer,
                    )
                    &&& match answer {
                        Ok(choice) => {
                            &&& r == Ok::<bool, PromptError>(choice != PromptChoice::Deny)
                            &&& after.policy() == after_choice(
                                gate.policy(),
                                approval_key(tool, arguments, facts),
                                choice,
                            )
                        },
                        Err(e) => r == Err::<bool, PromptError>(e) && after.policy()
                            == gate.policy(),
                    }
                }
        },
    }
}

/// Checks a tool call at a permission gate.
pub fn approve_tool_call<P: PermissionPrompter>(
    gate: &mut PermissionGate<P>,
    tool_name: &str,
    arguments: &str,
) -> (r: Result<bool, PromptError>)
    requires
        old(gate).wf(),
    ensures
        final(gate).wf(),
        final(gate).asks().asked() == (match decision(
            old(gate).policy(),
            tool_name@,
            arguments@,
            facts_of(arguments@),
        ) {
            PolicyDecision::Ask => old(gate).asks().asked().push(
                (tool_name@, preview_text(arguments@, 120)),
            ),
            _ => old(gate).asks().asked(),
        }),
        checked(
            old(gate),
            final(gate),
            tool_name@,
            arguments@,
            facts_of(arguments@),
            r,
        ),
{
    gate.check(tool_name, arguments)
}

/// Decides whether tool calls may run.
pub trait ToolPermission: Sized {
    /// Whether the decider is in order.
    spec fn valid(&self) -> bool;

    /// What is decided about a tool call without talking to a user.
    spec fn decides(&self, tool: Seq<char>, arguments: Seq<char>) -> PolicyDecision;

    /// Whether `after` is what the decider becomes by a choice about a tool call.
    spec fn becomes(
        &self,
        after: Self,
        tool: Seq<char>,
        arguments: Seq<char>,
        choice: PromptChoice,
    ) -> bool;

    /// Whether asking about a tool call may give this result and leave `after`.
    spec fn may_resolve(
        &self,
        after: Self,
        tool: Seq<char>,
        arguments: Seq<char>,
        r: Result<bool, PromptError>,
    ) -> bool;

    /// Whether the tool may run: by policy, or else by asking.
    fn approve_tool_call(&mut self, tool_name: &str, arguments: &str) -> (r: Result<
        bool,
        PromptError,
    >)
        requires
            old(self).valid(),
        ensures
            final(self).valid(),
            match old(self).decides(tool_name@, arguments@) {
                PolicyDecision::Allow => r == Ok::<bool, PromptError>(true),
                PolicyDecision::Deny => r == Ok::<bool, PromptError>(false),
                PolicyDecision::Ask => true,
            },
            old(self).may_resolve(*final(self), tool_name@, arguments@, r),
    ;

    /// Classifies a tool call without talking to a user.
    fn evaluate(&self, tool_name: &str, arguments: &str) -> (r: PolicyDecision)
        requires
            self.valid(),
        ensures
            r == self.decides(tool_name@, arguments@),
    ;

    /// Records a choice about a tool call.
    fn apply_choice(&mut self, tool_name: &str, arguments: &str, choice: PromptChoice) -> (r: bool)
        requires
            old(self).valid(),
        ensures
            final(self).valid(),
            r == (choice != PromptChoice::Deny),
            old(self).becomes(*final(self), tool_name@, arguments@, choice),
    ;

    /// What a user-denied tool call is answered.
    fn denied_message(tool_name: &str) -> (r: String)
        ensures
            r@ == user_denial(tool_name@),
    ;
}

impl<P: PermissionPrompter> ToolPermission for PermissionGate<P> {
    open spec fn valid(&self) -> bool {
        self.wf()
    }

    open spec fn decides(&self, tool: Seq<char>, arguments: Seq<char>) -> PolicyDecision {
        decision(self.policy(), tool, arguments, facts_of(arguments))
    }

    open spec fn becomes(
        &self,
        after: Self,
        tool: Seq<char>,
        arguments: Seq<char>,
        choice: PromptChoice,
    ) -> bool {
        after.asks() == self.asks() && after.policy() == after_choice(
            self.policy(),
            approval_key(tool, arguments, facts_of(arguments)),
            choice,
        )
    }

    open spec fn may_resolve(
        &self,
        after: Self,
        tool: Seq<char>,
        arguments: Seq<char>,
        r: Result<bool, PromptError>,
    ) -> bool {
        checked(self, &after, tool, arguments, facts_of(arguments), r)
    }

    fn approve_tool_call(&mut self, tool_name: &str, arguments: &str) -> (r: Result<
        bool,
        PromptError,
    >) {
        self.check(tool_name, arguments)
    }

    fn evaluate(&self, tool_name: &str, arguments: &str) -> (r: PolicyDecision) {
        PermissionGate::evaluate(self, tool_name, arguments)
    }

    fn apply_choice(&mut self, tool_name: &str, arguments: &str, choice: PromptChoice) -> (r: bool) {
        PermissionGate::apply_choice(self, tool_name, arguments, choice)
    }

    fn denied_message(tool_name: &str) -> (r: String) {
        PermissionGate::<P>::denied_message(tool_name)
    }
}

/// A request for the approval of a tool call.
#[derive(Debug, Clone)]
pub struct ApprovalRequest {
    pub request_id: String,
    pub tool_name: String,
    pub arguments: String,
    pub tool_call_id: Option<String>,
}

/// How a permission question goes on.
#[derive(Debug, Clone, Copy, PartialEq, Eq, Structural)]
pub enum PermissionStep {
    /// The policy has decided.
    Resolved(bool),
    /// The approval broker is to be asked; its choice is then applied to the permission gate.
    AskBroker,
    /// The permission gate itself is to check the call, with its own prompter.
    AskGate,
}

/// Resolves a tool call against policy, or says whom to ask.
pub fn resolve_permission<T: ToolPermission>(
    permission: &T,
    has_broker: bool,
    request: &ApprovalRequest,
) -> (r: PermissionStep)
    requires
        permission.valid(),
    ensures
        r == (match permission.decides(request.tool_name@, request.arguments@) {
            PolicyDecision::Allow => PermissionStep::Resolved(true),
            PolicyDecision::Deny => PermissionStep::Resolved(false),
            PolicyDecision::Ask => if has_broker {
                PermissionStep::AskBroker
            } else {
                PermissionStep::AskGate
            },
        }),
{
    match permission.evaluate(request.tool_name.as_str(), request.arguments.as_str()) {
        PolicyDecision::Allow => PermissionStep::Resolved(true),
        PolicyDecision::Deny => PermissionStep::Resolved(false),
        PolicyDecision::Ask => if has_broker {
            PermissionStep::AskBroker
        } else {
            PermissionStep::AskGate
        },
    }
}

/// Ends a permission question with what the approval broker answered: its choice is
/// applied, its failure handed on.
pub fn resolve_broker_answer<T: ToolPermission>(
    permission: &mut T,
    request: &ApprovalRequest,
    answer: Result<PromptChoice, PromptError>,
) -> (r: Result<bool, PromptError>)
    requires
        old(permission).valid(),
    ensures
        final(permission).valid(),
        match answer {
            Ok(choice) => {
                &&& r == Ok::<bool, PromptError>(choice != PromptChoice::Deny)
                &&& old(permission).becomes(
                    *final(permission),
                    request.tool_name@,
                    request.arguments@,
                    choice,
                )
            },
            Err(error) => r == Err::<bool, PromptError>(error) && *final(permission) == *old(permission),
        },
{
    match answer {
        Ok(choice) => Ok(
            permission.apply_choice(
                request.tool_name.as_str(),
                request.arguments.as_str(),
                choice,
            ),
        ),
        Err(error) => Err(error),
    }
}

/// A hard refusal holds in every mode and against every rule and approval.
pub proof fn refusal_beats_everything(
    policy: GatePolicy,
    tool: Seq<char>,
    arguments: Seq<char>,
    facts: Facts,
)
    requires
        policy_refusal(tool, facts, policy.deny_git_push) is Some,
    ensures
        decision(policy, tool, arguments, facts) == PolicyDecision::Deny,
{
}

/// A first matching `Deny` rule denies in every mode, also where everything else
/// would be approved.
pub proof fn deny_rule_beats_mode(
    policy: GatePolicy,
    tool: Seq<char>,
    arguments: Seq<char>,
    facts: Facts,
)
    requires
        first_rule(policy.rules, tool) == Some(RuleAction::Deny),
    ensures
        decision(policy, tool, arguments, facts) == PolicyDecision::Deny,
{
}

/// In the mode that never prompts, no call is left to a user.
pub proof fn dont_ask_never_asks(
    policy: GatePolicy,
    tool: Seq<char>,
    arguments: Seq<char>,
    facts: Facts,
)
    requires
        policy.mode is DontAsk,
    ensures
        decision(policy, tool, arguments, facts) != PolicyDecision::Ask,
{
}

/// Without rules, a bypassing gate allows every call that policy does not refuse.
pub proof fn bypass_allows_unrefused(
    policy: GatePolicy,
    tool: Seq<char>,
    arguments: Seq<char>,
    facts: Facts,
)
    requires
        canonical(policy.mode) is BypassPermissions,
        first_rule(policy.rules, tool) is None,
        policy_refusal(tool, facts, policy.deny_git_push) is None,
    ensures
        decision(policy, tool, arguments, facts) == PolicyDecision::Allow,
{
}

/// A tool that is not gated is never asked about unless a rule says so, and is
/// allowed.
pub proof fn ungated_tools_run(
    policy: GatePolicy,
    tool: Seq<char>,
    arguments: Seq<char>,
    facts: Facts,
)
    requires
        !gated(tool),
        first_rule(policy.rules, tool) is None,
    ensures
        decision(policy, tool, arguments, facts) == PolicyDecision::Allow,
{
}

/// A call that was asked about and approved for the session is allowed from then
/// on, as long as it has a key to remember it by.
pub proof fn session_approval_is_remembered(
    policy: GatePolicy,
    tool: Seq<char>,
    arguments: Seq<char>,
    facts: Facts,
)
    requires
        decision(policy, tool, arguments, facts) == PolicyDecision::Ask,
        approval_key(tool, arguments, facts) is Some,
    ensures
        decision(
            after_choice(
                policy,
                approval_key(tool, arguments, facts),
                PromptChoice::AllowSession,
            ),
            tool,
            arguments,
            facts,
        ) == PolicyDecision::Allow,
{
}

/// An approval for the session widens nothing but the approved calls: a call that
/// was denied stays denied, and one that was allowed stays allowed.
pub proof fn session_approval_only_answers_questions(
    policy: GatePolicy,
    key: Option<Seq<char>>,
    tool: Seq<char>,
    arguments: Seq<char>,
    facts: Facts,
)
    requires
        decision(policy, tool, arguments, facts) != PolicyDecision::Ask,
    ensures
        decision(after_choice(policy, key, PromptChoice::AllowSession), tool, arguments, facts)
            == decision(policy, tool, arguments, facts),
{
}

/// Approvals for the session tell file edits and commands apart: two such calls share
/// a key only if they are of the same tool and name the same path or command.
pub proof fn approval_keys_tell_calls_apart(
    tool: Seq<char>,
    arguments: Seq<char>,
    facts: Facts,
    other_tool: Seq<char>,
    other_arguments: Seq<char>,
    other_facts: Facts,
)
    requires
        edits_files(tool) || tool == "Bash"@,
        edits_files(other_tool) || other_tool == "Bash"@,
        approval_key(tool, arguments, facts) is Some,
        approval_key(tool, arguments, facts) == approval_key(
            other_tool,
            other_arguments,
            other_facts,
        ),
    ensures
        tool == other_tool,
        edits_files(tool) ==> facts.path == other_facts.path,
        tool == "Bash"@ ==> facts.command == other_facts.command,
{
    reveal_strlit("Write");
    reveal_strlit("Edit");
    reveal_strlit("Bash");
    reveal_strlit("Bash:");
    reveal_strlit(":");
    assert("Write"@[0] == 'W' && "Edit"@[0] == 'E' && "Bash"@[0] == 'B' && "Bash:"@[0] == 'B');
    let key = approval_key(tool, arguments, facts)->0;
    assert(key[0] == tool[0]);
    assert(key[0] == other_tool[0]);
    assert(tool == other_tool);
    if edits_files(tool) {
        assert(key.skip(tool.len() as int + 1) == facts.path->0);
        assert(key.skip(tool.len() as int + 1) == other_facts.path->0);
    } else {
        assert(key.skip(5) == facts.command->0);
        assert(key.skip(5) == other_facts.command->0);
    }
}

/// The first rule that covers a tool decides, and later ones do not matter. Where none
/// covers it, there is none.
pub proof fn rules_are_tried_in_order(rules: Seq<(Seq<char>, RuleAction)>, tool: Seq<char>)
    ensures
        forall|k: int|
            0 <= k < rules.len() && pattern_covers((#[trigger] rules[k]).0, tool) && (forall|i: int|
                0 <= i < k ==> !pattern_covers((#[trigger] rules[i]).0, tool)) ==> first_rule(
                rules,
                tool,
            ) == Some(rules[k].1),
        (forall|i: int| 0 <= i < rules.len() ==> !pattern_covers((#[trigger] rules[i]).0, tool))
            <==> first_rule(rules, tool) is None,
    decreases rules.len(),
{
    if rules.len() > 0 {
        let rest = rules.drop_first();
        rules_are_tried_in_order(rest, tool);
        assert forall|i: int| 0 <= i < rest.len() implies #[trigger] rest[i] == rules[i + 1] by {}
        assert forall|k: int|
            0 <= k < rules.len() && pattern_covers((#[trigger] rules[k]).0, tool) && (forall|i: int|
                0 <= i < k ==> !pattern_covers((#[trigger] rules[i]).0, tool)) implies first_rule(
            rules,
            tool,
        ) == Some(rules[k].1) by {
            if k > 0 {
                assert(rest[k - 1] == rules[k]);
                assert forall|i: int| 0 <= i < k - 1 implies !pattern_covers(
                    (#[trigger] rest[i]).0,
                    tool,
                ) by {
                    assert(rest[i] == rules[i + 1]);
                }
                assert(!pattern_covers(rules[0].0, tool));
            }
        }
        if !pattern_covers(rules[0].0, tool) {
            if forall|i: int| 0 <= i < rest.len() ==> !pattern_covers((#[trigger] rest[i]).0, tool) {
                assert forall|i: int| 0 <= i < rules.len() implies !pattern_covers(
                    (#[trigger] rules[i]).0,
                    tool,
                ) by {
                    if i > 0 {
                        assert(rest[i - 1] == rules[i]);
                    }
                }
            } else {
                let i = choose|i: int| 0 <= i < rest.len() && pattern_covers((#[trigger] rest[i]).0, tool);
                assert(pattern_covers(rules[i + 1].0, tool));
            }
        }
    }
}

/// A pattern without a star at an end covers the tool of that name alone. One that ends
/// in a star covers the tools whose names begin with the rest; one that begins with a
/// star, and does not end in one, those whose names end with the rest. A lone star
/// covers every tool.
pub proof fn stars_stand_for_any_text(stem: Seq<char>, rest: Seq<char>, tool: Seq<char>)
    ensures
        pattern_covers(seq!['*'], tool),
        pattern_covers(stem.push('*'), stem + rest),
        pattern_covers(stem.push('*'), tool) ==> exists|more: Seq<char>| tool == #[trigger] (stem + more),
        stem.len() > 0 && stem.last() != '*' ==> pattern_covers(seq!['*'] + stem, rest + stem),
        stem.len() > 0 && stem.last() != '*' && pattern_covers(seq!['*'] + stem, tool)
            ==> exists|more: Seq<char>| tool == #[trigger] (more + stem),
        stem.len() > 0 && stem[0] != '*' && stem.last() != '*' ==> (pattern_covers(stem, tool)
            <==> tool == stem),
{
    reveal_strlit("*");
    assert("*"@ == seq!['*']);
    let ending = stem.push('*');
    assert(ending.drop_last() == stem);
    assert((stem + rest).subrange(0, stem.len() as int) == stem);
    if pattern_covers(ending, tool) {
        if stem.len() == 0 {
            assert(tool == stem + tool);
        } else {
            assert(ending != seq!['*']) by {
                assert(ending.len() > 1);
            }
            let more = tool.skip(stem.len() as int);
            assert(tool == stem + more);
        }
    }
    if stem.len() > 0 && stem.last() != '*' {
        let leading = seq!['*'] + stem;
        assert(leading.last() == stem.last());
        assert(leading.drop_first() == stem);
        assert(leading.len() > 1);
        let whole = rest + stem;
        assert(whole.subrange(whole.len() - stem.len(), whole.len() as int) == stem);
        if pattern_covers(leading, tool) {
            let more = tool.take(tool.len() - stem.len());
            assert(tool == more + stem);
        }
        assert(stem != seq!['*']) by {
            assert(seq!['*'].last() == '*');
        }
    }
}

/// Where no rule covers the call, nothing refuses it and it was not approved for the
/// session, the default mode asks about Write, Edit, Bash and the tools of MCP servers;
/// about Bash only where it is not approved in general.
pub proof fn default_mode_asks_about_gated_tools(
    policy: GatePolicy,
    tool: Seq<char>,
    arguments: Seq<char>,
    facts: Facts,
)
    requires
        policy.mode is Default || policy.mode is Manual,
        tool == "Write"@ || tool == "Edit"@ || has_prefix(tool, "mcp__"@) || (tool == "Bash"@
            && !policy.auto_allow_bash),
        forall|i: int|
            0 <= i < policy.rules.len() ==> !pattern_covers((#[trigger] policy.rules[i]).0, tool),
        policy_refusal(tool, facts, policy.deny_git_push) is None,
        approval_key(tool, arguments, facts) matches Some(key) ==> !policy.approved.contains(key),
    ensures
        decision(policy, tool, arguments, facts) == PolicyDecision::Ask,
{
    rules_are_tried_in_order(policy.rules, tool);
    lemma_gated_names_differ(tool);
}

/// Of the tools that need confirmation, the mode that accepts edits lets exactly Write
/// and Edit through, and Bash where it is approved in general. The others are asked about.
pub proof fn accepting_edits_frees_only_edits(
    policy: GatePolicy,
    tool: Seq<char>,
    arguments: Seq<char>,
    facts: Facts,
)
    requires
        policy.mode is AcceptEdits,
        tool == "Write"@ || tool == "Edit"@ || tool == "Bash"@ || has_prefix(tool, "mcp__"@),
        forall|i: int|
            0 <= i < policy.rules.len() ==> !pattern_covers((#[trigger] policy.rules[i]).0, tool),
        policy_refusal(tool, facts, policy.deny_git_push) is None,
        approval_key(tool, arguments, facts) matches Some(key) ==> !policy.approved.contains(key),
    ensures
        tool == "Write"@ || tool == "Edit"@ || (tool == "Bash"@ && policy.auto_allow_bash)
            ==> decision(policy, tool, arguments, facts) == PolicyDecision::Allow,
        !(tool == "Write"@ || tool == "Edit"@ || (tool == "Bash"@ && policy.auto_allow_bash))
            ==> decision(policy, tool, arguments, facts) == PolicyDecision::Ask,
{
    rules_are_tried_in_order(policy.rules, tool);
    lemma_gated_names_differ(tool);
}

/// Without a rule, the mode that never prompts denies every call that needs confirmation,
/// even one that was approved for the session; only Bash passes where it is approved in
/// general.
pub proof fn dont_ask_denies_gated_tools(
    policy: GatePolicy,
    tool: Seq<char>,
    arguments: Seq<char>,
    facts: Facts,
)
    requires
        policy.mode is DontAsk,
        tool == "Write"@ || tool == "Edit"@ || has_prefix(tool, "mcp__"@) || (tool == "Bash"@
            && !policy.auto_allow_bash),
        forall|i: int|
            0 <= i < policy.rules.len() ==> !pattern_covers((#[trigger] policy.rules[i]).0, tool),
    ensures
        decision(policy, tool, arguments, facts) == PolicyDecision::Deny,
{
    rules_are_tried_in_order(policy.rules, tool);
    lemma_gated_names_differ(tool);
}

/// Without a rule, a tool that is none of Write, Edit, Bash and the tools of MCP servers
/// runs in every mode, whatever its arguments.
pub proof fn other_tools_always_run(
    policy: GatePolicy,
    tool: Seq<char>,
    arguments: Seq<char>,
    facts: Facts,
)
    requires
        tool != "Write"@ && tool != "Edit"@ && tool != "Bash"@ && !has_prefix(tool, "mcp__"@),
        forall|i: int|
            0 <= i < policy.rules.len() ==> !pattern_covers((#[trigger] policy.rules[i]).0, tool),
    ensures
        decision(policy, tool, arguments, facts) == PolicyDecision::Allow,
{
    rules_are_tried_in_order(policy.rules, tool);
}

/// In the bypassing modes, without a rule, every call runs that nothing refuses.
pub proof fn bypassing_modes_never_ask(
    policy: GatePolicy,
    tool: Seq<char>,
    arguments: Seq<char>,
    facts: Facts,
)
    requires
        policy.mode is BypassPermissions || policy.mode is Yolo,
        forall|i: int|
            0 <= i < policy.rules.len() ==> !pattern_covers((#[trigger] policy.rules[i]).0, tool),
    ensures
        decision(policy, tool, arguments, facts) == (if policy_refusal(
            tool,
            facts,
            policy.deny_git_push,
        ) is Some {
            PolicyDecision::Deny
        } else {
            PolicyDecision::Allow
        }),
{
    rules_are_tried_in_order(policy.rules, tool);
}

/// The first rule that covers a call decides in every mode, unless the call is refused:
/// `Allow` allows it, `Deny` denies it, and `Ask` has it asked about, also where it would
/// have run unasked. Only the mode that never prompts then denies it, and a call that was
/// approved for the session is allowed.
pub proof fn first_rule_decides(
    policy: GatePolicy,
    k: int,
    tool: Seq<char>,
    arguments: Seq<char>,
    facts: Facts,
)
    requires
        0 <= k < policy.rules.len(),
        pattern_covers(policy.rules[k].0, tool),
        forall|i: int| 0 <= i < k ==> !pattern_covers((#[trigger] policy.rules[i]).0, tool),
        policy_refusal(tool, facts, policy.deny_git_push) is None,
    ensures
        policy.rules[k].1 is Allow ==> decision(policy, tool, arguments, facts)
            == PolicyDecision::Allow,
        policy.rules[k].1 is Deny ==> decision(policy, tool, arguments, facts)
            == PolicyDecision::Deny,
        policy.rules[k].1 is Ask ==> decision(policy, tool, arguments, facts) == (
        if policy.mode is DontAsk {
            PolicyDecision::Deny
        } else if approval_key(tool, arguments, facts) matches Some(key)
            && policy.approved.contains(key) {
            PolicyDecision::Allow
        } else {
            PolicyDecision::Ask
        }),
{
    rules_are_tried_in_order(policy.rules, tool);
}

proof fn lemma_gated_names_differ(tool: Seq<char>)
    ensures
        has_prefix(tool, "mcp__"@) ==> tool != "Write"@ && tool != "Edit"@ && tool != "Bash"@,
        "Write"@ != "Edit"@ && "Write"@ != "Bash"@ && "Edit"@ != "Bash"@,
{
    reveal_strlit("mcp__");
    reveal_strlit("Write");
    reveal_strlit("Edit");
    reveal_strlit("Bash");
    assert("Write"@[0] == 'W' && "Edit"@[0] == 'E' && "Bash"@[0] == 'B');
    if has_prefix(tool, "mcp__"@) {
        assert(tool.subrange(0, 5)[0] == 'm');
        assert(tool[0] == 'm');
    }
}

/// Only writes and commands are ever refused outright: a command only under push
/// protection, and then exactly if it is blocked; a write exactly if its path is
/// protected.
pub proof fn only_pushes_and_protected_writes_are_refused(
    tool: Seq<char>,
    facts: Facts,
    deny_git_push: bool,
)
    ensures
        tool == "Bash"@ ==> (policy_refusal(tool, facts, deny_git_push) is Some <==> deny_git_push
            && (facts.command matches Some(command) && blocked(command) is Some)),
        tool == "Write"@ || tool == "Edit"@ ==> (policy_refusal(tool, facts, deny_git_push) is Some
            <==> (facts.path matches Some(path) && protected_path(path))),
        tool != "Bash"@ && tool != "Write"@ && tool != "Edit"@ ==> policy_refusal(
            tool,
            facts,
            deny_git_push,
        ) is None,
{
    lemma_gated_names_differ(tool);
}

/// Only an approval for the session is remembered: allowing once and denying change
/// nothing, and an approval adds no key but the one of its call.
pub proof fn only_session_approvals_are_remembered(
    policy: GatePolicy,
    key: Option<Seq<char>>,
    choice: PromptChoice,
    other: Seq<char>,
)
    ensures
        !(choice is AllowSession) ==> after_choice(policy, key, choice) == policy,
        after_choice(policy, key, choice).approved.contains(other) <==> policy.approved.contains(
            other,
        ) || (choice is AllowSession && key == Some(other)),
        after_choice(policy, key, choice).mode == policy.mode,
        after_choice(policy, key, choice).rules == policy.rules,
        after_choice(policy, key, choice).auto_allow_bash == policy.auto_allow_bash,
        after_choice(policy, key, choice).deny_git_push == policy.deny_git_push,
{
}

/// Approvals can be remembered for edits by their path, for commands by their text and
/// for the tools of MCP servers by their arguments, and for no other call.
pub proof fn approvals_need_something_to_go_by(
    tool: Seq<char>,
    arguments: Seq<char>,
    facts: Facts,
)
    ensures
        approval_key(tool, arguments, facts) is Some <==> facts.valid && ((tool == "Write"@ || tool
            == "Edit"@) && facts.path is Some || tool == "Bash"@ && facts.command is Some
            || has_prefix(tool, "mcp__"@)),
        approval_key(tool, arguments, facts) matches Some(key) ==> has_prefix(key, tool) && (tool
            == "Write"@ || tool == "Edit"@ ==> has_suffix(key, facts.path->0)) && (tool == "Bash"@
            ==> has_suffix(key, facts.command->0)) && (has_prefix(tool, "mcp__"@) ==> has_suffix(
            key,
            arguments,
        )),
{
    lemma_gated_names_differ(tool);
    reveal_strlit("Bash");
    reveal_strlit("Bash:");
    if approval_key(tool, arguments, facts) is Some {
        let key = approval_key(tool, arguments, facts)->0;
        assert(key.subrange(0, tool.len() as int) == tool);
        if tool == "Write"@ || tool == "Edit"@ {
            let n = facts.path->0.len();
            assert(key.subrange(key.len() - n, key.len() as int) == facts.path->0);
        } else if tool == "Bash"@ {
            let n = facts.command->0.len();
            assert(key.subrange(key.len() - n, key.len() as int) == facts.command->0);
        } else {
            let n = arguments.len();
            assert(key.subrange(key.len() - n, key.len() as int) == arguments);
        }
    }
}

proof fn lemma_piece_stands(s: Seq<char>, c: char, start: int, k: int)
    requires
        0 <= start <= s.len(),
        start > 0 ==> s[start - 1] == c,
        0 <= k < pieces_from(s, c, start).len(),
    ensures
        ({
            let part = pieces_from(s, c, start)[k];
            exists|at: int|
                {
                    &&& #[trigger] occurs_at(s, part, at)
                    &&& at > 0 ==> s[at - 1] == c
                    &&& at + part.len() < s.len() ==> s[at + part.len()] == c
                }
        }),
    decreases s.len() + 1 - start,
{
    let at = position_from(s, start, c);
    lemma_position_first(s, start, c);
    let part = pieces_from(s, c, start)[k];
    if at >= s.len() {
        assert(part == s.skip(start));
        assert(occurs_at(s, part, start)) by {
            assert(s.subrange(start, start + part.len()) == part);
        }
    } else if k == 0 {
        assert(part == s.subrange(start, at));
        assert(occurs_at(s, part, start)) by {
            assert(s.subrange(start, start + part.len()) == part);
        }
        assert(s[at] == c);
    } else {
        assert(part == pieces_from(s, c, at + 1)[k - 1]);
        lemma_piece_stands(s, c, at + 1, k - 1);
    }
}

proof fn lemma_standing_is_a_piece(s: Seq<char>, c: char, start: int, part: Seq<char>, at: int)
    requires
        0 <= start <= at,
        occurs_at(s, part, at),
        !part.contains(c),
        at > start ==> s[at - 1] == c,
        at + part.len() < s.len() ==> s[at + part.len()] == c,
    ensures
        pieces_from(s, c, start).contains(part),
    decreases at - start,
{
    let next = position_from(s, start, c);
    lemma_position_first(s, start, c);
    if at > start {
        assert(next <= at - 1) by {
            if next > at - 1 {
                assert(s[at - 1] != c);
            }
        }
        lemma_standing_is_a_piece(s, c, next + 1, part, at);
        let rest = pieces_from(s, c, next + 1);
        let k = choose|k: int| 0 <= k < rest.len() && rest[k] == part;
        assert(pieces_from(s, c, start)[k + 1] == part);
    } else {
        let end = at + part.len();
        assert forall|j: int| at <= j < end implies s[j] != c by {
            assert(part[j - at] == s.subrange(at, end)[j - at]);
            assert(part.contains(part[j - at]));
        }
        assert(next == end) by {
            if next < end {
                assert(s[next] == c);
            } else if next > end {
                assert(s[end] != c);
            }
        }
        assert(s.subrange(start, next) == part);
        if next >= s.len() {
            assert(s.skip(start) == part);
        }
        assert(pieces_from(s, c, start)[0] == part);
    }
}

/// Whether `name` is one of the names that `/` parts in a path.
pub open spec fn names_a_directory_of(path: Seq<char>, name: Seq<char>) -> bool {
    exists|at: int|
        {
            &&& #[trigger] occurs_at(path, name, at)
            &&& at > 0 ==> path[at - 1] == '/'
            &&& at + name.len() < path.len() ==> path[at + name.len()] == '/'
        }
}

proof fn lemma_dot_slash_goes(path: Seq<char>, name: Seq<char>)
    requires
        name.len() > 1,
        !name.contains('/'),
    ensures
        names_a_directory_of(without_dot_slash(path), name) <==> names_a_directory_of(path, name),
    decreases path.len(),
{
    if path.len() >= 2 && path[0] == '.' && path[1] == '/' {
        let rest = path.skip(2);
        lemma_dot_slash_goes(rest, name);
        if names_a_directory_of(path, name) {
            let at = choose|at: int|
                {
                    &&& #[trigger] occurs_at(path, name, at)
                    &&& at > 0 ==> path[at - 1] == '/'
                    &&& at + name.len() < path.len() ==> path[at + name.len()] == '/'
                };
            if at < 2 {
                let i = 1 - at;
                assert(name[i] == path.subrange(at, at + name.len())[i]);
                assert(name[i] == '/');
                assert(name.contains('/'));
            }
            assert(occurs_at(rest, name, at - 2)) by {
                assert(rest.subrange(at - 2, at - 2 + name.len()) == path.subrange(
                    at,
                    at + name.len(),
                ));
            }
        }
        if names_a_directory_of(rest, name) {
            let at = choose|at: int|
                {
                    &&& #[trigger] occurs_at(rest, name, at)
                    &&& at > 0 ==> rest[at - 1] == '/'
                    &&& at + name.len() < rest.len() ==> rest[at + name.len()] == '/'
                };
            assert(occurs_at(path, name, at + 2)) by {
                assert(path.subrange(at + 2, at + 2 + name.len()) == rest.subrange(
                    at,
                    at + name.len(),
                ));
            }
        }
    }
}

/// A path is protected exactly if `node_modules` or `.git` is one of the names in it,
/// whether they are parted by `/` or by `\`. A name that only holds one of these does not
/// count.
pub proof fn protected_paths_lead_through_protected_names(path: Seq<char>, plain: Seq<char>)
    requires
        plain.len() == path.len(),
        forall|i: int|
            0 <= i < path.len() ==> #[trigger] plain[i] == (if path[i] == '\\' {
                '/'
            } else {
                path[i]
            }),
    ensures
        protected_path(path) <==> names_a_directory_of(plain, "node_modules"@)
            || names_a_directory_of(plain, ".git"@),
{
    assert(slashed(path) == plain);
    let short = without_dot_slash(plain);
    let parts = pieces(short, '/');
    reveal_strlit("node_modules");
    reveal_strlit(".git");
    let names = seq!["node_modules"@, ".git"@];
    assert forall|n: int| 0 <= n < 2 implies (parts.contains(#[trigger] names[n])
        <==> names_a_directory_of(plain, names[n])) by {
        let name = names[n];
        assert(!name.contains('/'));
        lemma_dot_slash_goes(plain, name);
        if parts.contains(name) {
            let k = choose|k: int| 0 <= k < parts.len() && parts[k] == name;
            lemma_piece_stands(short, '/', 0, k);
        }
        if names_a_directory_of(short, name) {
            let at = choose|at: int|
                {
                    &&& #[trigger] occurs_at(short, name, at)
                    &&& at > 0 ==> short[at - 1] == '/'
                    &&& at + name.len() < short.len() ==> short[at + name.len()] == '/'
                };
            lemma_standing_is_a_piece(short, '/', 0, name, at);
        }
    }
    assert(names[0] == "node_modules"@ && names[1] == ".git"@);
}

/// What a prompt shows of the arguments is a beginning of them: all of them where they are
/// short enough, else as many characters as are allowed, and three dots.
pub proof fn previews_show_a_beginning(input: Seq<char>, max: int)
    requires
        0 <= max,
    ensures
        input.len() <= max ==> preview_text(input, max) == input,
        input.len() > max ==> preview_text(input, max).len() == max + 3 && preview_text(
            input,
            max,
        ).take(max) == input.take(max) && preview_text(input, max).skip(max) == seq!['.', '.', '.'],
{
    reveal_strlit("...");
    if input.len() > max {
        assert(preview_text(input, max).take(max) == input.take(max));
        assert(preview_text(input, max).skip(max) == seq!['.', '.', '.']);
    }
}

/// Only a clear yes allows: `y` and `yes` once, `a`, `approve` and `always` for the
/// session. Every other answer denies.
pub proof fn only_a_clear_yes_allows(answer: Seq<char>)
    ensures
        choice_named(answer) is AllowOnce <==> answer == seq!['y'] || answer == seq!['y', 'e', 's'],
        choice_named(answer) is AllowSession <==> answer == seq!['a'] || answer == "approve"@ || answer
            == "always"@,
{
    reveal_strlit("y");
    reveal_strlit("yes");
    reveal_strlit("a");
    reveal_strlit("approve");
    reveal_strlit("always");
    assert("y"@ == seq!['y']);
    assert("yes"@ == seq!['y', 'e', 's']);
    assert("a"@ == seq!['a']);
    assert("approve"@[0] == 'a' && "always"@[0] == 'a' && "a"@[0] == 'a');
    assert("y"@[0] == 'y' && "yes"@[0] == 'y');
}

/// A mode that is not named falls back to asking: only the names of the bypassing mode
/// bypass, only those of the editing mode accept edits, and only those of the silent mode
/// silence.
pub proof fn unknown_modes_ask(name: Seq<char>)
    ensures
        !(mode_named(name) is Manual || mode_named(name) is Yolo),
        mode_named(name) is BypassPermissions <==> name == "yolo"@ || name == "bypass"@ || name
            == "bypasspermissions"@ || name == "bypass_permissions"@,
        mode_named(name) is AcceptEdits <==> name == "accept_edits"@ || name == "acceptedits"@ || name
            == "accept-edits"@,
        mode_named(name) is DontAsk <==> name == "dont_ask"@ || name == "dontask"@ || name
            == "dont-ask"@,
{
    reveal_strlit("accept_edits");
    reveal_strlit("dont_ask");
    reveal_strlit("bypass");
    reveal_strlit("yolo");
    reveal_strlit("bypasspermissions");
    reveal_strlit("bypass_permissions");
    reveal_strlit("acceptedits");
    reveal_strlit("accept-edits");
    reveal_strlit("dontask");
    reveal_strlit("dont-ask");
    assert("bypass"@[0] == 'b' && "bypasspermissions"@[0] == 'b' && "bypass_permissions"@[0] == 'b'
        && "yolo"@[0] == 'y');
    assert("accept_edits"@[0] == 'a' && "acceptedits"@[0] == 'a' && "accept-edits"@[0] == 'a');
    assert("dont_ask"@[0] == 'd' && "dontask"@[0] == 'd' && "dont-ask"@[0] == 'd');
}

/// A new gate decides by its mode alone: it has no rules and no approvals, does not free
/// Bash, and refuses pushes only in a cloud run.
pub proof fn new_gates_decide_by_mode_alone(mode: PermissionMode, cloud_run: bool, key: Seq<char>)
    ensures
        fresh_policy(mode, cloud_run).mode == mode,
        fresh_policy(mode, cloud_run).rules.len() == 0,
        !fresh_policy(mode, cloud_run).approved.contains(key),
        !fresh_policy(mode, cloud_run).auto_allow_bash,
        fresh_policy(mode, cloud_run).deny_git_push == cloud_run,
{
}

/// A gate without rules and approvals is asked about a call that nothing refuses: in the
/// default mode it asks about an edit, a command and a call of an MCP tool, and lets every
/// other tool run. Asked for a decision, it says the same for the same call.
pub proof fn plain_gates_ask_before_acting<P>(
    gate: &PermissionGate<P>,
    tool: &str,
    arguments: &str,
    r: PolicyDecision,
)
    requires
        call_ensures(PermissionGate::<P>::evaluate, (gate, tool, arguments), r),
        gate.policy().mode is Default || gate.policy().mode is Manual,
        gate.policy().rules.len() == 0,
        gate.policy().approved == Set::<Seq<char>>::empty(),
        !gate.policy().auto_allow_bash,
        policy_refusal(tool@, facts_of(arguments@), gate.policy().deny_git_push) is None,
    ensures
        r == (if tool@ == "Write"@ || tool@ == "Edit"@ || tool@ == "Bash"@ || has_prefix(
            tool@,
            "mcp__"@,
        ) {
            PolicyDecision::Ask
        } else {
            PolicyDecision::Allow
        }),
{
    if tool@ == "Write"@ || tool@ == "Edit"@ || tool@ == "Bash"@ || has_prefix(tool@, "mcp__"@) {
        default_mode_asks_about_gated_tools(
            gate.policy(),
            tool@,
            arguments@,
            facts_of(arguments@),
        );
    } else {
        other_tools_always_run(gate.policy(), tool@, arguments@, facts_of(arguments@));
    }
}

/// A choice allows unless it denies.
pub proof fn choices_allow_unless_they_deny<P>(
    gate: &mut PermissionGate<P>,
    tool: &str,
    arguments: &str,
    choice: PromptChoice,
    r: bool,
)
    requires
        call_ensures(PermissionGate::<P>::apply_choice, (gate, tool, arguments, choice), r),
    ensures
        r <==> choice is AllowOnce || choice is AllowSession,
        choice is AllowOnce || choice is Deny ==> final(gate).policy() == old(gate).policy(),
        final(gate).asks() == old(gate).asks(),
{
}

/// A gate that takes over the policy of another decides every call as the other one would
/// in its own mode.
pub proof fn inherited_policies_decide_alike<P, Q>(
    gate: &mut PermissionGate<P>,
    other: &PermissionGate<Q>,
    tool: Seq<char>,
    arguments: Seq<char>,
    facts: Facts,
)
    requires
        call_ensures(PermissionGate::<P>::inherit_policy_from::<Q>, (gate, other), ()),
        old(gate).policy().mode == other.policy().mode,
    ensures
        decision(final(gate).policy(), tool, arguments, facts) == decision(
            other.policy(),
            tool,
            arguments,
            facts,
        ),
{
}

/// A broker is asked exactly where the policy asks and there is a broker; without one the
/// gate itself is asked.
pub proof fn brokers_are_asked_where_the_policy_asks<T: ToolPermission>(
    permission: &T,
    has_broker: bool,
    request: &ApprovalRequest,
    r: PermissionStep,
)
    requires
        call_ensures(resolve_permission::<T>, (permission, has_broker, request), r),
    ensures
        ({
            let said = permission.decides(request.tool_name@, request.arguments@);
            &&& r == PermissionStep::AskBroker <==> said is Ask && has_broker
            &&& r == PermissionStep::AskGate <==> said is Ask && !has_broker
            &&& r == PermissionStep::Resolved(true) <==> said is Allow
            &&& r == PermissionStep::Resolved(false) <==> said is Deny
        }),
{
}

/// A call runs where the policy allows it, or where it asks and the user, who is then asked
/// once, does not deny. What the user is not asked about changes nothing; only an approval for
/// the session changes the policy, and a question that fails is told as such.
pub proof fn checked_calls_follow_policy_and_user<P: PermissionPrompter>(
    gate: &mut PermissionGate<P>,
    tool: &str,
    arguments: &str,
    r: Result<bool, PromptError>,
)
    requires
        call_ensures(approve_tool_call::<P>, (gate, tool, arguments), r),
    ensures
        ({
            let said = decision(old(gate).policy(), tool@, arguments@, facts_of(arguments@));
            let shown = preview_text(arguments@, 120);
            let before = old(gate).asks();
            let same = final(gate).policy() == old(gate).policy();
            &&& said is Allow ==> r == Ok::<bool, PromptError>(true)
            &&& said is Deny ==> r == Ok::<bool, PromptError>(false)
            &&& !(said is Ask) ==> same && final(gate).asks() == before
            &&& said is Ask ==> final(gate).asks().asked() == before.asked().push((tool@, shown))
            &&& r matches Err(error) ==> said is Ask && same && before.may_answer(
                tool@,
                shown,
                Err(error),
            )
            &&& said is Ask && r == Ok::<bool, PromptError>(false) ==> same && before.may_answer(
                tool@,
                shown,
                Ok(PromptChoice::Deny),
            )
            &&& said is Ask && r == Ok::<bool, PromptError>(true) ==> before.may_answer(
                tool@,
                shown,
                Ok(PromptChoice::AllowOnce),
            ) || before.may_answer(tool@, shown, Ok(PromptChoice::AllowSession))
            &&& !same ==> before.may_answer(tool@, shown, Ok(PromptChoice::AllowSession))
        }),
{
}

/// An answer of the broker allows unless it denies; one that fails changes nothing.
pub proof fn answers_of_brokers_count<T: ToolPermission>(
    permission: &mut T,
    request: &ApprovalRequest,
    answer: Result<PromptChoice, PromptError>,
    r: Result<bool, PromptError>,
)
    requires
        call_ensures(resolve_broker_answer::<T>, (permission, request, answer), r),
    ensures
        answer == Ok::<PromptChoice, PromptError>(PromptChoice::Deny) <==> r == Ok::<
            bool,
            PromptError,
        >(false),
        answer == Ok::<PromptChoice, PromptError>(PromptChoice::AllowOnce) || answer == Ok::<
            PromptChoice,
            PromptError,
        >(PromptChoice::AllowSession) <==> r == Ok::<bool, PromptError>(true),
        answer matches Err(error) ==> r == Err::<bool, PromptError>(error) && *final(permission)
            == *old(permission),
{
}

/// A choice leaves the prompter of a gate alone, and its policy too unless it approves for the
/// session.
pub proof fn choices_leave_the_prompter<P: PermissionPrompter>(
    gate: PermissionGate<P>,
    after: PermissionGate<P>,
    tool: Seq<char>,
    arguments: Seq<char>,
    choice: PromptChoice,
)
    requires
        gate.becomes(after, tool, arguments, choice),
    ensures
        after.asks() == gate.asks(),
        choice is Deny || choice is AllowOnce ==> after.policy() == gate.policy(),
{
}

/// Where nobody can be asked, every question fails as unanswerable.
pub proof fn nobody_answers_without_a_prompter(
    none: NoPrompter,
    tool: Seq<char>,
    preview: Seq<char>,
    answer: Result<PromptChoice, PromptError>,
)
    requires
        none.may_answer(tool, preview, answer),
    ensures
        answer matches Err(error) && error is Unavailable,
{
}

/// Recording a choice allows the call unless the choice denies it, whoever decides.
pub proof fn recorded_choices_allow_unless_they_deny<T: ToolPermission>(
    permission: &mut T,
    tool: &str,
    arguments: &str,
    choice: PromptChoice,
    r: bool,
)
    requires
        call_ensures(T::apply_choice, (permission, tool, arguments, choice), r),
    ensures
        r <==> !(choice is Deny),
        old(permission).becomes(*final(permission), tool@, arguments@, choice),
{
}

/// What is set on a gate is kept as it was set, and nothing else of it changes by that.
pub proof fn settings_of_gates_are_kept<P>(
    freed: &mut PermissionGate<P>,
    denying: &mut PermissionGate<P>,
    ruled: &mut PermissionGate<P>,
    asking: &mut PermissionGate<P>,
    flag: bool,
    rules: Vec<PermissionRule>,
    prompter: P,
)
    requires
        call_ensures(PermissionGate::<P>::set_auto_allow_bash, (freed, flag), ()),
        call_ensures(PermissionGate::<P>::set_deny_git_push, (denying, flag), ()),
        call_ensures(PermissionGate::<P>::set_rules, (ruled, rules), ()),
        call_ensures(PermissionGate::<P>::set_prompter, (asking, prompter), ()),
    ensures
        final(freed).policy() == (GatePolicy { auto_allow_bash: flag, ..old(freed).policy() }),
        final(freed).asks() == old(freed).asks(),
        final(denying).policy() == (GatePolicy { deny_git_push: flag, ..old(denying).policy() }),
        final(denying).asks() == old(denying).asks(),
        final(ruled).policy() == (GatePolicy { rules: rule_list(rules@), ..old(ruled).policy() }),
        final(ruled).asks() == old(ruled).asks(),
        final(asking).policy() == old(asking).policy(),
        final(asking).asks() == prompter,
{
}

/// A gate that was denied tells the policy's reason where there is one, and else that the user
/// denied the tool.
pub proof fn denials_tell_their_reason<P>(tool: &str, arguments: &str, cloud_run: bool, r: String)
    requires
        call_ensures(PermissionGate::<P>::permission_denied_message, (tool, arguments, cloud_run), r),
    ensures
        policy_refusal(tool@, facts_of(arguments@), cloud_run) matches Some(reason) ==> r@ == reason,
        policy_refusal(tool@, facts_of(arguments@), cloud_run) is None ==> r@ == "Tool `"@ + tool@
            + "` was denied by the user."@,
{
}

/// The user is asked about the tool and what it is to do, with the three answers that count.
pub proof fn questions_show_the_call(tool: &str, preview: &str, r: String)
    requires
        call_ensures(prompt_question, (tool, preview), r),
    ensures
        r@ == "\nAllow "@ + tool@ + "("@ + preview@
            + ")? [y]es / [n]o / [a]pprove for session: "@,
{
}

/// Two modes are other names: `Manual` of the mode that asks, and `Yolo` of the one that allows
/// everything. Every mode is written by one name, which stands for it again.
pub proof fn modes_are_written_by_one_name(mode: PermissionMode)
    ensures
        canonical(PermissionMode::Manual) is Default,
        canonical(PermissionMode::Yolo) is BypassPermissions,
        !(mode is Manual) && !(mode is Yolo) ==> canonical(mode) == mode,
        mode_named(mode_name(mode)) == canonical(mode),
        mode is Default || mode is Manual ==> mode_name(mode) == "default"@,
        mode is AcceptEdits ==> mode_name(mode) == "accept_edits"@,
        mode is DontAsk ==> mode_name(mode) == "dont_ask"@,
        mode is BypassPermissions || mode is Yolo ==> mode_name(mode) == "bypass"@,
{
    reveal_strlit("default");
    reveal_strlit("accept_edits");
    reveal_strlit("dont_ask");
    reveal_strlit("bypass");
    reveal_strlit("yolo");
    reveal_strlit("bypasspermissions");
    reveal_strlit("bypass_permissions");
    reveal_strlit("acceptedits");
    reveal_strlit("accept-edits");
    reveal_strlit("dontask");
    reveal_strlit("dont-ask");
    assert("default"@[2] == 'f' && "dont_ask"@[2] == 'n' && "accept_edits"@[6] == '_'
        && "accept-edits"@[6] == '-' && "dont_ask"@[4] == '_' && "dont-ask"@[4] == '-');
    assert("default"@[0] == 'd' && "accept_edits"@[0] == 'a' && "bypass"@[0] == 'b' && "yolo"@[0]
        == 'y' && "bypasspermissions"@[0] == 'b' && "bypass_permissions"@[0] == 'b'
        && "acceptedits"@[0] == 'a' && "accept-edits"@[0] == 'a' && "dontask"@[0] == 'd'
        && "dontask"@[2] == 'n' && "dont-ask"@[2] == 'n' && "dont_ask"@[0] == 'd' && "dont-ask"@[0]
        == 'd');
}

} // verus!
