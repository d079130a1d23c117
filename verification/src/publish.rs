//! Publishing a cloud session: push its branch, then open a pull request.
use vstd::prelude::*;

use crate::json::{
    jstr, jstr_or_null, lookup, member, member_values, members, put, string_of, Json, JsonValue,
};
use crate::llm::{property_schema, schema_property, ToolDefinition};
use crate::text::{
    chars_of, has_part, has_prefix, has_suffix, occurs_at, opt_text, signed_decimal, signed_text, text_between, trim, trimmed,
};

verus! {

/// Where and as whom a cloud session publishes.
#[derive(Debug, Clone)]
pub struct CloudPublishConfig {
    pub api_url: String,
    pub token: String,
    pub run_id: String,
}

/// `s` without the slashes at its end.
pub open spec fn without_slashes(s: Seq<char>) -> Seq<char>
    decreases s.len(),
{
    if s.len() > 0 && s.last() == '/' {
        without_slashes(s.drop_last())
    } else {
        s
    }
}

fn trim_slashes(s: &str) -> (r: String)
    ensures
        r@ == without_slashes(s@),
{
    let chars = chars_of(s);
    let mut end: usize = chars.len();
    proof {
        assert(chars@.take(chars@.len() as int) == chars@);
    }
    while end > 0 && chars[end - 1] == '/'
        invariant
            end <= chars.len(),
            chars@ == s@,
            without_slashes(s@) == without_slashes(s@.take(end as int)),
        decreases end,
    {
        proof {
            assert(s@.take(end as int).drop_last() == s@.take(end - 1));
        }
        end -= 1;
    }
    proof {
        assert(chars@.subrange(0, end as int) == s@.take(end as int));
    }
    text_between(&chars, 0, end)
}

/// Whether a setting is there and not blank.
pub open spec fn is_set(value: Option<Seq<char>>) -> bool {
    value is Some && trimmed(value->0).len() > 0
}

fn set(value: Option<String>) -> (r: Option<String>)
    ensures
        r == (if is_set(opt_text(value)) {
            value
        } else {
            None
        }),
{
    match value {
        Some(text) => if trim(text.as_str()).as_str().is_empty() {
            None
        } else {
            Some(text)
        },
        None => None,
    }
}

impl CloudPublishConfig {
    /// The configuration that the environment gives: the run, the address of the
    /// service and the worker's token, none of which may be blank.
    pub fn from_env(run_id: Option<String>, api_url: Option<String>, token: Option<String>) -> (r:
        Option<Self>)
        ensures
            r is Some <==> is_set(opt_text(run_id)) && is_set(opt_text(api_url)) && is_set(
                opt_text(token),
            ),
            r matches Some(config) ==> config.run_id@ == run_id->0@ && config.token@ == token->0@
                && config.api_url@ == without_slashes(api_url->0@),
    {
        let run_id = set(run_id)?;
        let api_url = set(api_url)?;
        let token = set(token)?;
        Some(CloudPublishConfig { api_url: trim_slashes(api_url.as_str()), token, run_id })
    }

    /// The same configuration again.
    pub fn copy(&self) -> (r: Self)
        ensures
            r.api_url@ == self.api_url@,
            r.token@ == self.token@,
            r.run_id@ == self.run_id@,
    {
        CloudPublishConfig {
            api_url: self.api_url.clone(),
            token: self.token.clone(),
            run_id: self.run_id.clone(),
        }
    }
}

/// The tool that publishes a cloud session.
#[derive(Debug)]
pub struct PublishGithubTool {
    config: Option<CloudPublishConfig>,
}

/// The parameters of the tool, each with its schema.
pub open spec fn publish_properties() -> Seq<(Seq<char>, JsonValue)> {
    seq![
        ("title"@, property_schema("string"@, "Draft PR title. Defaults to the session title."@)),
        ("body"@, property_schema("string"@, "Optional PR body."@)),
        ("draft"@, property_schema("boolean"@, "Open as draft (default true)."@)),
    ]
}

/// The schema of the arguments of the tool.
pub open spec fn publish_parameters() -> JsonValue {
    JsonValue::Object(
        seq![
            ("type"@, jstr("object"@)),
            ("properties"@, JsonValue::Object(publish_properties())),
        ],
    )
}

impl PublishGithubTool {
    /// What the tool was configured with.
    pub closed spec fn configured(&self) -> Option<CloudPublishConfig> {
        self.config
    }

    /// The name under which the model calls the tool.
    pub fn name(&self) -> (r: &'static str)
        ensures
            r@ == "PublishGithub"@,
    {
        "PublishGithub"
    }

    /// The tool as the model sees it.
    pub fn definition(&self) -> (r: ToolDefinition)
        ensures
            r.name@ == "PublishGithub"@,
            r.description@
                == "Publish this Cloud session through the bound GitHub App: commit dirty workspace files if needed, push the session branch, and open a draft PR. Use this instead of git push, gh, or SSH-to-another-host publish."@,
            r.parameters@ == publish_parameters(),
    {
        let mut properties = members();
        put(
            &mut properties,
            "title",
            schema_property("string", "Draft PR title. Defaults to the session title."),
        );
        put(&mut properties, "body", schema_property("string", "Optional PR body."));
        put(&mut properties, "draft", schema_property("boolean", "Open as draft (default true)."));
        proof {
            assert(member_values(properties@) == publish_properties());
        }
        let mut parameters = members();
        put(&mut parameters, "type", Json::text("object"));
        put(&mut parameters, "properties", Json::object(properties));
        proof {
            assert(member_values(parameters@) == publish_parameters()->Object_0);
        }
        ToolDefinition {
            name: "PublishGithub".to_string(),
            description: "Publish this Cloud session through the bound GitHub App: commit dirty workspace files if needed, push the session branch, and open a draft PR. Use this instead of git push, gh, or SSH-to-another-host publish.".to_string(),
            parameters: Json::object(parameters),
        }
    }

    /// A tool with the configuration that the environment gives, if it gives one.
    pub fn new(environment: Option<CloudPublishConfig>) -> (r: Self)
        ensures
            r.configured() == environment,
    {
        PublishGithubTool { config: environment }
    }

    /// A tool with the given configuration.
    pub fn with_config(config: CloudPublishConfig) -> (r: Self)
        ensures
            r.configured() == Some(config),
    {
        PublishGithubTool { config: Some(config) }
    }

    /// Whether the environment allows publishing.
    pub fn available(environment: &Option<CloudPublishConfig>) -> (r: bool)
        ensures
            r == environment is Some,
    {
        environment.is_some()
    }

    /// Whether the tool has a configuration of its own.
    pub fn is_configured(&self) -> (r: bool)
        ensures
            r == self.configured() is Some,
    {
        self.config.is_some()
    }

    /// Starts a publication: the push that is to be sent, or the answer where
    /// nothing is configured. `environment` is what the environment gives now.
    pub fn execute(&self, environment: Option<CloudPublishConfig>) -> (r: PublishStep)
        ensures
            match (match self.configured() {
                Some(config) => Some(config),
                None => environment,
            }) {
                Some(config) => {
                    &&& r matches PublishStep::Push { request, config: used }
                    &&& request.url@ == config.api_url@ + "/internal/v1/runs/"@ + config.run_id@
                        + "/git/push"@
                    &&& request.token@ == config.token@
                    &&& request.body@ == JsonValue::Object(seq![("force"@, JsonValue::Bool(false))])
                    &&& used.api_url@ == config.api_url@
                    &&& used.token@ == config.token@
                    &&& used.run_id@ == config.run_id@
                },
                None => r matches PublishStep::Done(result) && result.is_error
                    && result.content@
                    == "PublishGithub is only available in a Zene Cloud session or when configured."@,
            },
    {
        let config = match &self.config {
            Some(config) => config.copy(),
            None => match environment {
                Some(config) => config,
                None => {
                    return PublishStep::Done(
                        ToolResult {
                            content:
                                "PublishGithub is only available in a Zene Cloud session or when configured.".to_string(),
                            is_error: true,
                        },
                    );
                },
            },
        };
        let mut body = members();
        put(&mut body, "force", Json::Bool(false));
        proof {
            assert(member_values(body@) == seq![("force"@, JsonValue::Bool(false))]);
        }
        let request = PublishRequest {
            url: run_url(&config, "/git/push"),
            token: config.token.clone(),
            body: Json::object(body),
        };
        PublishStep::Push { request, config }
    }

    /// Goes on after the push was answered. `status` is the text of its status.
    pub fn after_push(
        config: &CloudPublishConfig,
        args: &PublishArgs,
        success: bool,
        status: &str,
        text: &str,
    ) -> (r: PublishStep)
        ensures
            success ==> (r matches PublishStep::OpenPullRequest(request) && request.url@
                == config.api_url@ + "/internal/v1/runs/"@ + config.run_id@ + "/git/pull-request"@
                && request.token@ == config.token@ && request.body@ == pull_request_body(*args)),
            !success ==> (r matches PublishStep::Done(result) && result.is_error && result.content@
                == "Cloud push failed ("@ + status@ + "): "@ + text@),
    {
        if !success {
            let mut content = "Cloud push failed (".to_string();
            content.append(status);
            content.append("): ");
            content.append(text);
            return PublishStep::Done(ToolResult { content, is_error: true });
        }
        let mut body = members();
        put(&mut body, "title", Json::text_or_null(&args.title));
        put(&mut body, "body", Json::text_or_null(&args.body));
        let draft = match args.draft {
            Some(draft) => draft,
            None => true,
        };
        put(&mut body, "draft", Json::Bool(draft));
        proof {
            assert(member_values(body@) == pull_request_body(*args)->Object_0);
        }
        PublishStep::OpenPullRequest(
            PublishRequest {
                url: run_url(config, "/git/pull-request"),
                token: config.token.clone(),
                body: Json::object(body),
            },
        )
    }

    /// The answer of the tool once the pull request was answered. `push` and
    /// `reply` are the two answers read as JSON, or empty objects.
    pub fn after_pull_request(
        push: &Json,
        success: bool,
        status: &str,
        text: &str,
        reply: &Json,
    ) -> (r: ToolResult)
        ensures
            r.is_error == !success,
            r.content@ == (if success {
                published(push@, Some(reply@))
            } else {
                published(push@, None) + "\nCloud PR failed ("@ + status@ + "): "@ + text@
            }),
    {
        if success {
            ToolResult { content: format_publish_result(push, Some(reply)), is_error: false }
        } else {
            let mut content = format_publish_result(push, None);
            content.append("\nCloud PR failed (");
            content.append(status);
            content.append("): ");
            content.append(text);
            ToolResult { content, is_error: true }
        }
    }
}

fn run_url(config: &CloudPublishConfig, tail: &str) -> (r: String)
    ensures
        r@ == config.api_url@ + "/internal/v1/runs/"@ + config.run_id@ + tail@,
{
    let mut url = config.api_url.clone();
    url.append("/internal/v1/runs/");
    url.append(config.run_id.as_str());
    url.append(tail);
    url
}

/// What the model asks to be published.
#[derive(Debug, Clone)]
pub struct PublishArgs {
    pub title: Option<String>,
    pub body: Option<String>,
    pub draft: Option<bool>,
}

/// The body of the request that opens a pull request; it is a draft unless that is
/// refused.
pub open spec fn pull_request_body(args: PublishArgs) -> JsonValue {
    JsonValue::Object(
        seq![
            ("title"@, jstr_or_null(opt_text(args.title))),
            ("body"@, jstr_or_null(opt_text(args.body))),
            (
                "draft"@,
                JsonValue::Bool(
                    match args.draft {
                        Some(draft) => draft,
                        None => true,
                    },
                ),
            ),
        ],
    )
}

/// A request to the publishing service.
#[derive(Debug)]
pub struct PublishRequest {
    pub url: String,
    pub token: String,
    pub body: Json,
}

/// The answer of a tool.
#[derive(Debug)]
pub struct ToolResult {
    pub content: String,
    pub is_error: bool,
}

/// What a publication does next.
#[derive(Debug)]
pub enum PublishStep {
    /// Push; the pull request is then opened with the same configuration.
    Push { request: PublishRequest, config: CloudPublishConfig },
    OpenPullRequest(PublishRequest),
    Done(ToolResult),
}

/// The integer under a key, where it is in the range of an `i64`.
pub open spec fn integer_of(value: Option<JsonValue>) -> Option<i64> {
    match value {
        Some(JsonValue::Uint(n)) => if n <= i64::MAX {
            Some(n as i64)
        } else {
            None
        },
        Some(JsonValue::Int(n)) => Some(n),
        _ => None,
    }
}

fn integer_at(value: &Json, key: &str) -> (r: Option<i64>)
    ensures
        r == integer_of(member(value@, key@)),
{
    match value.get(key) {
        Some(Json::Uint(n)) => if *n <= i64::MAX as u64 {
            Some(*n as i64)
        } else {
            None
        },
        Some(Json::Int(n)) => Some(*n),
        _ => None,
    }
}

/// A text, or another in its place.
pub open spec fn text_or(value: Option<Seq<char>>, other: Seq<char>) -> Seq<char> {
    match value {
        Some(text) => text,
        None => other,
    }
}

/// What the model is told about a push, and about the pull request if there is one.
pub open spec fn published(push: JsonValue, pr: Option<JsonValue>) -> Seq<char> {
    let sha = text_or(string_of(member(push, "headSha"@)), "unknown"@);
    let pushed = "Pushed session branch via Cloud git-broker (head "@ + sha + ")."@;
    match pr {
        None => pushed,
        Some(pr) => {
            let title = text_or(string_of(member(pr, "title"@)), "PR"@);
            match string_of(member(pr, "url"@)) {
                Some(url) => match integer_of(member(pr, "providerNumber"@)) {
                    Some(n) => pushed + " Draft PR #"@ + signed_decimal(n as int) + ": "@ + url
                        + " ("@ + title + ")"@,
                    None => pushed + " Draft PR: "@ + url + " ("@ + title + ")"@,
                },
                None => pushed + " PR recorded: "@ + title,
            }
        },
    }
}

/// What the model is told about a push, and about the pull request if there is one.
pub fn format_publish_result(push: &Json, pr: Option<&Json>) -> (r: String)
    ensures
        r@ == published(
            push@,
            match pr {
                Some(found) => Some(found@),
                None => None,
            },
        ),
{
    let sha = match push.get_str("headSha") {
        Some(sha) => sha,
        None => "unknown".to_string(),
    };
    let mut out = "Pushed session branch via Cloud git-broker (head ".to_string();
    out.append(sha.as_str());
    out.append(").");
    if let Some(pr) = pr {
        let title = match pr.get_str("title") {
            Some(title) => title,
            None => "PR".to_string(),
        };
        match pr.get_str("url") {
            Some(url) => {
                match integer_at(pr, "providerNumber") {
                    Some(n) => {
                        out.append(" Draft PR #");
                        out.append(signed_text(n).as_str());
                        out.append(": ");
                    },
                    None => {
                        out.append(" Draft PR: ");
                    },
                }
                out.append(url.as_str());
                out.append(" (");
                out.append(title.as_str());
                out.append(")");
            },
            None => {
                out.append(" PR recorded: ");
                out.append(title.as_str());
            },
        }
    }
    out
}

/// Publishing needs a run, an address and a token, none of them blank; the address is used
/// without the slashes at its end.
pub proof fn publishing_needs_all_three_settings(
    run_id: Option<String>,
    api_url: Option<String>,
    token: Option<String>,
    r: Option<CloudPublishConfig>,
)
    requires
        call_ensures(CloudPublishConfig::from_env, (run_id, api_url, token), r),
    ensures
        r is Some <==> (run_id matches Some(a) && trimmed(a@).len() > 0) && (api_url matches Some(b)
            && trimmed(b@).len() > 0) && (token matches Some(c) && trimmed(c@).len() > 0),
        r matches Some(config) ==> config.run_id@ == run_id->0@ && config.token@ == token->0@,
        r matches Some(config) ==> has_prefix(api_url->0@, config.api_url@) && (
        config.api_url@.len() > 0 ==> config.api_url@.last() != '/') && forall|i: int|
            config.api_url@.len() <= i < api_url->0@.len() ==> api_url->0@[i] == '/',
{
    if let Some(config) = r {
        lemma_without_slashes(api_url->0@);
    }
}

proof fn lemma_without_slashes(s: Seq<char>)
    ensures
        has_prefix(s, without_slashes(s)),
        without_slashes(s).len() > 0 ==> without_slashes(s).last() != '/',
        forall|i: int| without_slashes(s).len() <= i < s.len() ==> s[i] == '/',
    decreases s.len(),
{
    let short = without_slashes(s);
    if s.len() > 0 && s.last() == '/' {
        lemma_without_slashes(s.drop_last());
        assert(s.subrange(0, short.len() as int) == s.drop_last().subrange(0, short.len() as int));
        assert forall|i: int| short.len() <= i < s.len() implies s[i] == '/' by {
            if i < s.len() - 1 {
                assert(s.drop_last()[i] == s[i]);
            }
        }
    } else {
        assert(s.subrange(0, s.len() as int) == s);
    }
}

/// A publication pushes the branch of its run first, never by force, with the tool's own
/// configuration before that of the environment; without either it fails and sends nothing.
pub proof fn publications_push_first(
    tool: &PublishGithubTool,
    environment: Option<CloudPublishConfig>,
    r: PublishStep,
)
    requires
        call_ensures(PublishGithubTool::execute, (tool, environment), r),
    ensures
        r is Done <==> tool.configured() is None && environment is None,
        r matches PublishStep::Done(result) ==> result.is_error,
        r matches PublishStep::Push { request, config } ==> ({
            let used = if tool.configured() is Some {
                tool.configured()->0
            } else {
                environment->0
            };
            &&& has_prefix(request.url@, used.api_url@)
            &&& has_suffix(request.url@, used.run_id@ + "/git/push"@)
            &&& request.token@ == used.token@
            &&& request.body@ == JsonValue::Object(seq![("force"@, JsonValue::Bool(false))])
            &&& config.api_url@ == used.api_url@ && config.token@ == used.token@ && config.run_id@
                == used.run_id@
        }),
        !(r is OpenPullRequest),
{
    if let PublishStep::Push { request, config } = r {
        let used = if tool.configured() is Some {
            tool.configured()->0
        } else {
            environment->0
        };
        let url = request.url@;
        let ending = used.run_id@ + "/git/push"@;
        assert(url.subrange(0, used.api_url@.len() as int) == used.api_url@);
        assert(url.subrange(url.len() - ending.len(), url.len() as int) == ending);
    }
}

/// A pull request is opened exactly where the push succeeded, as a draft unless that is
/// refused; a failed push is told with its status and answer.
pub proof fn pull_requests_need_a_push(
    config: &CloudPublishConfig,
    args: &PublishArgs,
    success: bool,
    status: &str,
    text: &str,
    r: PublishStep,
)
    requires
        call_ensures(PublishGithubTool::after_push, (config, args, success, status, text), r),
    ensures
        r is OpenPullRequest <==> success,
        r is Done <==> !success,
        r matches PublishStep::Done(result) ==> result.is_error && has_suffix(result.content@, text@),
        r matches PublishStep::OpenPullRequest(request) ==> request.token@ == config.token@
            && has_suffix(request.url@, config.run_id@ + "/git/pull-request"@) && ({
            let body = request.body@;
            &&& member(body, "draft"@) == Some(
                JsonValue::Bool(args.draft is None || args.draft == Some(true)),
            )
            &&& args.title matches Some(title) ==> member(body, "title"@) == Some(jstr(title@))
            &&& args.body matches Some(told) ==> member(body, "body"@) == Some(jstr(told@))
        }),
{
    reveal_strlit("title");
    reveal_strlit("body");
    reveal_strlit("draft");
    assert("title"@[0] == 't' && "body"@[0] == 'b' && "draft"@[0] == 'd');
    if let PublishStep::OpenPullRequest(request) = r {
        let url = request.url@;
        let ending = config.run_id@ + "/git/pull-request"@;
        assert(url.subrange(url.len() - ending.len(), url.len() as int) == ending);
        let all = pull_request_body(*args)->Object_0;
        assert(all[0].0 == "title"@ && all[1].0 == "body"@ && all[2].0 == "draft"@);
        assert(all.drop_first()[0] == all[1]);
        assert(all.drop_first().drop_first()[0] == all[2]);
        assert(lookup(all, "title"@) == Some(all[0].1));
        assert(lookup(all, "body"@) == lookup(all.drop_first(), "body"@));
        assert(lookup(all, "draft"@) == lookup(all.drop_first().drop_first(), "draft"@)) by {
            assert(lookup(all, "draft"@) == lookup(all.drop_first(), "draft"@));
        }
    }
    if let PublishStep::Done(result) = r {
        let told = result.content@;
        assert(told.subrange(told.len() - text@.len(), told.len() as int) == text@);
    }
}

/// What the model is told of a publication begins with the pushed commit; with a pull request
/// it names its address where there is one, and a failed one is an error that still tells of
/// the push.
pub proof fn publications_tell_what_was_done(
    push: &Json,
    success: bool,
    status: &str,
    text: &str,
    reply: &Json,
    r: ToolResult,
)
    requires
        call_ensures(PublishGithubTool::after_pull_request, (push, success, status, text, reply), r),
    ensures
        r.is_error <==> !success,
        string_of(member(push@, "headSha"@)) matches Some(sha) ==> has_prefix(
            r.content@,
            "Pushed session branch via Cloud git-broker (head "@ + sha,
        ),
        !success ==> has_suffix(r.content@, text@),
        success ==> (string_of(member(reply@, "url"@)) matches Some(url) ==> has_part(r.content@, url)),
{
    if let Some(sha) = string_of(member(push@, "headSha"@)) {
        let start = "Pushed session branch via Cloud git-broker (head "@ + sha;
        assert(r.content@.subrange(0, start.len() as int) == start);
    }
    if !success {
        assert(r.content@.subrange(r.content@.len() - text@.len(), r.content@.len() as int) == text@);
    }
    if success {
        if let Some(url) = string_of(member(reply@, "url"@)) {
            let sha = text_or(string_of(member(push@, "headSha"@)), "unknown"@);
            let pushed = "Pushed session branch via Cloud git-broker (head "@ + sha + ")."@;
            let before = match integer_of(member(reply@, "providerNumber"@)) {
                Some(n) => pushed + " Draft PR #"@ + signed_decimal(n as int) + ": "@,
                None => pushed + " Draft PR: "@,
            };
            let title = text_or(string_of(member(reply@, "title"@)), "PR"@);
            let behind = " ("@ + title + ")"@;
            assert(r.content@ == before + url + behind);
            let at = before.len() as int;
            assert(r.content@.subrange(at, at + url.len()) == url);
            assert(occurs_at(r.content@, url, at));
        }
    }
}

/// The tool shows its parameters: a title, a body, and whether the pull request is a draft.
pub proof fn publish_parameters_are_shown(tool: &PublishGithubTool, r: ToolDefinition)
    requires
        call_ensures(PublishGithubTool::definition, (tool,), r),
    ensures
        r.name@ == "PublishGithub"@,
        ({
            let all = r.parameters@->Object_0;
            let shown = all[1].1->Object_0;
            &&& r.parameters@ is Object && all.len() == 2
            &&& all[0] == ("type"@, JsonValue::Str("object"@))
            &&& all[1].0 == "properties"@
            &&& shown.len() == 3
            &&& shown[0] == (
                "title"@,
                property_schema("string"@, "Draft PR title. Defaults to the session title."@),
            )
            &&& shown[1] == ("body"@, property_schema("string"@, "Optional PR body."@))
            &&& shown[2] == (
                "draft"@,
                property_schema("boolean"@, "Open as draft (default true)."@),
            )
        }),
{
}

/// A push and a pull request go to the run that is configured, each to its own address.
pub proof fn requests_go_to_their_run(
    config: &CloudPublishConfig,
    args: &PublishArgs,
    status: &str,
    text: &str,
    opened: PublishStep,
    failed: PublishStep,
)
    requires
        call_ensures(PublishGithubTool::after_push, (config, args, true, status, text), opened),
        call_ensures(PublishGithubTool::after_push, (config, args, false, status, text), failed),
    ensures
        opened is OpenPullRequest && opened->OpenPullRequest_0.url@ == config.api_url@
            + "/internal/v1/runs/"@ + config.run_id@ + "/git/pull-request"@
            && opened->OpenPullRequest_0.token@ == config.token@,
        failed is Done && failed->Done_0.is_error && failed->Done_0.content@
            == "Cloud push failed ("@ + status@ + "): "@ + text@,
{
}

/// A tool is configured by what it was made with, and goes by one name.
pub proof fn tools_keep_their_configuration(
    config: CloudPublishConfig,
    environment: Option<CloudPublishConfig>,
    made: PublishGithubTool,
    given: PublishGithubTool,
    name: &str,
    set: bool,
    available: bool,
)
    requires
        call_ensures(PublishGithubTool::with_config, (config,), given),
        call_ensures(PublishGithubTool::new, (environment,), made),
        call_ensures(PublishGithubTool::name, (&made,), name),
        call_ensures(PublishGithubTool::is_configured, (&made,), set),
        call_ensures(PublishGithubTool::available, (&environment,), available),
    ensures
        given.configured() == Some(config),
        made.configured() == environment,
        name@ == "PublishGithub"@,
        set == (environment is Some),
        available == (environment is Some),
{
}

/// A pull request that was opened is told by its number, where one was given, its address and
/// its title.
pub proof fn opened_pull_requests_are_told(
    push: &Json,
    status: &str,
    text: &str,
    reply: &Json,
    sha: Seq<char>,
    url: Seq<char>,
    title: Seq<char>,
    r: ToolResult,
)
    requires
        call_ensures(PublishGithubTool::after_pull_request, (push, true, status, text, reply), r),
        member(push@, "headSha"@) == Some(JsonValue::Str(sha)),
        member(reply@, "url"@) == Some(JsonValue::Str(url)),
        member(reply@, "title"@) == Some(JsonValue::Str(title)),
    ensures
        ({
            let pushed = "Pushed session branch via Cloud git-broker (head "@ + sha + ")."@;
            &&& member(reply@, "providerNumber"@) matches Some(JsonValue::Int(n)) ==> r.content@
                == pushed + " Draft PR #"@ + signed_decimal(n as int) + ": "@ + url + " ("@ + title
                + ")"@
            &&& member(reply@, "providerNumber"@) matches Some(JsonValue::Uint(n)) ==> (n
                <= 9223372036854775807 ==> r.content@ == pushed + " Draft PR #"@ + signed_decimal(
                n as int,
            ) + ": "@ + url + " ("@ + title + ")"@)
            &&& member(reply@, "providerNumber"@) is None ==> r.content@ == pushed + " Draft PR: "@
                + url + " ("@ + title + ")"@
        }),
{
}

/// A pull request without an address is told by its title alone, and what was not answered is
/// named as unknown.
pub proof fn recorded_pull_requests_are_told(
    push: &Json,
    status: &str,
    text: &str,
    reply: &Json,
    r: ToolResult,
)
    requires
        call_ensures(PublishGithubTool::after_pull_request, (push, true, status, text, reply), r),
        member(push@, "headSha"@) is None,
        member(reply@, "url"@) is None,
    ensures
        member(reply@, "title"@) is None ==> r.content@
            == "Pushed session branch via Cloud git-broker (head "@ + "unknown"@ + ")."@
            + " PR recorded: "@ + "PR"@,
        member(reply@, "title"@) matches Some(JsonValue::Str(title)) ==> r.content@
            == "Pushed session branch via Cloud git-broker (head "@ + "unknown"@ + ")."@
            + " PR recorded: "@ + title,
{
}

} // verus!
