use zene::builtin_tools::{
    agent_tools, builtin_tools, core_tools, default_builtin_tools, minimal_tools,
    tools_for_profile, AgentProfile, BuiltinTool, SubagentProfile,
};
use zene::json::Json;
use zene::publish::{
    format_publish_result, CloudPublishConfig, PublishArgs, PublishGithubTool, PublishStep,
};
use zene::read_tool::{
    binary_file_error, format_file_content, list_directory, truncate_head, ReadTool,
    MAX_READ_BYTES, MAX_READ_LINES,
};
use zene::skills::{
    format_available_skills, parse_frontmatter, skill_meta_from_entries, skill_meta_from_file,
    split_frontmatter, SkillMeta,
};

fn names(tools: &[BuiltinTool]) -> Vec<&'static str> {
    tools.iter().map(|tool| tool.name()).collect()
}

fn object(members: Vec<(&str, Json)>) -> Json {
    Json::Object(
        members
            .into_iter()
            .map(|(key, value)| (key.to_string(), value))
            .collect(),
    )
}

fn string(value: &str) -> Json {
    Json::Str(value.to_string())
}

#[test]
fn truncate_respects_byte_limit() {
    let lines: Vec<&str> = vec!["a"; 100];
    let (text, truncated) = truncate_head(&lines, 2000, 10);
    assert!(truncated);
    assert!(text.len() <= 10);
}

#[test]
fn truncate_respects_line_limit() {
    let lines: Vec<String> = (0..100).map(|i| format!("line{i}")).collect();
    let refs: Vec<&str> = lines.iter().map(|s| s.as_str()).collect();
    let (_, truncated) = truncate_head(&refs, 5, 50 * 1024);
    assert!(truncated);
}

#[test]
fn truncated_heads_are_exact() {
    let (text, truncated) = truncate_head(&["ä", "b", "c"], 10, 4);
    assert_eq!(text, "ä\nb");
    assert!(truncated);
    let (text, truncated) = truncate_head(&["a", "b"], 2, 3);
    assert_eq!(text, "a\nb");
    assert!(!truncated);
    let (text, truncated) = truncate_head(&[], 0, 0);
    assert_eq!(text, "");
    assert!(!truncated);
}

#[test]
fn files_are_shown_with_line_numbers() {
    assert_eq!(
        format_file_content("a\r\nb\nc\n", None, None).unwrap(),
        "L1:a\nL2:b\nL3:c"
    );
    assert_eq!(
        format_file_content("a\nb\nc\n", Some(2), Some(1)).unwrap(),
        "L2:b"
    );
    assert_eq!(
        format_file_content("a\nb\n", Some(2), Some(9)).unwrap(),
        "L2:b"
    );
    assert_eq!(format_file_content("a\nb\n", Some(0), Some(1)).unwrap(), "L1:a");
    assert_eq!(format_file_content("a\n", None, Some(0)).unwrap(), "");
    assert_eq!(format_file_content("", Some(7), None).unwrap(), "");
    assert_eq!(format_file_content("", Some(7), Some(usize::MAX)).unwrap(), "");
    assert_eq!(
        format_file_content("a\nb\n", Some(2), Some(usize::MAX)).unwrap(),
        "L2:b"
    );
}

#[test]
fn as_many_lines_are_shown_as_fit() {
    assert_eq!(truncate_head(&["ab", "cd", "ef"], 9, 5), ("ab\ncd".to_string(), true));
    assert_eq!(truncate_head(&["ab", "cd", "ef"], 9, 4), ("ab".to_string(), true));
    assert_eq!(truncate_head(&["ab", "cd", "ef"], 2, 99), ("ab\ncd".to_string(), true));
    assert_eq!(truncate_head(&["ab", "cd", "ef"], 3, 8), ("ab\ncd\nef".to_string(), false));
}

#[test]
fn offsets_beyond_the_file_are_errors() {
    assert_eq!(
        format_file_content("a\nb\n", Some(3), None).unwrap_err(),
        "offset 3 is beyond end of file (2 lines total)"
    );
    assert_eq!(
        format_file_content("a\nb\n", Some(3), Some(usize::MAX)).unwrap_err(),
        "offset 3 is beyond end of file (2 lines total)"
    );
}

#[test]
fn long_files_say_how_to_go_on() {
    let content = "x\n".repeat(2001);
    let shown = format_file_content(&content, None, None).unwrap();
    assert!(shown.starts_with("L1:x\nL2:x\n"));
    assert!(shown.ends_with(
        "L2000:x\n\n[Showing lines 1-2000 of 2001. Use offset=2001 to continue.]"
    ));
    let rest = format_file_content(&content, Some(2001), None).unwrap();
    assert_eq!(rest, "L2001:x");
    assert_eq!((MAX_READ_LINES, MAX_READ_BYTES), (2000, 50 * 1024));
}

#[test]
fn reading_on_skips_no_line() {
    let content: String = (1..=4500).map(|i| format!("line {i}\n")).collect();
    let mut seen = 0;
    let mut offset = 1;
    loop {
        let shown = format_file_content(&content, Some(offset), None).unwrap();
        for line in shown.lines().filter(|line| line.starts_with('L')) {
            seen += 1;
            assert_eq!(line, format!("L{seen}:line {seen}"));
        }
        match shown.split("Use offset=").nth(1) {
            Some(rest) => offset = rest.split(' ').next().unwrap().parse().unwrap(),
            None => break,
        }
    }
    assert_eq!(seen, 4500);
    let blank_end = format!("{}\n{}", "x\n".repeat(1999), "y\n".repeat(9));
    assert!(format_file_content(&blank_end, None, None)
        .unwrap()
        .ends_with("[Showing lines 1-1999 of 2009. Use offset=2000 to continue.]"));
}

#[test]
fn directories_are_listed_in_order() {
    assert_eq!(list_directory(vec![]), "(empty directory)");
    assert_eq!(
        list_directory(vec!["b".into(), "a".into(), "B".into(), "ab".into()]),
        "B\na\nab\nb"
    );
    assert_eq!(
        binary_file_error("x.png"),
        "cannot read binary file: x.png. Read supports text files only."
    );
}

#[test]
fn read_tool_is_described() {
    let definition = ReadTool.definition();
    assert_eq!(ReadTool.name(), "Read");
    assert_eq!(definition.name, "Read");
    let properties = definition.parameters.get("properties").unwrap();
    assert_eq!(
        properties.get("offset").unwrap().get_str("type").unwrap(),
        "integer"
    );
    assert!(matches!(
        definition.parameters.get("required"),
        Some(Json::Array(items)) if items.len() == 1 && items[0].as_str() == Some("path")
    ));
}

#[test]
fn explore_profile_omits_write_tools() {
    let tools = agent_tools(AgentProfile::Explore, false);
    let names = names(&tools);
    assert!(names.iter().any(|n| *n == "Read"));
    assert!(names.iter().any(|n| *n == "RepoMap"));
    assert!(!names.iter().any(|n| *n == "Write"));
    assert!(!names.iter().any(|n| *n == "Edit"));
    assert!(!names.iter().any(|n| *n == "Bash"));
    assert!(!names.iter().any(|n| *n == "Task"));
}

#[test]
fn coder_profile_includes_write_and_task() {
    let tools = agent_tools(AgentProfile::Coder, false);
    let names = names(&tools);
    assert!(names.iter().any(|n| *n == "RepoMap"));
    assert!(names.iter().any(|n| *n == "Write"));
    assert!(names.iter().any(|n| *n == "Edit"));
    assert!(names.iter().any(|n| *n == "Task"));
}

#[test]
fn publish_github_is_absent_outside_cloud() {
    let environment = CloudPublishConfig::from_env(
        Some("run".to_string()),
        None,
        None,
    );
    let tools = default_builtin_tools(PublishGithubTool::available(&environment));
    assert!(!names(&tools).iter().any(|n| *n == "PublishGithub"));
}

#[test]
fn publish_github_comes_with_the_cloud() {
    assert!(names(&builtin_tools(true)).contains(&"PublishGithub"));
    assert!(!names(&builtin_tools(false)).contains(&"PublishGithub"));
    assert!(!names(&agent_tools(AgentProfile::Explore, true)).contains(&"PublishGithub"));
}

#[test]
fn small_toolsets() {
    assert_eq!(
        names(&core_tools()),
        ["Read", "Write", "Edit", "Bash", "Grep", "Glob"]
    );
    assert_eq!(names(&minimal_tools()), ["Read", "Grep", "Glob"]);
    assert_eq!(
        names(&tools_for_profile(SubagentProfile::Explore)),
        ["Read", "Grep", "Glob", "RepoMap"]
    );
    assert!(!names(&tools_for_profile(SubagentProfile::Coder)).contains(&"Task"));
}

#[test]
fn formats_push_and_pr() {
    let push = object(vec![("headSha", string("abc1234def"))]);
    let pr = object(vec![
        ("title", string("Fix login")),
        ("url", string("https://github.com/acme/app/pull/9")),
        ("providerNumber", Json::Uint(9)),
    ]);
    let text = format_publish_result(&push, Some(&pr));
    assert!(text.contains("abc1234def"));
    assert!(text.contains("#9"));
    assert!(text.contains("https://github.com/acme/app/pull/9"));
}

fn config() -> CloudPublishConfig {
    CloudPublishConfig::from_env(
        Some("run-1".into()),
        Some("https://cloud.example//".into()),
        Some("token".into()),
    )
    .unwrap()
}

#[test]
fn publish_configuration_comes_whole_or_not_at_all() {
    let found = config();
    assert_eq!(found.api_url, "https://cloud.example");
    assert_eq!(found.run_id, "run-1");
    assert!(CloudPublishConfig::from_env(Some("r".into()), Some("u".into()), None).is_none());
    assert!(
        CloudPublishConfig::from_env(Some("r".into()), Some(" ".into()), Some("t".into()))
            .is_none()
    );
}

#[test]
fn publishing_pushes_then_opens_a_pull_request() {
    let tool = PublishGithubTool::with_config(config());
    assert!(tool.is_configured());
    assert_eq!(tool.name(), "PublishGithub");
    assert_eq!(tool.definition().name, "PublishGithub");
    match tool.execute(None) {
        PublishStep::Push { request, config: used } => {
            assert_eq!(used.run_id, "run-1");
            assert_eq!(
                request.url,
                "https://cloud.example/internal/v1/runs/run-1/git/push"
            );
            assert_eq!(request.token, "token");
            assert_eq!(request.body.get("force").unwrap().as_bool(), Some(false));
        }
        _ => panic!("the push comes first"),
    }
    let args = PublishArgs {
        title: Some("T".into()),
        body: None,
        draft: None,
    };
    match PublishGithubTool::after_push(&config(), &args, true, "200", "") {
        PublishStep::OpenPullRequest(request) => {
            assert_eq!(
                request.url,
                "https://cloud.example/internal/v1/runs/run-1/git/pull-request"
            );
            assert_eq!(request.body.get_str("title").unwrap(), "T");
            assert!(matches!(request.body.get("body"), Some(Json::Null)));
            assert_eq!(request.body.get("draft").unwrap().as_bool(), Some(true));
        }
        _ => panic!("the pull request follows"),
    }
    let push = object(vec![("headSha", string("abc"))]);
    let failed = PublishGithubTool::after_pull_request(&push, false, "502", "down", &Json::Null);
    assert!(failed.is_error);
    assert!(failed.content.contains("Cloud PR failed (502): down"));
}

#[test]
fn publishing_without_configuration_is_an_error() {
    let tool = PublishGithubTool::new(None);
    assert!(!tool.is_configured());
    match tool.execute(None) {
        PublishStep::Done(result) => assert!(result.is_error),
        _ => panic!("nothing can be pushed"),
    }
    let args = PublishArgs {
        title: None,
        body: None,
        draft: Some(false),
    };
    match PublishGithubTool::after_push(&config(), &args, false, "500", "boom") {
        PublishStep::Done(result) => {
            assert!(result.is_error);
            assert!(result.content.contains("500"));
            assert!(result.content.contains("boom"));
        }
        _ => panic!("the push failed"),
    }
}

#[test]
fn format_available_skills_lists_entries() {
    let formatted = format_available_skills(&vec![SkillMeta {
        name: "demo".to_string(),
        description: "Demo skill".to_string(),
        path: ".agents/skills/demo/SKILL.md".to_string(),
    }])
    .unwrap();
    assert!(formatted.contains("Available skills:"));
    assert!(formatted.contains("- demo: Demo skill"));
}

#[test]
fn no_skills_no_listing() {
    assert!(format_available_skills(&vec![]).is_none());
}

#[test]
fn parses_skill_frontmatter() {
    let meta = skill_meta_from_file(
        ".agents/skills/demo/SKILL.md",
        "---\nname: demo\ndescription: A demo skill\n---\n\n# Demo\n",
    )
    .unwrap();
    assert_eq!(meta.name, "demo");
    assert_eq!(meta.description, "A demo skill");
}

#[test]
fn skill_names_fall_back_to_the_directory() {
    let meta = skill_meta_from_file(
        ".agents/skills/other/SKILL.md",
        "---\nname:  \n# comment\nDescription : A: b\n---\nbody",
    )
    .unwrap();
    assert_eq!(meta.name, "other");
    assert_eq!(meta.description, "A: b");
    assert_eq!(meta.path, ".agents/skills/other/SKILL.md");
    let rootless = skill_meta_from_file("SKILL.md", "---\nx: y\n---").unwrap();
    assert_eq!(rootless.name, "unknown");
    let at_root = skill_meta_from_file("/SKILL.md", "---\nx: y\n---").unwrap();
    assert_eq!(at_root.name, "unknown");
    let below_root = skill_meta_from_file("/demo/SKILL.md", "---\nx: y\n---").unwrap();
    assert_eq!(below_root.name, "demo");
    let below_directory = skill_meta_from_file("demo/SKILL.md", "---\nx: y\n---").unwrap();
    assert_eq!(below_directory.name, "demo");
    assert_eq!(rootless.description, "");
    assert!(skill_meta_from_file("a/SKILL.md", "# no frontmatter").is_none());
    assert!(skill_meta_from_file("a/SKILL.md", "---\nname: x\n").is_none());
}

#[test]
fn frontmatter_is_split_and_read() {
    assert_eq!(
        split_frontmatter("---\na: b\n---\nbody"),
        Some(("a: b".to_string(), "body".to_string()))
    );
    assert_eq!(
        split_frontmatter("---a\n---b"),
        Some(("a".to_string(), "b".to_string()))
    );
    let entries = parse_frontmatter("---\nName: x\nname: y\nno colon\n---").unwrap();
    let meta = skill_meta_from_entries("p", Some("dir".into()), &entries);
    assert_eq!(meta.name, "y");
}
