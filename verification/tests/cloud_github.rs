use zene::cloud_github::{
    blocked_kind, deny_cloud_github_cli, deny_git_cli, deny_git_cli_with_message,
};

#[test]
fn blocks_git_push_and_wrappers() {
    assert_eq!(blocked_kind("git push origin HEAD"), Some("git push"));
    assert_eq!(blocked_kind("git -C /tmp push --force"), Some("git push"));
    assert_eq!(blocked_kind("sudo git push"), Some("git push"));
    assert_eq!(
        blocked_kind("ssh host git push origin main"),
        Some("git push")
    );
    assert_eq!(
        blocked_kind("ssh host 'cd /src && git push'"),
        Some("git push")
    );
    assert!(deny_cloud_github_cli("git push")
        .unwrap()
        .contains("push or publish is restricted"));
}

#[test]
fn blocks_gh() {
    assert_eq!(blocked_kind("gh pr create --fill"), Some("gh"));
    assert_eq!(blocked_kind("gh auth status"), Some("gh"));
    assert_eq!(blocked_kind("/usr/bin/gh repo view"), Some("gh"));
}

#[test]
fn allows_local_git() {
    assert_eq!(blocked_kind("git status"), None);
    assert_eq!(blocked_kind("git diff --stat"), None);
    assert_eq!(blocked_kind("git add -A && git commit -m 'wip'"), None);
    assert_eq!(blocked_kind("git log --grep=push"), None);
    assert_eq!(blocked_kind("echo git push"), None);
}

#[test]
fn joined_commands_are_blocked_when_one_of_them_is() {
    for sep in [";", "\n", "&&", "||", "&", "|"] {
        for (a, b, blocked) in [
            ("ls -l", "git push", true),
            ("git push", "ls -l", true),
            ("echo 'a;b'", " gh pr list", true),
            ("ls", "git status", false),
            ("echo git", "push", false),
        ] {
            assert_eq!(blocked_kind(&format!("{a}{sep}{b}")).is_some(), blocked);
            assert_eq!(
                blocked_kind(a).is_some() || blocked_kind(b).is_some(),
                blocked
            );
        }
    }
}

#[test]
fn every_segment_of_a_command_counts() {
    assert_eq!(blocked_kind("make; git push"), Some("git push"));
    assert_eq!(blocked_kind("make | tee log && gh pr list"), Some("gh"));
    assert_eq!(blocked_kind("make\ngit push"), Some("git push"));
    assert_eq!(blocked_kind("make & git push"), Some("git push"));
    assert_eq!(blocked_kind("gh pr list &"), Some("gh"));
    assert_eq!(blocked_kind("make > log 2>&1"), None);
    assert_eq!(blocked_kind(""), None);
    assert_eq!(blocked_kind("   "), None);
}

#[test]
fn denials_name_what_was_blocked() {
    assert_eq!(deny_git_cli("git status"), None);
    assert!(deny_git_cli("git push").unwrap().contains("git push"));
    assert!(deny_git_cli("gh pr create").unwrap().contains("`gh`"));
    assert_eq!(
        deny_git_cli_with_message("git push", "ask first").as_deref(),
        Some("Policy denied `git push`: ask first")
    );
    assert_eq!(deny_git_cli_with_message("ls", "ask first"), None);
}

#[test]
fn wrappers_and_assignments_hide_nothing() {
    assert_eq!(blocked_kind("env A=b sudo git push"), Some("git push"));
    assert_eq!(blocked_kind("nice nohup /opt/bin/gh pr list"), Some("gh"));
    assert_eq!(blocked_kind("command hub sync"), Some("hub"));
    assert_eq!(
        blocked_kind("git --git-dir=/x -c a=b --work-tree /y send-pack"),
        Some("git push")
    );
    assert_eq!(blocked_kind("git request-pull v1 url"), Some("git push"));
    assert_eq!(blocked_kind("sudo -u me ls"), None);
    assert_eq!(blocked_kind("sudo ssh host gh pr list"), Some("gh"));
    assert_eq!(blocked_kind("A=b nice ssh -p 22 host hub sync"), Some("hub"));
    assert_eq!(blocked_kind("sudo ssh host git push"), Some("git push"));
    assert_eq!(blocked_kind("sudo ssh gh ls"), None);
}

#[test]
fn quotes_hide_nothing() {
    assert_eq!(blocked_kind("bash -c \"git push\""), Some("git push"));
    assert_eq!(blocked_kind("bash -c 'ls; gh pr list'"), Some("gh"));
    assert_eq!(
        blocked_kind("ssh -p 22 -i key host -- git push"),
        Some("git push")
    );
    assert_eq!(blocked_kind("ssh host -- gh pr list"), Some("gh"));
    assert_eq!(blocked_kind("ssh host -- git status"), None);
    assert_eq!(blocked_kind("ssh -p 22 -- git push"), Some("git push"));
    assert_eq!(blocked_kind("ssh -p 22 host git push"), Some("git push"));
    assert_eq!(blocked_kind("echo 'a;b' & git status"), None);
}
