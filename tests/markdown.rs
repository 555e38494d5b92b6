use issue_tracker::api_requests::{
    api_url, bearer_authorization, own_issues_path, repository_issues_path,
    user_repositories_path,
};
use issue_tracker::markdown::parse_markdown_headers;

#[test]
fn plain_lines_are_kept() {
    assert_eq!(parse_markdown_headers("hello\nworld"), "hello\nworld\n");
    assert_eq!(parse_markdown_headers(" # not a heading"), " # not a heading\n");
}

#[test]
fn empty_text_gives_empty_result() {
    assert_eq!(parse_markdown_headers(""), "");
    assert_eq!(parse_markdown_headers("\n"), "\n");
    assert_eq!(parse_markdown_headers("a\n\nb\n"), "a\n\nb\n");
}

#[test]
fn carriage_returns_before_newlines_are_dropped() {
    assert_eq!(parse_markdown_headers("a\r\nb\r\n"), "a\nb\n");
    assert_eq!(parse_markdown_headers("a\r"), "a\r\n");
}

#[test]
fn headings_are_coloured_by_level() {
    assert_eq!(parse_markdown_headers("# Title"), "\x1b[1;32m██ Title\x1b[0m\n");
    assert_eq!(parse_markdown_headers("## Sub "), "\x1b[1;36m▓▓▓ Sub\x1b[0m\n");
    assert_eq!(parse_markdown_headers("###Three"), "\x1b[1;33m▒▒▒▒ Three\x1b[0m\n");
    assert_eq!(parse_markdown_headers("#### Four"), "\x1b[1;35m░░░░░ Four\x1b[0m\n");
    assert_eq!(parse_markdown_headers("##### Five"), "Five\n");
    assert_eq!(parse_markdown_headers("###### Six"), "Six\n");
    assert_eq!(parse_markdown_headers("####### Seven"), "# Seven\n");
}

#[test]
fn heading_level_counts_hashes_in_first_six_characters() {
    assert_eq!(parse_markdown_headers("#a#b"), "\x1b[1;36m▓▓▓ #b\x1b[0m\n");
    assert_eq!(parse_markdown_headers("#"), "\x1b[1;32m██ \x1b[0m\n");
}

#[test]
fn headings_and_text_mix() {
    assert_eq!(
        parse_markdown_headers("# A\nbody\n## B\n"),
        "\x1b[1;32m██ A\x1b[0m\nbody\n\x1b[1;36m▓▓▓ B\x1b[0m\n"
    );
}

#[test]
fn request_paths() {
    assert_eq!(api_url("issues"), "https://api.github.com/issues");
    assert_eq!(repository_issues_path("octocat/Hello-World"), "repos/octocat/Hello-World/issues");
    assert_eq!(user_repositories_path("octocat"), "users/octocat/repos");
    assert_eq!(own_issues_path(), "issues");
    assert_eq!(bearer_authorization("SECRET-REDACTED"), "Bearer SECRET-REDACTED");
}
