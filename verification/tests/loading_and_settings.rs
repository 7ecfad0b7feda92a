use whid::commits::{CommitData, CommitLocation, RepoCommits, Repository};
use whid::config::{entered_key, key_prompt_step, missing_keys, KeyChoice, PromptStep, Settings};
use whid::git::{
    commits_from, details_arguments, discovery_step, git_user_from, log_arguments, parse_log,
    reload_commits, Discovery,
};
use whid::intervals::{
    default_intervals, initial_interval, parse_unsigned, same_text, timeframe_hours, Interval,
};
use whid::marks::SelectedCommits;
use whid::models::{CommitTab, Key, RepoScope};
use whid::utils::{
    calculate_max_detail_scroll, calculate_max_scroll, calculate_visible_height,
    get_active_commits, get_commitlist_height, get_commitlist_visible_and_total,
    get_sidebar_height, max_scroll_of,
};

fn repo_at(path: &str, name: &str, commits: &[&str]) -> RepoCommits {
    RepoCommits {
        repo: Repository { path: path.to_string(), name: name.to_string() },
        commits: commits.iter().map(|c| c.to_string()).collect(),
    }
}

fn strings(items: &[&str]) -> Vec<String> {
    items.iter().map(|s| s.to_string()).collect()
}

#[test]
fn a_plain_log_is_read_line_by_line() {
    assert_eq!(parse_log("a1 2 hours ago one\nb2 3 hours ago two", false), strings(&["a1 2 hours ago one", "b2 3 hours ago two"]));
    assert_eq!(parse_log("a1 one\r\nb2 two\n", false), strings(&["a1 one", "b2 two"]));
    assert_eq!(parse_log("", false), Vec::<String>::new());
    assert_eq!(parse_log("a\n\nb", false), strings(&["a", "", "b"]));
}

#[test]
fn a_detailed_log_is_read_block_by_block() {
    let out = "a1 '2024-05-01 10:00'\nSubject\n\nBody line\n (me)\n---GITBLOCK---\nb2 '2024-05-01 09:00'\nOther\n (you)\n---GITBLOCK---\n";
    assert_eq!(
        parse_log(out, true),
        strings(&["a1 '2024-05-01 10:00'\nSubject\n\nBody line\n (me)", "b2 '2024-05-01 09:00'\nOther\n (you)"])
    );
    assert_eq!(parse_log("", true), Vec::<String>::new());
    assert_eq!(parse_log(" \r\n---GITBLOCK--- \n ---GITBLOCK---", true), Vec::<String>::new());
    assert_eq!(parse_log("  x y \n", true), strings(&["x y"]));
    assert_eq!(parse_log("a---GITBLOCK------GITBLOCK---b", true), strings(&["a", "b"]));
}

#[test]
fn a_failed_log_call_gives_no_commits() {
    assert_eq!(commits_from(true, "a1 one\nb2 two\n", false), Some(strings(&["a1 one", "b2 two"])));
    assert_eq!(commits_from(true, "", false), Some(vec![]));
    assert_eq!(commits_from(true, " x \n---GITBLOCK---\n", true), Some(strings(&["x"])));
    assert_eq!(commits_from(false, "a1 one\nb2 two\n", false), None);
    assert_eq!(commits_from(false, "", true), None);
}

#[test]
fn log_arguments_follow_the_view_flags() {
    let user = "me@example.org".to_string();
    assert_eq!(
        log_arguments("/r", "2024-05-01 10:00:00", None, false, true, Some(&user)),
        strings(&["-C", "/r", "log", "--since", "2024-05-01 10:00:00", "--pretty=format:%h %ar %s", "--author", "me@example.org"])
    );
    assert_eq!(
        log_arguments("/r", "s", None, false, true, None),
        strings(&["-C", "/r", "log", "--since", "s", "--pretty=format:%h %ar %s"])
    );
    let until = "2024-06-01".to_string();
    assert_eq!(
        log_arguments("/r", "s", Some(&until), false, false, Some(&user)),
        strings(&["-C", "/r", "log", "--since", "s", "--until", "2024-06-01", "--pretty=format:%h %an %ar %s"])
    );
    for filter in [true, false] {
        assert_eq!(
            log_arguments("/r", "s", None, true, filter, Some(&user)),
            strings(&["-C", "/r", "log", "--since", "s", "--date=format:'%Y-%m-%d %H:%M'", "--format=%h %ad%n%B (%an)%n---GITBLOCK---"])
        );
    }
    assert_eq!(
        details_arguments("/r", "abc"),
        strings(&["-C", "/r", "show", "--pretty=fuller", "--name-status", "abc"])
    );
}

#[test]
fn discovery_takes_repositories_and_searches_other_directories() {
    assert_eq!(discovery_step(false, false), Discovery::Skip);
    assert_eq!(discovery_step(false, true), Discovery::Skip);
    assert_eq!(discovery_step(true, true), Discovery::Collect);
    assert_eq!(discovery_step(true, false), Discovery::Descend);
}

#[test]
fn the_git_user_is_what_was_printed() {
    assert_eq!(git_user_from(true, " me@example.org\n"), Some("me@example.org".to_string()));
    assert_eq!(git_user_from(true, ""), Some("".to_string()));
    assert_eq!(git_user_from(false, "me@example.org\n"), None);
}

#[test]
fn reloading_leaves_out_repositories_without_commits() {
    let loaded = vec![
        repo_at("/a", "a", &[]),
        repo_at("/b", "b", &["b1"]),
        repo_at("/c", "c", &[]),
        repo_at("/d", "d", &["d1", "d2"]),
    ];
    let data = reload_commits(loaded).unwrap();
    assert_eq!(data.repo_count(), 2);
    assert_eq!(data.repos()[0].repo.name, "b");
    assert_eq!(data.repos()[1].repo.name, "d");
    assert_eq!(data.total(), 3);
    assert_eq!(reload_commits(vec![]).unwrap().repo_count(), 0);
}

#[test]
fn commit_data_answers_by_place() {
    let data = CommitData::new(vec![repo_at("/a", "a", &["a1 x"]), repo_at("/b", "b", &[])]).unwrap();
    assert_eq!(data.repo_len(0), 1);
    assert_eq!(data.repo_len(1), 0);
    assert_eq!(data.repo_len(2), 0);
    assert_eq!(data.line(CommitLocation { repo: 0, index: 0 }).unwrap().as_str(), "a1 x");
    assert!(data.line(CommitLocation { repo: 0, index: 1 }).is_none());
    assert!(data.line(CommitLocation { repo: 1, index: 0 }).is_none());
    assert!(data.line(CommitLocation { repo: 2, index: 0 }).is_none());
    assert_eq!(CommitData::empty().total(), 0);
}

#[test]
fn active_commits_are_looked_up_by_path() {
    let data = CommitData::new(vec![
        repo_at("/same", "first", &["f1"]),
        repo_at("/other", "other", &["o1", "o2"]),
        repo_at("/same", "second", &["s1", "s2", "s3"]),
    ])
    .unwrap();
    assert!(get_active_commits(&data, RepoScope::All).is_none());
    assert_eq!(get_active_commits(&data, RepoScope::Repo(0)).unwrap(), &strings(&["f1"]));
    assert_eq!(get_active_commits(&data, RepoScope::Repo(1)).unwrap(), &strings(&["o1", "o2"]));
    assert_eq!(get_active_commits(&data, RepoScope::Repo(2)).unwrap(), &strings(&["f1"]));
    assert!(get_active_commits(&data, RepoScope::Repo(3)).is_none());
    assert_eq!(get_commitlist_visible_and_total(&data, RepoScope::All), (0, 6));
    assert_eq!(get_commitlist_visible_and_total(&data, RepoScope::Repo(2)), (0, 3));
    assert_eq!(get_commitlist_visible_and_total(&data, RepoScope::Repo(3)), (0, 0));
}

#[test]
fn window_heights() {
    assert_eq!(get_sidebar_height(40), 38);
    assert_eq!(get_sidebar_height(2), 0);
    assert_eq!(get_sidebar_height(0), 0);
    assert_eq!(get_commitlist_height(40), 22);
    assert_eq!(get_commitlist_height(18), 0);
    assert_eq!(get_commitlist_height(5), 0);
    assert_eq!(calculate_visible_height(40, true), 22);
    assert_eq!(calculate_visible_height(40, false), 37);
    assert_eq!(calculate_visible_height(2, false), 0);
}

#[test]
fn max_scroll_of_a_text() {
    let text = |n: usize| (0..n).map(|i| format!("l{}\n", i)).collect::<String>();
    assert_eq!(calculate_max_scroll(text(20), 15), 7);
    assert_eq!(calculate_max_scroll(text(13), 15), 0);
    assert_eq!(calculate_max_scroll(text(14), 15), 1);
    assert_eq!(calculate_max_scroll(String::new(), 15), 0);
    assert_eq!(calculate_max_scroll(text(5), 0), 5);
    assert_eq!(calculate_max_scroll(text(5), 2), 5);
    assert_eq!(calculate_max_scroll(text(5), 3), 4);
    assert_eq!(max_scroll_of(70000, 15), 65535 - 13);
    assert_eq!(max_scroll_of(65535, 2), 65535);
}

#[test]
fn max_detail_scroll_needs_a_commit_with_a_hash_and_its_details() {
    let data = CommitData::new(vec![
        repo_at("/a", "a", &["a1 x", "   "]),
        repo_at("/b", "b", &["b1 y"]),
    ])
    .unwrap();
    let mut marks = SelectedCommits::new();
    let details: String = (0..30).map(|i| format!("d{}\n", i)).collect();
    let all = RepoScope::All;
    let tf = CommitTab::Timeframe;
    assert_eq!(calculate_max_detail_scroll(&data, &marks, all, tf, 0, Some(&details)), 17);
    assert_eq!(calculate_max_detail_scroll(&data, &marks, all, tf, 2, Some(&details)), 17);
    assert_eq!(calculate_max_detail_scroll(&data, &marks, all, tf, 1, Some(&details)), 0);
    assert_eq!(calculate_max_detail_scroll(&data, &marks, all, tf, 3, Some(&details)), 0);
    assert_eq!(calculate_max_detail_scroll(&data, &marks, all, tf, 0, None), 0);
    assert_eq!(calculate_max_detail_scroll(&data, &marks, RepoScope::Repo(1), tf, 0, Some(&details)), 17);
    assert_eq!(calculate_max_detail_scroll(&data, &marks, RepoScope::Repo(1), tf, 1, Some(&details)), 0);
    assert_eq!(calculate_max_detail_scroll(&data, &marks, RepoScope::Repo(9), tf, 0, Some(&details)), 0);
    assert_eq!(calculate_max_detail_scroll(&data, &marks, all, CommitTab::Selection, 0, Some(&details)), 0);
    marks.toggle("b1".to_string());
    assert_eq!(calculate_max_detail_scroll(&data, &marks, all, CommitTab::Selection, 0, Some(&details)), 17);
    assert_eq!(calculate_max_detail_scroll(&data, &marks, all, CommitTab::Stats, 0, Some(&details)), 0);
}

#[test]
fn the_configured_key_counts_unless_it_is_empty() {
    let mut settings = Settings {
        gemini_model: "m".to_string(),
        gemini_api_key: Some("configured".to_string()),
        prompt_for_api_key: true,
        custom_prompt_path: None,
        lang: None,
    };
    assert_eq!(settings.api_key(Some("env".to_string())), Some("configured".to_string()));
    assert_eq!(settings.api_key(None), Some("configured".to_string()));
    settings.gemini_api_key = Some(String::new());
    assert_eq!(settings.api_key(Some("env".to_string())), Some("env".to_string()));
    assert_eq!(settings.api_key(None), None);
    settings.gemini_api_key = None;
    assert_eq!(settings.api_key(Some("env".to_string())), Some("env".to_string()));
    assert_eq!(settings.api_key(None), None);
    assert!(settings.asks_for_key(&None));
    assert!(!settings.asks_for_key(&Some("k".to_string())));
    settings.prompt_for_api_key = false;
    assert!(!settings.asks_for_key(&None));
}

#[test]
fn missing_keys_are_those_of_the_blueprint_that_the_user_lacks() {
    let blueprint = strings(&["gemini_model", "gemini_api_key", "prompt_for_api_key", "lang"]);
    let user = strings(&["lang", "extra", "gemini_model"]);
    assert_eq!(missing_keys(&blueprint, &user), strings(&["gemini_api_key", "prompt_for_api_key"]));
    assert_eq!(missing_keys(&blueprint, &vec![]), blueprint);
    assert_eq!(missing_keys(&blueprint, &blueprint), Vec::<String>::new());
    assert_eq!(missing_keys(&vec![], &user), Vec::<String>::new());
}

#[test]
fn the_question_for_a_key_moves_round_and_ends() {
    assert_eq!(key_prompt_step(KeyChoice::Yes, Key::Right), PromptStep::Stay(KeyChoice::Skip));
    assert_eq!(key_prompt_step(KeyChoice::Skip, Key::Right), PromptStep::Stay(KeyChoice::Never));
    assert_eq!(key_prompt_step(KeyChoice::Never, Key::Right), PromptStep::Stay(KeyChoice::Yes));
    assert_eq!(key_prompt_step(KeyChoice::Yes, Key::Left), PromptStep::Stay(KeyChoice::Never));
    assert_eq!(key_prompt_step(KeyChoice::Never, Key::Left), PromptStep::Stay(KeyChoice::Skip));
    assert_eq!(key_prompt_step(KeyChoice::Skip, Key::Left), PromptStep::Stay(KeyChoice::Yes));
    assert_eq!(key_prompt_step(KeyChoice::Skip, Key::Enter), PromptStep::Chosen(KeyChoice::Skip));
    assert_eq!(key_prompt_step(KeyChoice::Yes, Key::Esc), PromptStep::Cancelled);
    assert_eq!(key_prompt_step(KeyChoice::Yes, Key::Char('q')), PromptStep::Cancelled);
    assert_eq!(key_prompt_step(KeyChoice::Never, Key::Char('x')), PromptStep::Stay(KeyChoice::Never));
    assert_eq!(key_prompt_step(KeyChoice::Never, Key::Up), PromptStep::Stay(KeyChoice::Never));
}

#[test]
fn an_entered_key_is_trimmed() {
    assert_eq!(entered_key("  abc \n"), Some("abc".to_string()));
    assert_eq!(entered_key("\n"), None);
    assert_eq!(entered_key(""), None);
    assert_eq!(entered_key("a b"), Some("a b".to_string()));
}

#[test]
fn timeframe_keywords() {
    assert_eq!(timeframe_hours("today"), 24);
    assert_eq!(timeframe_hours("24"), 24);
    assert_eq!(timeframe_hours("yesterday"), 48);
    assert_eq!(timeframe_hours("48"), 48);
    assert_eq!(timeframe_hours("72"), 72);
    assert_eq!(timeframe_hours("week"), 168);
    assert_eq!(timeframe_hours("month"), 720);
    assert_eq!(timeframe_hours("5"), 5);
    assert_eq!(timeframe_hours("+12"), 12);
    assert_eq!(timeframe_hours("Week"), 24);
    assert_eq!(timeframe_hours(""), 24);
    assert_eq!(timeframe_hours("-3"), 24);
    assert_eq!(timeframe_hours("18446744073709551615"), u64::MAX);
    assert_eq!(timeframe_hours("18446744073709551616"), 24);
}

#[test]
fn numbers_are_read_as_the_standard_library_reads_them() {
    for text in ["0", "007", "+0", "+", "", "++1", "1+", "12a", " 1", "1 ", "-1", "18446744073709551615", "18446744073709551616", "99999999999999999999999", "\u{661}"] {
        assert_eq!(parse_unsigned(text), text.parse::<u64>().ok());
    }
    assert!(same_text("a", "a"));
    assert!(!same_text("a", "A"));
    assert!(same_text("", ""));
}

#[test]
fn the_initial_interval_is_the_window_of_that_length() {
    let intervals = default_intervals();
    let labels: Vec<&str> = intervals.iter().map(|i| i.label.as_str()).collect();
    assert_eq!(labels, vec!["24h", "48h", "72h", "1 week", "1 month"]);
    let secs: Vec<u64> = intervals.iter().map(|i| i.secs).collect();
    assert_eq!(secs, vec![86400, 172800, 259200, 604800, 2592000]);
    assert_eq!(initial_interval(&intervals, 24), 0);
    assert_eq!(initial_interval(&intervals, 48), 1);
    assert_eq!(initial_interval(&intervals, 72), 2);
    assert_eq!(initial_interval(&intervals, 168), 3);
    assert_eq!(initial_interval(&intervals, 720), 4);
    assert_eq!(initial_interval(&intervals, 5), 0);
    assert_eq!(initial_interval(&intervals, u64::MAX), 0);
    assert_eq!(initial_interval(&vec![], 24), 0);
    let twice = vec![
        Interval { label: "a".to_string(), secs: 7200 },
        Interval { label: "b".to_string(), secs: 3600 },
        Interval { label: "c".to_string(), secs: 3600 },
    ];
    assert_eq!(initial_interval(&twice, 1), 1);
}
