use whid::commits::{CommitData, RepoCommits, Repository};
use whid::marks::SelectedCommits;
use whid::models::{Action, CommitTab, Frame, Key, PopupQuote, RepoScope, ViewState};
use whid::network::{summary_text, FetchOutcome};
use whid::prompts::{
    finish_summary, missing_key_message, prompt_en, render, request_summary, summary_subject,
    tick_spinner, PromptSource, SummaryInputs,
};
use whid::text::{
    commit_hash, count_lines, decimal_string, is_whitespace, join, trim_chars, trim_text,
};

fn repo(name: &str, commits: &[&str]) -> RepoCommits {
    RepoCommits {
        repo: Repository { path: format!("/work/{}", name), name: name.to_string() },
        commits: commits.iter().map(|c| c.to_string()).collect(),
    }
}

fn two_repos() -> CommitData {
    CommitData::new(vec![
        repo("alpha", &["h1 2 hours ago first", "h2 3 hours ago second"]),
        repo("beta", &["h3 1 day ago third"]),
    ])
    .unwrap()
}

fn inputs(credential: bool, source: PromptSource) -> SummaryInputs {
    SummaryInputs {
        from_date: "2024-05-01".to_string(),
        to_date: "2024-05-02".to_string(),
        interval: "24h".to_string(),
        lang: "".to_string(),
        model: "gemini-test".to_string(),
        source,
        credential_present: credential,
        config_path: "/home/me/.config/whid/whid.toml".to_string(),
    }
}

fn expected_prompt(from: &str, to: &str, project_name: &str, lang: &str, commits: &str) -> String {
    format!(
        "\nIMPORTANT: The prompt is english, but the generated output should be in {lang} language\n\nOverall summary: Summarize all changes in the Git history in short, concise bullet points by grouping similar changes and highlighting their main topics and functions.\n\n- Breakdown by day: Provide a summary of the changes for each day in a single line, highlighting the most important changes and features.\n- If ticket numbers (format: [letter code]-[number sequence]) appear in the commit, add them to the daily overview at the end. e.g. \"[...] relates to CPT-2345 and DSG-23212\"\n- If the commits are from multiple projects, repeat the output for each project, separated by --- and two line breaks before and after\n- If there are no commits, this does not need to be mentioned.\n- Use markdown, preserve it in the output, including spaces\n- if no changes for a day, do not include it in the Daily breakdown\n- Dateformat is YYYY-MM-DD\n\nCommit Data: \n{commits}\n\nExample for the Git history from {from} to {to}:\n\n\n## {project_name} - Timeframe: {from} - {to}\n\n*Overall summary*: \n- [Summary of changes. Sorted by topic]\n- *[Topic / Topic Headline]*\n    - [Details, up to 4, depending on complexity, can also be further nested]\n\nDaily breakdown:\n- [*Date 1*]: [Changes on this day summarized]\n- [*Date 2*]: [Changes on this day summarized]\n"
    )
}

#[test]
fn commit_hash_is_the_first_word() {
    assert_eq!(commit_hash("abc123 2 hours ago Fix"), "abc123");
    assert_eq!(commit_hash("  \t abc123\nbody"), "abc123");
    assert_eq!(commit_hash("abc123"), "abc123");
    assert_eq!(commit_hash(""), "");
    assert_eq!(commit_hash("   "), "");
    assert_eq!(commit_hash("\u{3000}h\u{e4}sh\u{a0}rest"), "h\u{e4}sh");
}

#[test]
fn white_space_is_what_the_standard_library_calls_so() {
    for code in 0u32..0x4000 {
        if let Some(c) = char::from_u32(code) {
            assert_eq!(is_whitespace(c), c.is_whitespace());
        }
    }
}

#[test]
fn trimming_matches_the_standard_library() {
    for text in ["", " ", "a", " a", "a ", "  a b  ", "\n\ta\u{a0}b\r\n", "\u{3000}\u{2003}", "x\u{85}", "\u{200b}a "] {
        assert_eq!(trim_text(text), text.trim());
    }
    assert_eq!(trim_text("  two words \n"), "two words");
    let set = vec!['\n', '\r', ' '];
    for text in ["", " \n", "\r\n a b \n ", "\ta ", "a", "\n\n"] {
        assert_eq!(trim_chars(text, &set), text.trim_matches(set.as_slice()));
    }
    assert_eq!(trim_chars("xxaxbxx", &vec!['x']), "axb");
    assert_eq!(trim_chars(" a ", &vec![]), " a ");
}

#[test]
fn line_counts_match_the_standard_library() {
    for text in ["", "a", "a\n", "a\nb", "\n", "\n\n", "a\r\nb\r\n", "a\n\nb", "x\r", "\r\n"] {
        assert_eq!(count_lines(text), text.lines().count());
    }
    assert_eq!(count_lines("one\ntwo\nthree"), 3);
}

#[test]
fn decimal_strings() {
    assert_eq!(decimal_string(0), "0");
    assert_eq!(decimal_string(7), "7");
    assert_eq!(decimal_string(10), "10");
    assert_eq!(decimal_string(1234567890), "1234567890");
    assert_eq!(decimal_string(usize::MAX), usize::MAX.to_string());
}

#[test]
fn joining_puts_the_separator_between() {
    let none: Vec<String> = vec![];
    assert_eq!(join(&none, ", "), "");
    assert_eq!(join(&vec!["a".to_string()], ", "), "a");
    assert_eq!(join(&vec!["a".to_string(), "".to_string(), "c".to_string()], ", "), "a, , c");
}

#[test]
fn the_default_prompt_has_the_variables_filled_in() {
    let got = prompt_en("2024-05-01", "2024-05-02", "alpha", "german", "h1 first\nh2 second");
    assert_eq!(got, expected_prompt("2024-05-01", "2024-05-02", "alpha", "german", "h1 first\nh2 second"));
    assert!(got.starts_with("\nIMPORTANT: The prompt is english"));
    assert!(got.contains("## alpha - Timeframe: 2024-05-01 - 2024-05-02\n"));
    assert!(got.contains("Commit Data: \nh1 first\nh2 second\n\nExample"));
}

#[test]
fn templates_replace_known_tokens_and_keep_unknown_ones() {
    let got = render(
        "{from}..{to} {project}/{projectname} {interval} {lang} {unknown} {commits}{commits} {from",
        "A", "B", "P", "24h", "en", "c1\nc2",
    );
    assert_eq!(got, "A..B P/P 24h en {unknown} c1\nc2c1\nc2 {from");
    assert_eq!(render("nothing to do", "A", "B", "P", "I", "L", "C"), "nothing to do");
    assert_eq!(render("{to}", "A", "{lang}", "P", "I", "L", "C"), "L");
}

#[test]
fn the_subject_of_a_summary_follows_scope_and_tab() {
    let data = two_repos();
    let mut marks = SelectedCommits::new();
    let (name, text) = summary_subject(&data, &marks, RepoScope::All, CommitTab::Timeframe);
    assert_eq!(name, "All projects");
    assert_eq!(text, "[alpha] h1 2 hours ago first\n[alpha] h2 3 hours ago second\n[beta] h3 1 day ago third");
    let (name, text) = summary_subject(&data, &marks, RepoScope::Repo(0), CommitTab::Timeframe);
    assert_eq!(name, "alpha");
    assert_eq!(text, "h1 2 hours ago first\nh2 3 hours ago second");
    let (name, text) = summary_subject(&data, &marks, RepoScope::Repo(7), CommitTab::Timeframe);
    assert_eq!(name, "Project");
    assert_eq!(text, "");
    marks.toggle("h3".to_string());
    marks.toggle("gone".to_string());
    marks.toggle("h1".to_string());
    let (name, text) = summary_subject(&data, &marks, RepoScope::Repo(0), CommitTab::Selection);
    assert_eq!(name, "Selection");
    assert_eq!(text, "h1 2 hours ago first\nh3 1 day ago third");
    let (name, text) = summary_subject(&data, &marks, RepoScope::All, CommitTab::Stats);
    assert_eq!(name, "Stats");
    assert_eq!(text, "");
}

#[test]
fn a_summary_without_credential_shows_guidance_and_sends_nothing() {
    let data = two_repos();
    let state = ViewState::new(0);
    let mut marks = SelectedCommits::new();
    let mut popup = PopupQuote::new();
    let mut calls = 0;
    let request = request_summary(&state, &data, &marks, &mut popup, &inputs(false, PromptSource::Default));
    if request.is_some() {
        calls += 1;
    }
    assert_eq!(calls, 0);
    assert!(popup.visible);
    assert!(!popup.loading);
    assert_eq!(
        popup.text,
        "Gemini API key not found.\n\nPlease add it to your configuration file at:\n/home/me/.config/whid/whid.toml\n\nOr set it as an environment variable: export GEMINI_API_KEY=your-key"
    );
    assert_eq!(popup.text, missing_key_message("/home/me/.config/whid/whid.toml"));
}

#[test]
fn a_summary_with_credential_loads_until_the_answer_arrives() {
    let data = two_repos();
    let mut state = ViewState::new(0);
    let mut marks = SelectedCommits::new();
    let mut popup = PopupQuote::new();
    let frame = Frame { cols: 120, rows: 40, detail_lines: 0, interval_count: 5 };
    marks.popup_visible = true;
    popup.spinner_frame = 9;
    let action = whid::input::handle_key(Key::Char('a'), &mut state, &data, &mut popup, &mut marks, &frame);
    assert!(matches!(action, Action::PrepareSummary));
    let request = request_summary(&state, &data, &marks, &mut popup, &inputs(true, PromptSource::Default)).unwrap();
    assert!(popup.visible);
    assert!(popup.loading);
    assert!(marks.popup_visible);
    assert!(marks.set.is_empty());
    assert_eq!(state, ViewState::new(0));
    assert_eq!(popup.spinner_frame, 0);
    let commits = "[alpha] h1 2 hours ago first\n[alpha] h2 3 hours ago second\n[beta] h3 1 day ago third";
    assert_eq!(
        popup.text,
        format!("\n\nPrompt variables:\n----------------\nfrom: 2024-05-01\nto: 2024-05-02\nproject: All projects\nlang: english\ngemini_model: gemini-test\ncommits: [length: {} chars]\n\nLoading commit summary...", commits.len())
    );
    assert_eq!(request.model, "gemini-test");
    assert_eq!(request.prompt, expected_prompt("2024-05-01", "2024-05-02", "All projects", "english", commits));
    assert!(tick_spinner(&mut popup));
    assert_eq!(popup.spinner_frame, 1);
    state.focus = whid::models::FocusArea::CommitList;
    whid::input::handle_key(Key::Esc, &mut state, &data, &mut popup, &mut marks, &frame);
    whid::input::handle_key(Key::Down, &mut state, &data, &mut popup, &mut marks, &frame);
    assert_eq!(state.selected_commit, Some(0));
    assert!(popup.loading);
    assert!(!popup.visible);
    finish_summary(&mut popup, "the summary".to_string());
    assert!(!popup.loading);
    assert!(!popup.visible);
    assert_eq!(popup.text, "the summary");
    assert!(!tick_spinner(&mut popup));
    assert_eq!(popup.spinner_frame, 1);
}

#[test]
fn the_spinner_goes_round() {
    let mut popup = PopupQuote::new();
    popup.loading = true;
    popup.spinner_frame = 255;
    assert!(tick_spinner(&mut popup));
    assert_eq!(popup.spinner_frame, 0);
}

#[test]
fn a_custom_template_is_used_and_reported() {
    let data = two_repos();
    let mut state = ViewState::new(0);
    state.selected_repo = RepoScope::Repo(1);
    let mut marks = SelectedCommits::new();
    let mut popup = PopupQuote::new();
    let source = PromptSource::Custom {
        path: "my.txt".to_string(),
        template: "{project} {interval} {lang}: {commits}".to_string(),
    };
    let mut given = inputs(true, source);
    given.lang = "fr".to_string();
    let request = request_summary(&state, &data, &marks, &mut popup, &given).unwrap();
    assert_eq!(request.prompt, "beta 24h fr: h3 1 day ago third");
    assert!(popup.text.starts_with("Prompt loaded from my.txt\n\nPrompt variables:\n"));
    assert!(popup.text.contains("\nlang: fr\n"));
    assert!(popup.text.contains("commits: [length: 18 chars]"));
    let source = PromptSource::Unreadable { path: "my.txt".to_string(), error: "not found".to_string() };
    let request = request_summary(&state, &data, &marks, &mut popup, &inputs(true, source)).unwrap();
    assert_eq!(request.prompt, expected_prompt("2024-05-01", "2024-05-02", "beta", "english", "h3 1 day ago third"));
    assert!(popup.text.starts_with("Error loading my.txt: not found. Falling back to default prompt.\n\nPrompt variables:"));
}

#[test]
fn copy_is_offered_only_for_a_finished_summary() {
    let data = two_repos();
    let mut state = ViewState::new(0);
    let mut marks = SelectedCommits::new();
    let mut popup = PopupQuote::new();
    let frame = Frame { cols: 120, rows: 40, detail_lines: 0, interval_count: 5 };
    let mut press = |popup: &mut PopupQuote| {
        whid::input::handle_key(Key::Char('c'), &mut state, &data, popup, &mut marks, &frame)
    };
    popup.text = "done".to_string();
    assert!(matches!(press(&mut popup), Action::Continue));
    popup.visible = true;
    popup.loading = true;
    assert!(matches!(press(&mut popup), Action::Continue));
    popup.loading = false;
    match press(&mut popup) {
        Action::Copy(text) => assert_eq!(text, "done"),
        other => panic!("unexpected {:?}", other),
    }
}

#[test]
fn popup_scrolling_takes_the_directional_keys() {
    let data = two_repos();
    let mut state = ViewState::new(0);
    let mut marks = SelectedCommits::new();
    let mut popup = PopupQuote::new();
    let frame = Frame { cols: 120, rows: 40, detail_lines: 0, interval_count: 5 };
    popup.visible = true;
    popup.text = (0..30).map(|i| format!("line {}\n", i)).collect();
    assert_eq!(whid::input::popup_rows(40), 28);
    for _ in 0..5 {
        whid::input::handle_key(Key::Down, &mut state, &data, &mut popup, &mut marks, &frame);
    }
    assert_eq!(popup.scroll, 2);
    assert_eq!(state, ViewState::new(0));
    whid::input::handle_key(Key::Right, &mut state, &data, &mut popup, &mut marks, &frame);
    assert_eq!(state, ViewState::new(0));
    whid::input::handle_key(Key::Up, &mut state, &data, &mut popup, &mut marks, &frame);
    assert_eq!(popup.scroll, 1);
    whid::input::handle_key(Key::Up, &mut state, &data, &mut popup, &mut marks, &frame);
    whid::input::handle_key(Key::Up, &mut state, &data, &mut popup, &mut marks, &frame);
    assert_eq!(popup.scroll, 0);
    popup.scroll = 500;
    whid::input::handle_key(Key::Char('k'), &mut state, &data, &mut popup, &mut marks, &frame);
    assert_eq!(popup.scroll, 2);
    assert_eq!(whid::input::popup_rows(4), 0);
    assert_eq!(whid::input::popup_rows(0), 0);
    assert_eq!(whid::input::popup_rows(65535), 52424);
}

#[test]
fn outcomes_of_the_provider_become_texts() {
    let path = "/cfg/whid.toml";
    let answer = FetchOutcome::Answer(Some("  \n the text \n".to_string()));
    assert_eq!(summary_text(&answer, path), "the text");
    assert_eq!(summary_text(&FetchOutcome::Answer(None), path), "No summary received.");
    for source in ["x API key must be set y", "no GEMINI_API_KEY", "status 401 Unauthorized"] {
        let failure = FetchOutcome::Failure { message: "outer".to_string(), source: Some(source.to_string()) };
        assert_eq!(summary_text(&failure, path), missing_key_message(path));
    }
    let failure = FetchOutcome::Failure { message: "outer".to_string(), source: Some("timed out".to_string()) };
    assert_eq!(summary_text(&failure, path), "Gemini API error: timed out");
    let failure = FetchOutcome::Failure { message: "outer 401".to_string(), source: None };
    assert_eq!(summary_text(&failure, path), "Gemini API error: outer 401");
}
