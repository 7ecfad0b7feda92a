//! The text of a summary request.

use vstd::prelude::*;
use vstd::utf8::encode_utf8;
use crate::active::{active_places, lemma_active_places, list_active};
use crate::commits::{line_at, place_in, place_seq, CommitData, CommitLocation, RepoModel};
use crate::marks::SelectedCommits;
use crate::models::{CommitTab, PopupModel, PopupQuote, RepoScope, ViewState};
use crate::text::{decimal, decimal_string, join, joined, replace_text, replaced, views};

verus! {

/// What the prompt says before it names the language.
pub const PROMPT_HEAD: &'static str =
    "\nIMPORTANT: The prompt is english, but the generated output should be in ";

/// The task, from the language to the commit data.
pub const PROMPT_TASK: &'static str =
    " language\n\nOverall summary: Summarize all changes in the Git history in short, concise bullet points by grouping similar changes and highlighting their main topics and functions.\n\n- Breakdown by day: Provide a summary of the changes for each day in a single line, highlighting the most important changes and features.\n- If ticket numbers (format: [letter code]-[number sequence]) appear in the commit, add them to the daily overview at the end. e.g. \"[...] relates to CPT-2345 and DSG-23212\"\n- If the commits are from multiple projects, repeat the output for each project, separated by --- and two line breaks before and after\n- If there are no commits, this does not need to be mentioned.\n- Use markdown, preserve it in the output, including spaces\n- if no changes for a day, do not include it in the Daily breakdown\n- Dateformat is YYYY-MM-DD\n\nCommit Data: \n";

/// What leads from the commit data to the example.
pub const PROMPT_EXAMPLE: &'static str =
    "\n\nExample for the Git history from ";

/// What stands between the two dates of the example.
pub const PROMPT_TO: &'static str =
    " to ";

/// What leads to the title of the example.
pub const PROMPT_TITLE: &'static str =
    ":\n\n\n## ";

/// What stands between the project and its time frame.
pub const PROMPT_TIMEFRAME: &'static str =
    " - Timeframe: ";

/// What stands between the two dates of the title.
pub const PROMPT_DASH: &'static str =
    " - ";

/// The shape of the answer that the example shows.
pub const PROMPT_SHAPE: &'static str =
    "\n\n*Overall summary*: \n- [Summary of changes. Sorted by topic]\n- *[Topic / Topic Headline]*\n    - [Details, up to 4, depending on complexity, can also be further nested]\n\nDaily breakdown:\n- [*Date 1*]: [Changes on this day summarized]\n- [*Date 2*]: [Changes on this day summarized]\n";

/// The prompt for a summary of `commits`, which were made between `from` and
/// `to` in the project `project_name`, to be answered in the language
/// `lang`.
pub open spec fn prompt_text(
    from: Seq<char>,
    to: Seq<char>,
    project_name: Seq<char>,
    lang: Seq<char>,
    commits: Seq<char>,
) -> Seq<char> {
    PROMPT_HEAD@ + lang + PROMPT_TASK@ + commits + PROMPT_EXAMPLE@ + from + PROMPT_TO@ + to
        + PROMPT_TITLE@ + project_name + PROMPT_TIMEFRAME@ + from + PROMPT_DASH@ + to
        + PROMPT_SHAPE@
}

/// The default prompt, in English, with the language of the answer, the
/// commits, the dates and the project filled in.
pub fn prompt_en(from: &str, to: &str, project_name: &str, lang: &str, commits: &str) -> (prompt:
    String)
    ensures
        prompt@ == prompt_text(from@, to@, project_name@, lang@, commits@),
{
    let mut prompt = String::new();
    prompt.append(PROMPT_HEAD);
    prompt.append(lang);
    prompt.append(PROMPT_TASK);
    prompt.append(commits);
    prompt.append(PROMPT_EXAMPLE);
    prompt.append(from);
    prompt.append(PROMPT_TO);
    prompt.append(to);
    prompt.append(PROMPT_TITLE);
    prompt.append(project_name);
    prompt.append(PROMPT_TIMEFRAME);
    prompt.append(from);
    prompt.append(PROMPT_DASH);
    prompt.append(to);
    prompt.append(PROMPT_SHAPE);
    prompt
}

/// The language that is asked for where none is given.
pub const DEFAULT_LANGUAGE: &'static str = "english";

/// The name under which the commits of every repository are summarised.
pub const ALL_PROJECTS: &'static str = "All projects";

/// The name of a repository that is not among the loaded ones.
pub const UNKNOWN_PROJECT: &'static str = "Project";

/// The name under which the marked commits are summarised.
pub const SELECTION_NAME: &'static str = "Selection";

/// The name under which the statistics tab is summarised.
pub const STATS_NAME: &'static str = "Stats";

/// Where the text of the prompt comes from.
#[derive(Debug)]
pub enum PromptSource {
    /// No template was asked for: the default prompt is used.
    Default,
    /// The template that was read from the file at `path`.
    Custom { path: String, template: String },
    /// The file at `path` could not be read, for the reason `error`: the
    /// default prompt is used.
    Unreadable { path: String, error: String },
}

/// `PromptSource` as mathematical values.
pub enum SourceModel {
    Default,
    Custom { path: Seq<char>, template: Seq<char> },
    Unreadable { path: Seq<char>, error: Seq<char> },
}

impl View for PromptSource {
    type V = SourceModel;

    open spec fn view(&self) -> SourceModel {
        match self {
            PromptSource::Default => SourceModel::Default,
            PromptSource::Custom { path, template } => SourceModel::Custom {
                path: path@,
                template: template@,
            },
            PromptSource::Unreadable { path, error } => SourceModel::Unreadable {
                path: path@,
                error: error@,
            },
        }
    }
}

/// What a summary request needs from outside the session.
#[derive(Debug)]
pub struct SummaryInputs {
    /// The first day of the time window, as `YYYY-MM-DD`.
    pub from_date: String,
    /// The last day of the time window, as `YYYY-MM-DD`.
    pub to_date: String,
    /// The label of the time window.
    pub interval: String,
    /// The language of the answer; empty for the default.
    pub lang: String,
    /// The model that is asked.
    pub model: String,
    pub source: PromptSource,
    /// Whether a credential for the provider is configured.
    pub credential_present: bool,
    /// Where the configuration file lies.
    pub config_path: String,
}

/// `SummaryInputs` as mathematical values.
pub struct InputsModel {
    pub from_date: Seq<char>,
    pub to_date: Seq<char>,
    pub interval: Seq<char>,
    pub lang: Seq<char>,
    pub model: Seq<char>,
    pub source: SourceModel,
    pub credential_present: bool,
    pub config_path: Seq<char>,
}

impl View for SummaryInputs {
    type V = InputsModel;

    open spec fn view(&self) -> InputsModel {
        InputsModel {
            from_date: self.from_date@,
            to_date: self.to_date@,
            interval: self.interval@,
            lang: self.lang@,
            model: self.model@,
            source: self.source@,
            credential_present: self.credential_present,
            config_path: self.config_path@,
        }
    }
}

/// A request that is ready to be sent.
#[derive(Debug)]
pub struct SummaryRequest {
    pub prompt: String,
    pub model: String,
}

/// The language that the answer is asked in.
pub open spec fn language(lang: Seq<char>) -> Seq<char> {
    if lang.len() == 0 {
        DEFAULT_LANGUAGE@
    } else {
        lang
    }
}

/// A commit line as the request shows it: as it stands, or after the name
/// of its repository in square brackets.
pub open spec fn request_line(data: Seq<RepoModel>, named: bool, place: (int, int)) -> Seq<char> {
    if named {
        "["@ + data[place.0].name + "] "@ + line_at(data, place)
    } else {
        line_at(data, place)
    }
}

/// The lines of the request for the commits at the given places.
pub open spec fn request_lines(data: Seq<RepoModel>, named: bool, places: Seq<(int, int)>) -> Seq<
    Seq<char>,
> {
    Seq::new(places.len(), |k: int| request_line(data, named, places[k]))
}

/// The name under which the commits on display are summarised.
pub open spec fn project_name(data: Seq<RepoModel>, scope: RepoScope, tab: CommitTab) -> Seq<char> {
    match tab {
        CommitTab::Timeframe => match scope {
            RepoScope::All => ALL_PROJECTS@,
            RepoScope::Repo(i) => if i < data.len() {
                data[i as int].name
            } else {
                UNKNOWN_PROJECT@
            },
        },
        CommitTab::Selection => SELECTION_NAME@,
        CommitTab::Stats => STATS_NAME@,
    }
}

/// The commits on display as the request shows them, one line each: those
/// of all repositories with the name of their repository, any others as
/// they stand.
pub open spec fn commits_text(
    data: Seq<RepoModel>,
    scope: RepoScope,
    tab: CommitTab,
    marks: Set<Seq<char>>,
) -> Seq<char> {
    joined(
        request_lines(
            data,
            tab == CommitTab::Timeframe && scope == RepoScope::All,
            active_places(data, scope, tab, marks),
        ),
        "\n"@,
    )
}

/// A template with its variables filled in, one after another: the dates,
/// the project under both of its names, the time window, the language and
/// the commits. Whatever else stands between braces is left as it is.
pub open spec fn filled(
    template: Seq<char>,
    from: Seq<char>,
    to: Seq<char>,
    project: Seq<char>,
    interval: Seq<char>,
    lang: Seq<char>,
    commits: Seq<char>,
) -> Seq<char> {
    let a = replaced(template, "{from}"@, from);
    let b = replaced(a, "{to}"@, to);
    let c = replaced(b, "{project}"@, project);
    let d = replaced(c, "{projectname}"@, project);
    let e = replaced(d, "{interval}"@, interval);
    let f = replaced(e, "{lang}"@, lang);
    replaced(f, "{commits}"@, commits)
}

/// Fills in the variables of a template.
pub fn render(
    template: &str,
    from: &str,
    to: &str,
    project: &str,
    interval: &str,
    lang: &str,
    commits: &str,
) -> (prompt: String)
    ensures
        prompt@ == filled(template@, from@, to@, project@, interval@, lang@, commits@),
{
    proof {
        reveal_strlit("{from}");
        reveal_strlit("{to}");
        reveal_strlit("{project}");
        reveal_strlit("{projectname}");
        reveal_strlit("{interval}");
        reveal_strlit("{lang}");
        reveal_strlit("{commits}");
    }
    let a = replace_text(template, "{from}", from);
    let b = replace_text(a.as_str(), "{to}", to);
    let c = replace_text(b.as_str(), "{project}", project);
    let d = replace_text(c.as_str(), "{projectname}", project);
    let e = replace_text(d.as_str(), "{interval}", interval);
    let f = replace_text(e.as_str(), "{lang}", lang);
    replace_text(f.as_str(), "{commits}", commits)
}

/// The prompt of a request: the template with its variables filled in where
/// one was read, else the default prompt.
pub open spec fn prompt_of(inputs: InputsModel, project: Seq<char>, commits: Seq<char>) -> Seq<char> {
    match inputs.source {
        SourceModel::Custom { path, template } => filled(
            template,
            inputs.from_date,
            inputs.to_date,
            project,
            inputs.interval,
            language(inputs.lang),
            commits,
        ),
        _ => prompt_text(
            inputs.from_date,
            inputs.to_date,
            project,
            language(inputs.lang),
            commits,
        ),
    }
}

/// What the overlay says of where the prompt comes from.
pub open spec fn source_note(source: SourceModel) -> Seq<char> {
    match source {
        SourceModel::Default => Seq::empty(),
        SourceModel::Custom { path, template } => "Prompt loaded from "@ + path,
        SourceModel::Unreadable { path, error } => "Error loading "@ + path + ": "@ + error
            + ". Falling back to default prompt."@,
    }
}

/// The length of a text in bytes, as a `usize` holds it.
pub open spec fn byte_len(text: Seq<char>) -> usize {
    encode_utf8(text).len() as usize
}

/// What the overlay shows while the summary is awaited: where the prompt
/// comes from, and the variables of the request with the length of the
/// commits in place of the commits.
pub open spec fn loading_text(inputs: InputsModel, project: Seq<char>, commits: Seq<char>) -> Seq<
    char,
> {
    source_note(inputs.source) + "\n\nPrompt variables:\n----------------\nfrom: "@
        + inputs.from_date + "\nto: "@ + inputs.to_date + "\nproject: "@ + project + "\nlang: "@
        + language(inputs.lang) + "\ngemini_model: "@ + inputs.model + "\ncommits: [length: "@
        + decimal(byte_len(commits) as nat) + " chars]\n\nLoading commit summary..."@
}

/// What the overlay shows where no credential is configured: where to put
/// one.
pub open spec fn missing_key_text(config_path: Seq<char>) -> Seq<char> {
    "Gemini API key not found.\n\nPlease add it to your configuration file at:\n"@ + config_path
        + "\n\nOr set it as an environment variable: export GEMINI_API_KEY=your-key"@
}

/// What the overlay shows where no credential is configured.
pub fn missing_key_message(config_path: &str) -> (text: String)
    ensures
        text@ == missing_key_text(config_path@),
{
    let mut text = String::new();
    text.append("Gemini API key not found.\n\nPlease add it to your configuration file at:\n");
    text.append(config_path);
    text.append("\n\nOr set it as an environment variable: export GEMINI_API_KEY=your-key");
    text
}

/// The lines of the request for the commits at the given places.
fn collect_lines(data: &CommitData, named: bool, places: &Vec<CommitLocation>) -> (lines: Vec<
    String,
>)
    requires
        forall|k: int| 0 <= k < places@.len() ==> place_in(data@, (#[trigger] places@[k])@),
    ensures
        views(lines@) == request_lines(
            data@,
            named,
            place_seq(places@),
        ),
{
    let repos = data.repos();
    let mut lines: Vec<String> = Vec::new();
    let mut k: usize = 0;
    while k < places.len()
        invariant
            k <= places.len(),
            crate::commits::models(repos@) == data@,
            forall|k: int| 0 <= k < places@.len() ==> place_in(data@, (#[trigger] places@[k])@),
            lines@.len() == k,
            forall|n: int|
                0 <= n < k ==> (#[trigger] lines@[n])@ == request_line(data@, named, places@[n]@),
        decreases places.len() - k,
    {
        let loc = places[k];
        assert(place_in(data@, places@[k as int]@));
        assert(data@[loc.repo as int] == repos@[loc.repo as int]@);
        let entry = &repos[loc.repo];
        let mut line = String::new();
        if named {
            line.append("[");
            line.append(entry.repo.name.as_str());
            line.append("] ");
        }
        line.append(entry.commits[loc.index].as_str());
        lines.push(line);
        k = k + 1;
    }
    assert(views(lines@) =~= request_lines(
        data@,
        named,
        place_seq(places@),
    ));
    lines
}

/// The name under which the commits on display are summarised, and the
/// commits as the request shows them.
pub fn summary_subject(
    data: &CommitData,
    marks: &SelectedCommits,
    scope: RepoScope,
    tab: CommitTab,
) -> (subject: (String, String))
    ensures
        subject.0@ == project_name(data@, scope, tab),
        subject.1@ == commits_text(data@, scope, tab, marks@.set),
{
    let repos = data.repos();
    let name = match tab {
        CommitTab::Timeframe => match scope {
            RepoScope::All => ALL_PROJECTS.to_owned(),
            RepoScope::Repo(i) => {
                if i < repos.len() {
                    assert(data@[i as int] == repos@[i as int]@);
                    repos[i].repo.name.clone()
                } else {
                    UNKNOWN_PROJECT.to_owned()
                }
            },
        },
        CommitTab::Selection => SELECTION_NAME.to_owned(),
        CommitTab::Stats => STATS_NAME.to_owned(),
    };
    let named = match tab {
        CommitTab::Timeframe => match scope {
            RepoScope::All => true,
            RepoScope::Repo(_) => false,
        },
        _ => false,
    };
    let places = list_active(data, marks, scope, tab);
    proof {
        lemma_active_places(data@, scope, tab, marks@.set);
        assert forall|k: int| 0 <= k < places@.len() implies place_in(
            data@,
            (#[trigger] places@[k])@,
        ) by {
            assert(place_seq(places@)[k] == places@[k]@);
        }
    }
    let lines = collect_lines(data, named, &places);
    let text = join(&lines, "\n");
    (name, text)
}

/// The overlay once a summary was asked for. It is open, and the animation
/// starts over. With a credential it is loading and shows the variables of
/// the request; without one it is not loading and says where to put the
/// credential.
pub open spec fn requested(
    popup: PopupModel,
    inputs: InputsModel,
    project: Seq<char>,
    commits: Seq<char>,
) -> PopupModel {
    PopupModel {
        visible: true,
        loading: inputs.credential_present,
        spinner_frame: 0,
        text: if inputs.credential_present {
            loading_text(inputs, project, commits)
        } else {
            missing_key_text(inputs.config_path)
        },
        scroll: popup.scroll,
    }
}

fn loading_message(inputs: &SummaryInputs, lang: &str, project: &str, commits: &str) -> (text:
    String)
    requires
        lang@ == language(inputs@.lang),
    ensures
        text@ == loading_text(inputs@, project@, commits@),
{
    let mut text = String::new();
    match &inputs.source {
        PromptSource::Default => {},
        PromptSource::Custom { path, template } => {
            text.append("Prompt loaded from ");
            text.append(path.as_str());
        },
        PromptSource::Unreadable { path, error } => {
            text.append("Error loading ");
            text.append(path.as_str());
            text.append(": ");
            text.append(error.as_str());
            text.append(". Falling back to default prompt.");
        },
    }
    assert(text@ =~= source_note(inputs@.source));
    text.append("\n\nPrompt variables:\n----------------\nfrom: ");
    text.append(inputs.from_date.as_str());
    text.append("\nto: ");
    text.append(inputs.to_date.as_str());
    text.append("\nproject: ");
    text.append(project);
    text.append("\nlang: ");
    text.append(lang);
    text.append("\ngemini_model: ");
    text.append(inputs.model.as_str());
    text.append("\ncommits: [length: ");
    text.append(decimal_string(commits.len()).as_str());
    text.append(" chars]\n\nLoading commit summary...");
    text
}

/// Prepares the summary of the commits on display and opens the overlay
/// for it. Nothing else changes: the state, the commits and the marks are
/// only read, so the overlay of the marked commits stays as it is. With a
/// credential the request is returned for the caller to send, and the
/// overlay is loading until `finish_summary` is called. Without one nothing
/// is returned and nothing is to be sent: the overlay says where to put the
/// credential.
pub fn request_summary(
    state: &ViewState,
    commits: &CommitData,
    marks: &SelectedCommits,
    popup: &mut PopupQuote,
    inputs: &SummaryInputs,
) -> (request: Option<SummaryRequest>)
    ensures
        final(popup)@ == requested(
            old(popup)@,
            inputs@,
            project_name(commits@, state.selected_repo, state.selected_tab),
            commits_text(commits@, state.selected_repo, state.selected_tab, marks@.set),
        ),
        request is Some <==> inputs.credential_present,
        request matches Some(r) ==> r.model@ == inputs.model@ && r.prompt@ == prompt_of(
            inputs@,
            project_name(commits@, state.selected_repo, state.selected_tab),
            commits_text(commits@, state.selected_repo, state.selected_tab, marks@.set),
        ),
{
    let (project, text) = summary_subject(commits, marks, state.selected_repo, state.selected_tab);
    popup.visible = true;
    popup.spinner_frame = 0;
    if !inputs.credential_present {
        popup.loading = false;
        popup.text = missing_key_message(inputs.config_path.as_str());
        return None;
    }
    let lang = if inputs.lang.as_str().unicode_len() == 0 {
        DEFAULT_LANGUAGE
    } else {
        inputs.lang.as_str()
    };
    popup.loading = true;
    popup.text = loading_message(inputs, lang, project.as_str(), text.as_str());
    let prompt = match &inputs.source {
        PromptSource::Custom { path, template } => render(
            template.as_str(),
            inputs.from_date.as_str(),
            inputs.to_date.as_str(),
            project.as_str(),
            inputs.interval.as_str(),
            lang,
            text.as_str(),
        ),
        _ => prompt_en(
            inputs.from_date.as_str(),
            inputs.to_date.as_str(),
            project.as_str(),
            lang,
            text.as_str(),
        ),
    };
    Some(SummaryRequest { prompt, model: inputs.model.clone() })
}

/// Takes in the text that came back for a request, a summary or a message
/// in its place: the overlay shows it and is no longer loading. Whether the
/// overlay is open, and how far it is scrolled, stays as it is.
pub fn finish_summary(popup: &mut PopupQuote, text: String)
    ensures
        final(popup)@ == (PopupModel { text: text@, loading: false, ..old(popup)@ }),
{
    popup.text = text;
    popup.loading = false;
}

/// Moves the loading animation on by a frame, going round after the last
/// one. Returns whether the overlay is still loading; once it is not, the
/// animation stands still.
pub fn tick_spinner(popup: &mut PopupQuote) -> (loading: bool)
    ensures
        loading == old(popup).loading,
        final(popup)@ == (PopupModel {
            spinner_frame: if old(popup).loading {
                if old(popup).spinner_frame == u8::MAX {
                    0u8
                } else {
                    (old(popup).spinner_frame + 1) as u8
                }
            } else {
                old(popup).spinner_frame
            },
            ..old(popup)@
        }),
{
    if popup.loading {
        popup.spinner_frame = if popup.spinner_frame == u8::MAX {
            0
        } else {
            popup.spinner_frame + 1
        };
    }
    popup.loading
}

} // verus!
