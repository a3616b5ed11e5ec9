//! The changelog of a compatibility-tool build: where it is asked for, what
//! is shown of the reply, and the dialog's state machine.
use vstd::prelude::*;
use crate::text::{cat3, cat4, chars_of, contains, same_text, split_on, split_on_vec, starts_with, starts_with_str, str_contains, str_owned, string_append, string_of, sub_vec};

verus! {

/// The address of the GitHub API entry for a release page
/// `https://github.com/{user}/{repo}/releases/tag/{tag}[/...]`, if the page has
/// that shape.
pub open spec fn github_api_url(url: Seq<char>) -> Option<Seq<char>> {
    let prefix = "https://github.com/"@;
    if starts_with(url, prefix) {
        let parts = split_on(url.subrange(prefix.len() as int, url.len() as int), '/');
        if parts.len() >= 5 && parts[2] == "releases"@ && parts[3] == "tag"@ {
            Some(
                "https://api.github.com/repos/"@ + parts[0] + "/"@ + parts[1] + "/releases/tags/"@
                    + parts[4],
            )
        } else {
            None
        }
    } else {
        None
    }
}

/// The GitHub API address for a release page, if it is one.
pub fn convert_to_github_api_url(release_url: &str) -> (r: Option<String>)
    ensures
        match (r, github_api_url(release_url@)) {
            (Some(a), Some(b)) => a@ == b,
            (None, None) => true,
            _ => false,
        },
{
    let v = chars_of(release_url);
    if !starts_with_str(&v, "https://github.com/") {
        return None;
    }
    proof {
        reveal_strlit("https://github.com/");
    }
    let rest = sub_vec(&v, 19, v.len());
    let parts = split_on_vec(&rest, '/');
    if parts.len() >= 5 && same_text(&parts[2], &chars_of("releases")) && same_text(
        &parts[3],
        &chars_of("tag"),
    ) {
        let user = string_of(&parts[0]);
        let repo = string_of(&parts[1]);
        let tag = string_of(&parts[4]);
        let mut r = cat4("https://api.github.com/repos/", user.as_str(), "/", repo.as_str());
        string_append(&mut r, "/releases/tags/");
        string_append(&mut r, tag.as_str());
        Some(r)
    } else {
        None
    }
}

/// The API address that the dialog asks for a page's changelog: only pages
/// on github.com under `/releases/` are asked about.
pub open spec fn changelog_api_url(page_url: Seq<char>) -> Option<Seq<char>> {
    if contains(page_url, "github.com"@) && contains(page_url, "/releases/"@) {
        github_api_url(page_url)
    } else {
        None
    }
}

pub fn changelog_request(page_url: &str) -> (r: Option<String>)
    ensures
        match (r, changelog_api_url(page_url@)) {
            (Some(a), Some(b)) => a@ == b,
            (None, None) => true,
            _ => false,
        },
{
    if str_contains(page_url, "github.com") && str_contains(page_url, "/releases/") {
        convert_to_github_api_url(page_url)
    } else {
        None
    }
}

/// The text shown where no release notes could be had.
pub open spec fn changelog_fallback(page_url: Seq<char>) -> Seq<char> {
    "Changelog available at:\n"@ + page_url
        + "\n\n(Full changelog can be viewed on the GitHub release page)"@
}

/// The changelog shown for a page, from the release notes that the API
/// answered with (`None` where there was no request, no successful reply, or
/// no text body): the notes where they are not empty, else a pointer to the
/// page.
pub open spec fn changelog_text(page_url: Seq<char>, body: Option<Seq<char>>) -> Seq<char> {
    match body {
        Some(b) => if b.len() > 0 {
            b
        } else {
            changelog_fallback(page_url)
        },
        None => changelog_fallback(page_url),
    }
}

pub fn changelog_from_reply(page_url: &str, body: Option<String>) -> (r: String)
    ensures
        r@ == changelog_text(
            page_url@,
            match body {
                Some(b) => Some(b@),
                None => None,
            },
        ),
{
    match body {
        Some(b) => {
            if !b.as_str().is_empty() {
                return b;
            }
        },
        None => {},
    }
    cat3(
        "Changelog available at:\n",
        page_url,
        "\n\n(Full changelog can be viewed on the GitHub release page)",
    )
}

pub enum Message {
    LoadChangelog,
    ChangelogLoaded(Result<String, String>),
    Close,
}

/// What the dialog asks its runner to do after a message.
pub enum Action {
    Idle,
    /// Fetch the changelog of this release page.
    FetchChangelog(String),
    CloseWindow,
}

pub struct ProtonChangelogDialog {
    runner_title: String,
    build_title: String,
    page_url: String,
    description: String,
    changelog: Option<String>,
    is_loading: bool,
    error: Option<String>,
}

pub struct ChangelogView {
    pub runner_title: Seq<char>,
    pub build_title: Seq<char>,
    pub page_url: Seq<char>,
    pub description: Seq<char>,
    pub changelog: Option<Seq<char>>,
    pub is_loading: bool,
    pub error: Option<Seq<char>>,
}

pub open spec fn text_view(o: Option<String>) -> Option<Seq<char>> {
    match o {
        Some(s) => Some(s@),
        None => None,
    }
}

impl View for ProtonChangelogDialog {
    type V = ChangelogView;

    closed spec fn view(&self) -> ChangelogView {
        ChangelogView {
            runner_title: self.runner_title@,
            build_title: self.build_title@,
            page_url: self.page_url@,
            description: self.description@,
            changelog: text_view(self.changelog),
            is_loading: self.is_loading,
            error: text_view(self.error),
        }
    }
}

/// The changelog dialog after a message: a loaded changelog or error is kept,
/// and loading ends.
pub open spec fn changelog_next(s: ChangelogView, m: Message) -> ChangelogView {
    match m {
        Message::LoadChangelog => ChangelogView { is_loading: true, ..s },
        Message::ChangelogLoaded(r) => match r {
            Ok(c) => ChangelogView { is_loading: false, changelog: Some(c@), ..s },
            Err(e) => ChangelogView { is_loading: false, error: Some(e@), ..s },
        },
        Message::Close => s,
    }
}

pub open spec fn changelog_action_ok(s: ChangelogView, m: Message, a: Action) -> bool {
    match m {
        Message::LoadChangelog => a matches Action::FetchChangelog(u) && u@ == s.page_url,
        Message::ChangelogLoaded(_) => a is Idle,
        Message::Close => a is CloseWindow,
    }
}

impl ProtonChangelogDialog {
    /// A dialog for one build's changelog, loading it.
    pub fn new(runner_title: String, build_title: String, description: String, page_url: String) -> (r: Self)
        ensures
            r@ == (ChangelogView {
                runner_title: runner_title@,
                build_title: build_title@,
                page_url: page_url@,
                description: description@,
                changelog: None,
                is_loading: true,
                error: None,
            }),
    {
        ProtonChangelogDialog {
            runner_title,
            build_title,
            page_url,
            description,
            changelog: None,
            is_loading: true,
            error: None,
        }
    }

    pub fn title(&self) -> (r: String)
        ensures
            r@ == self@.runner_title + " "@ + self@.build_title + " - Changelog - Rustora"@,
    {
        cat4(
            self.runner_title.as_str(),
            " ",
            self.build_title.as_str(),
            " - Changelog - Rustora",
        )
    }

    /// Takes in a message and says what to do next.
    pub fn update(&mut self, message: Message) -> (a: Action)
        ensures
            final(self)@ == changelog_next(old(self)@, message),
            changelog_action_ok(old(self)@, message, a),
    {
        match message {
            Message::LoadChangelog => {
                self.is_loading = true;
                Action::FetchChangelog(str_owned(self.page_url.as_str()))
            },
            Message::ChangelogLoaded(result) => {
                self.is_loading = false;
                match result {
                    Ok(c) => {
                        self.changelog = Some(c);
                    },
                    Err(e) => {
                        self.error = Some(e);
                    },
                }
                Action::Idle
            },
            Message::Close => Action::CloseWindow,
        }
    }

    pub fn description(&self) -> (r: &str)
        ensures
            r@ == self@.description,
    {
        self.description.as_str()
    }

    pub fn is_loading(&self) -> (r: bool)
        ensures
            r == self@.is_loading,
    {
        self.is_loading
    }

    pub fn changelog(&self) -> (r: Option<&str>)
        ensures
            match (r, self@.changelog) {
                (Some(a), Some(b)) => a@ == b,
                (None, None) => true,
                _ => false,
            },
    {
        match &self.changelog {
            Some(c) => Some(c.as_str()),
            None => None,
        }
    }

    pub fn error(&self) -> (r: Option<&str>)
        ensures
            match (r, self@.error) {
                (Some(a), Some(b)) => a@ == b,
                (None, None) => true,
                _ => false,
            },
    {
        match &self.error {
            Some(e) => Some(e.as_str()),
            None => None,
        }
    }
}

/// A page that the changelog is asked about is always a GitHub release page:
/// whatever address is asked for is that page's API entry.
pub proof fn changelog_asks_only_github(page_url: Seq<char>)
    ensures
        changelog_api_url(page_url) is Some ==> contains(page_url, "github.com"@) && starts_with(
            page_url,
            "https://github.com/"@,
        ),
{
}

/// The changelog shown is never empty: an empty reply falls back to the page.
pub proof fn changelog_never_empty(page_url: Seq<char>, body: Option<Seq<char>>)
    ensures
        changelog_text(page_url, body).len() > 0,
{
    reveal_strlit("Changelog available at:\n");
    let f = changelog_fallback(page_url);
    assert(f[0] == "Changelog available at:\n"@[0]);
}


/// The screens of the changelog dialog.
#[derive(Clone, Copy, Debug, PartialEq, Eq, Structural)]
pub enum ChangelogScreen {
    /// The changelog is still being fetched.
    Loading,
    /// Fetching it failed; the error and a Close button.
    Error,
    /// The changelog, the page's address and a Close button.
    Changelog,
}

pub open spec fn changelog_screen(s: ChangelogView) -> ChangelogScreen {
    if s.is_loading {
        ChangelogScreen::Loading
    } else if s.error is Some {
        ChangelogScreen::Error
    } else {
        ChangelogScreen::Changelog
    }
}

/// The heading: the tool's name and the build.
pub open spec fn changelog_heading(s: ChangelogView) -> Seq<char> {
    s.runner_title + " "@ + s.build_title
}

/// The text of the changelog screen: the description and a blank line where
/// there is one, then the changelog, or a note that there is none.
pub open spec fn changelog_screen_text(s: ChangelogView) -> Seq<char> {
    (if s.description.len() > 0 {
        s.description + "\n\n"@
    } else {
        Seq::empty()
    }) + match s.changelog {
        Some(c) => c,
        None => "No changelog available."@,
    }
}

impl ProtonChangelogDialog {
    /// Which screen the dialog shows.
    pub fn screen(&self) -> (r: ChangelogScreen)
        ensures
            r == changelog_screen(self@),
    {
        if self.is_loading {
            ChangelogScreen::Loading
        } else if self.error.is_some() {
            ChangelogScreen::Error
        } else {
            ChangelogScreen::Changelog
        }
    }

    /// The heading.
    pub fn heading(&self) -> (r: String)
        ensures
            r@ == changelog_heading(self@),
    {
        cat3(self.runner_title.as_str(), " ", self.build_title.as_str())
    }

    /// The text of the changelog screen.
    pub fn shown_text(&self) -> (r: String)
        ensures
            r@ == changelog_screen_text(self@),
    {
        let mut t = String::new();
        if !self.description.as_str().is_empty() {
            string_append(&mut t, self.description.as_str());
            string_append(&mut t, "\n\n");
        }
        match &self.changelog {
            Some(c) => string_append(&mut t, c.as_str()),
            None => string_append(&mut t, "No changelog available."),
        }
        t
    }
}

} // verus!
