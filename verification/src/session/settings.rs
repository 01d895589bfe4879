//! Colours and the settings behind the prompt.

use crate::commands::{AsStr, UniError, UniErrorView};
use crate::text::{
    decimal, join2, join3, lemma_split_joined, owned_option_view, render_decimal, split, split_on,
    trim, trimmed, views,
};
use vstd::prelude::*;

verus! {

/// A colour of the 24-bit terminal palette.
#[derive(Clone, Copy, Debug, PartialEq, Eq, Structural)]
pub struct Color {
    pub r: u8,
    pub g: u8,
    pub b: u8,
}

/// The escape sequence that switches the foreground to `color`.
pub open spec fn ansi(color: Color) -> Seq<char> {
    "\x1b[38;2;"@ + decimal(color.r as nat) + ";"@ + decimal(color.g as nat) + ";"@ + decimal(
        color.b as nat,
    ) + "m"@
}

/// The escape sequence that switches colouring off.
pub open spec fn ansi_reset() -> Seq<char> {
    "\x1b[0m"@
}

/// `text` written in `color`, with colouring switched off behind it.
pub open spec fn colored(text: Seq<char>, color: Color) -> Seq<char> {
    ansi(color) + text + ansi_reset()
}

impl Color {
    pub fn new(r: u8, g: u8, b: u8) -> (c: Color)
        ensures
            c == (Color { r, g, b }),
    {
        Color { r, g, b }
    }

    /// The escape sequence that switches the foreground to this colour.
    pub fn to_ansi_color(&self) -> (s: String)
        ensures
            s@ == ansi(*self),
    {
        let mut s = String::from_str("\x1b[38;2;");
        s.append(render_decimal(self.r as u64).as_str());
        s.append(";");
        s.append(render_decimal(self.g as u64).as_str());
        s.append(";");
        s.append(render_decimal(self.b as u64).as_str());
        s.append("m");
        s
    }

    /// The escape sequence that switches colouring off.
    pub fn reset() -> (s: String)
        ensures
            s@ == ansi_reset(),
    {
        String::from_str("\x1b[0m")
    }

    pub fn blue() -> (c: Color)
        ensures
            c == (Color { r: 0, g: 0, b: 255 }),
    {
        Color::new(0, 0, 255)
    }

    pub fn light_blue() -> (c: Color)
        ensures
            c == (Color { r: 173, g: 216, b: 230 }),
    {
        Color::new(173, 216, 230)
    }

    pub fn red() -> (c: Color)
        ensures
            c == (Color { r: 255, g: 0, b: 0 }),
    {
        Color::new(255, 0, 0)
    }

    pub fn green() -> (c: Color)
        ensures
            c == (Color { r: 0, g: 255, b: 0 }),
    {
        Color::new(0, 255, 0)
    }
}

/// Text that can be written in a colour.
pub trait WithConsoleColor {
    /// The text itself.
    spec fn plain(&self) -> Seq<char>;

    /// The text in `color`, with colouring switched off behind it.
    fn with_color(&self, color: &Color) -> (s: String)
        ensures
            s@ == colored(self.plain(), *color),
    ;
}

impl WithConsoleColor for String {
    open spec fn plain(&self) -> Seq<char> {
        self@
    }

    fn with_color(&self, color: &Color) -> (s: String) {
        let mut s = color.to_ansi_color();
        s.append(self.as_str());
        s.append(Color::reset().as_str());
        s
    }
}

/// The colour a fresh session writes its working directory in.
pub fn default_path_color() -> (c: Color)
    ensures
        c == (Color { r: 20, g: 255, b: 247 }),
{
    Color::new(20, 255, 247)
}

/// The colour a fresh session writes the user's name in.
pub fn default_username_color() -> (c: Color)
    ensures
        c == (Color { r: 179, g: 30, b: 0 }),
{
    Color::new(179, 30, 0)
}

/// The colour a fresh session writes the git branch in.
pub fn default_git_branch_color() -> (c: Color)
    ensures
        c == (Color { r: 255, g: 204, b: 246 }),
{
    Color::new(255, 204, 246)
}

/// The directory, below the user's own, that holds what the shell keeps.
pub const CONFIG_DIR_NAME: &'static str = ".term-rs";

/// The file, in that directory, that holds the settings.
pub const SETTINGS_FILE_NAME: &'static str = "settings.json";

/// What a git `HEAD` file is refused with that does not read as one.
pub const GIT_HEAD_INVALID: &'static str = ".git/HEAD: had invalid data inside of it.";

/// The branch that the text of a git `HEAD` file names. Such a file reads
/// `ref: path/to/branch`: the text must hold one colon exactly, and the
/// branch is what follows the last slash behind it, trimmed.
pub open spec fn branch_of(contents: Seq<char>) -> Option<Seq<char>> {
    let halves = split(contents, ':');
    if halves.len() != 2 {
        None
    } else {
        Some(trim(split(halves[1], '/').last()))
    }
}

/// Why the settings could not be saved.
#[derive(Clone, Debug, PartialEq, Eq)]
pub enum SaveError {
    /// No place to save to is known. Holds why.
    NoSuitablePath(String),
    /// The settings could not be written down. Holds why.
    FailedToSerialize(String),
    /// The file system refused. Holds the system's description.
    IoError(String),
}

impl AsStr for SaveError {
    open spec fn rendered(&self) -> Seq<char> {
        match self {
            SaveError::NoSuitablePath(m) => "no suitable path: "@ + m@,
            SaveError::FailedToSerialize(m) => "failed to serialize: "@ + m@,
            SaveError::IoError(m) => "IoError: "@ + m@,
        }
    }

    fn as_str(&self) -> (s: String) {
        match self {
            SaveError::NoSuitablePath(m) => join2("no suitable path: ", m.as_str()),
            SaveError::FailedToSerialize(m) => join2("failed to serialize: ", m.as_str()),
            SaveError::IoError(m) => join2("IoError: ", m.as_str()),
        }
    }
}

/// What the prompt shows and in which colours.
#[derive(Clone, Debug, PartialEq, Eq)]
pub struct Settings {
    path: String,
    user_name: Option<String>,
    git_branch: Option<String>,
    path_color: Color,
    user_name_color: Color,
    git_branch_color: Color,
}

/// The settings as plain text and colours.
pub struct SettingsView {
    pub path: Seq<char>,
    pub user_name: Option<Seq<char>>,
    pub git_branch: Option<Seq<char>>,
    pub path_color: Color,
    pub user_name_color: Color,
    pub git_branch_color: Color,
}

impl View for Settings {
    type V = SettingsView;

    closed spec fn view(&self) -> SettingsView {
        SettingsView {
            path: self.path@,
            user_name: owned_option_view(self.user_name),
            git_branch: owned_option_view(self.git_branch),
            path_color: self.path_color,
            user_name_color: self.user_name_color,
            git_branch_color: self.git_branch_color,
        }
    }
}

/// The prompt: the working directory, then `@` and the user's name where one
/// is known, then the git branch in brackets where there is one, then `> `;
/// each of the three in its colour.
pub open spec fn prompt_text(v: SettingsView) -> Seq<char> {
    colored(v.path, v.path_color) + (match v.user_name {
        Some(name) => "@"@ + colored(name, v.user_name_color),
        None => Seq::<char>::empty(),
    }) + (match v.git_branch {
        Some(branch) => "("@ + colored(branch, v.git_branch_color) + ")"@,
        None => Seq::<char>::empty(),
    }) + "> "@
}

impl Settings {
    /// Settings for a session that starts in `init_path`: no user, no branch,
    /// the default colours.
    pub fn new(init_path: String) -> (s: Settings)
        ensures
            s@ == (SettingsView {
                path: init_path@,
                user_name: None,
                git_branch: None,
                path_color: (Color { r: 20, g: 255, b: 247 }),
                user_name_color: (Color { r: 179, g: 30, b: 0 }),
                git_branch_color: (Color { r: 255, g: 204, b: 246 }),
            }),
    {
        Settings {
            path: init_path,
            user_name: None,
            git_branch: None,
            path_color: default_path_color(),
            user_name_color: default_username_color(),
            git_branch_color: default_git_branch_color(),
        }
    }

    /// The git branch, to read or to replace.
    pub fn get_git_repo(&mut self) -> (r: &mut Option<String>)
        ensures
            owned_option_view(*r) == old(self)@.git_branch,
            final(self)@ == (SettingsView {
                git_branch: owned_option_view(*final(r)),
                ..old(self)@
            }),
    {
        &mut self.git_branch
    }

    /// The working directory, to read or to replace.
    pub fn get_path(&mut self) -> (r: &mut String)
        ensures
            r@ == old(self)@.path,
            final(self)@ == (SettingsView { path: final(r)@, ..old(self)@ }),
    {
        &mut self.path
    }

    /// The working directory.
    pub fn get_path_view(&self) -> (r: &String)
        ensures
            r@ == self@.path,
    {
        &self.path
    }

    /// The user's name, to read or to replace.
    pub fn get_user_name(&mut self) -> (r: &mut Option<String>)
        ensures
            owned_option_view(*r) == old(self)@.user_name,
            final(self)@ == (SettingsView {
                user_name: owned_option_view(*final(r)),
                ..old(self)@
            }),
    {
        &mut self.user_name
    }

    /// The colour of the working directory, to read or to replace.
    pub fn get_path_color(&mut self) -> (r: &mut Color)
        ensures
            *r == old(self)@.path_color,
            final(self)@ == (SettingsView { path_color: *final(r), ..old(self)@ }),
    {
        &mut self.path_color
    }

    /// The colour of the user's name, to read or to replace.
    pub fn get_username_color(&mut self) -> (r: &mut Color)
        ensures
            *r == old(self)@.user_name_color,
            final(self)@ == (SettingsView { user_name_color: *final(r), ..old(self)@ }),
    {
        &mut self.user_name_color
    }

    /// The colour of the git branch, to read or to replace.
    pub fn get_branch_color(&mut self) -> (r: &mut Color)
        ensures
            *r == old(self)@.git_branch_color,
            final(self)@ == (SettingsView { git_branch_color: *final(r), ..old(self)@ }),
    {
        &mut self.git_branch_color
    }

    /// Writes the prompt.
    pub fn build_prompt(&self) -> (s: String)
        ensures
            s@ == prompt_text(self@),
    {
        let mut result = self.path.with_color(&self.path_color);
        match &self.user_name {
            Some(user_name) => {
                result.append("@");
                result.append(user_name.with_color(&self.user_name_color).as_str());
            },
            None => {},
        }
        match &self.git_branch {
            Some(branch) => {
                result.append("(");
                result.append(branch.with_color(&self.git_branch_color).as_str());
                result.append(")");
            },
            None => {},
        }
        result.append("> ");
        assert(result@ =~= prompt_text(self@));
        result
    }

    /// Reads the branch out of the text of a git `HEAD` file.
    pub fn visit_git_head(contents: &str) -> (r: Result<String, UniError>)
        ensures
            match branch_of(contents@) {
                Some(branch) => r matches Ok(found) && found@ == branch,
                None => r matches Err(e) && e@ == UniErrorView::IoError(GIT_HEAD_INVALID@),
            },
    {
        let colon_split = split_on(contents, ':');
        if colon_split.len() != 2 {
            return Err(UniError::IoError(String::from_str(GIT_HEAD_INVALID)));
        }
        let path_to_branch_split = split_on(colon_split[1], '/');
        proof {
            assert(views(colon_split@)[1] == colon_split@[1]@);
            lemma_split_joined(colon_split@[1]@, '/');
            let pieces = views(path_to_branch_split@);
            assert(pieces[pieces.len() - 1] == path_to_branch_split@[pieces.len() - 1]@);
        }
        let branch = path_to_branch_split[path_to_branch_split.len() - 1];
        Ok(String::from_str(trimmed(branch)))
    }

    /// The directory that holds what the shell keeps, below `location`.
    pub fn get_config_folder(location: &str) -> (dir: String)
        ensures
            dir@ == location@ + "/"@ + CONFIG_DIR_NAME@,
    {
        join3(location, "/", CONFIG_DIR_NAME)
    }

    /// The settings file inside the directory `folder`.
    pub fn settings_file(folder: &str) -> (file: String)
        ensures
            file@ == folder@ + "/"@ + SETTINGS_FILE_NAME@,
    {
        join3(folder, "/", SETTINGS_FILE_NAME)
    }
}

} // verus!
