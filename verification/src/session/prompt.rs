//! A prompt without colours.

use crate::text::owned_option_view;
use vstd::prelude::*;

verus! {

/// What a plain prompt shows.
pub struct Prompt {
    path: String,
    user_name: Option<String>,
    git_repo: Option<String>,
}

/// A `Prompt` with its text as characters.
pub struct PromptView {
    pub path: Seq<char>,
    pub user_name: Option<Seq<char>>,
    pub git_repo: Option<Seq<char>>,
}

impl View for Prompt {
    type V = PromptView;

    closed spec fn view(&self) -> PromptView {
        PromptView {
            path: self.path@,
            user_name: owned_option_view(self.user_name),
            git_repo: owned_option_view(self.git_repo),
        }
    }
}

/// The plain prompt: the working directory, then `@` and the user's name
/// where one is known, then the git branch in brackets where there is one,
/// then `> `.
pub open spec fn plain_prompt(v: PromptView) -> Seq<char> {
    v.path + (match v.user_name {
        Some(name) => "@"@ + name,
        None => Seq::<char>::empty(),
    }) + (match v.git_repo {
        Some(branch) => "("@ + branch + ")"@,
        None => Seq::<char>::empty(),
    }) + "> "@
}

impl Prompt {
    /// A prompt for a session that starts in `init_path`, with no user and no branch.
    pub fn new(init_path: String) -> (p: Prompt)
        ensures
            p@ == (PromptView { path: init_path@, user_name: None, git_repo: None }),
    {
        Prompt { path: init_path, user_name: None, git_repo: None }
    }

    /// The git branch, to read or to replace.
    pub fn get_git_repo(&mut self) -> (r: &mut Option<String>)
        ensures
            owned_option_view(*r) == old(self)@.git_repo,
            final(self)@ == (PromptView { git_repo: owned_option_view(*final(r)), ..old(self)@ }),
    {
        &mut self.git_repo
    }

    /// The working directory, to read or to replace.
    pub fn get_path(&mut self) -> (r: &mut String)
        ensures
            r@ == old(self)@.path,
            final(self)@ == (PromptView { path: final(r)@, ..old(self)@ }),
    {
        &mut self.path
    }

    /// The working directory.
    pub fn get_path_view(&self) -> (r: &String)
        ensures
            r@ == self@.path,
    {
        &self.path
    }

    /// The user's name, to read or to replace.
    pub fn get_user_name(&mut self) -> (r: &mut Option<String>)
        ensures
            owned_option_view(*r) == old(self)@.user_name,
            final(self)@ == (PromptView { user_name: owned_option_view(*final(r)), ..old(self)@ }),
    {
        &mut self.user_name
    }

    /// Writes the prompt.
    pub fn build(&self) -> (s: String)
        ensures
            s@ == plain_prompt(self@),
    {
        let mut result = self.path.clone();
        match &self.user_name {
            Some(user_name) => {
                result.append("@");
                result.append(user_name.as_str());
            },
            None => {},
        }
        match &self.git_repo {
            Some(branch) => {
                result.append("(");
                result.append(branch.as_str());
                result.append(")");
            },
            None => {},
        }
        result.append("> ");
        assert(result@ =~= plain_prompt(self@));
        result
    }
}

} // verus!
