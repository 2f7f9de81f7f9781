use vstd::prelude::*;

use crate::config::{spaces_of, Config};
use crate::filter::{all_indices, fuzzy_filter, is_filter_result};
use crate::layout::{
    has_owner, location_owner, owner_of, repo_short_name, short_name_of, space_name,
    space_name_of,
};
use crate::text::{drop_last_char, has_prefix, push_char, starts_with};

verus! {

/// The stage of the selection wizard.
pub enum AppState {
    Repo,
    Branch,
    BaseBranch,
}

/// A key press, as the wizard sees it.
pub enum Key {
    Char(char),
    Enter,
    Backspace,
    Down,
    Tab,
    Up,
    Esc,
    /// Ctrl-C: abandon the whole flow.
    Interrupt,
    Other,
}

/// The repositories offered in the `Repo` stage.
pub struct ReposList {
    /// The location of every cataloged repository, in catalog order.
    pub available_repos: Vec<String>,
    /// Indices into `available_repos` of those matching the typed text.
    pub matched_repos: Vec<usize>,
    /// Highlighted position in `matched_repos`.
    pub selected: Option<usize>,
}

/// The existing spaces offered in the `Branch` stage.
pub struct ExistingSpacesList {
    /// The spaces recorded for the owner of the chosen repository.
    pub available_spaces: Vec<String>,
    /// Indices into `available_spaces` of those matching the typed branch.
    pub matched_spaces: Vec<usize>,
    /// Highlighted position in `matched_spaces`.
    pub selected: Option<usize>,
}

/// The selection wizard: a repository, then a branch, then a base branch.
pub struct App {
    pub conf: Config,
    pub selected_repo: String,
    pub selected_branch: String,
    pub selected_base_branch: String,
    pub state: AppState,
    pub repos_list: ReposList,
    pub existing_spaces_list: ExistingSpacesList,
    /// The flow is over, completed or abandoned.
    pub exit: bool,
    /// The flow completed: the three selections are ready for cloning.
    pub ready_to_clone: bool,
}

/// The spaces recorded for the owner of `location`.
pub open spec fn spaces_for(conf: Config, location: Seq<char>) -> Seq<String> {
    if has_owner(location) {
        spaces_of(conf.current_spaces@, owner_of(location))
    } else {
        Seq::empty()
    }
}

/// The branch of an existing space: its name without the `<repoName>-` prefix.
pub open spec fn branch_of_space(space: Seq<char>, short_name: Seq<char>) -> Seq<char> {
    let p = short_name + seq!['-'];
    if starts_with(space, p) {
        space.subrange(p.len() as int, space.len() as int)
    } else {
        space
    }
}

/// Moving the highlight down a list of `len` entries.
pub open spec fn next_highlight(sel: Option<usize>, len: nat) -> Option<usize> {
    if len == 0 {
        None
    } else {
        match sel {
            None => Some(0usize),
            Some(i) => Some(if i + 1 < len { (i + 1) as usize } else { i }),
        }
    }
}

/// Moving the highlight up a list of `len` entries.
pub open spec fn prev_highlight(sel: Option<usize>, len: nat) -> Option<usize> {
    if len == 0 {
        None
    } else {
        match sel {
            None => Some((len - 1) as usize),
            Some(i) => Some(if i > 0 { (i - 1) as usize } else { 0usize }),
        }
    }
}

/// `s` without its last character, where it has one.
pub open spec fn without_last(s: Seq<char>) -> Seq<char> {
    if s.len() > 0 {
        s.drop_last()
    } else {
        s
    }
}

pub open spec fn valid_highlight(sel: Option<usize>, len: nat) -> bool {
    sel matches Some(i) ==> i < len
}

pub open spec fn texts_kept(o: App, n: App) -> bool {
    &&& n.selected_repo@ == o.selected_repo@
    &&& n.selected_branch@ == o.selected_branch@
    &&& n.selected_base_branch@ == o.selected_base_branch@
}

pub open spec fn flags_kept(o: App, n: App) -> bool {
    &&& n.state == o.state
    &&& n.exit == o.exit
    &&& n.ready_to_clone == o.ready_to_clone
}

pub open spec fn lists_kept(o: App, n: App) -> bool {
    &&& n.repos_list.matched_repos@ == o.repos_list.matched_repos@
    &&& n.existing_spaces_list.available_spaces@ == o.existing_spaces_list.available_spaces@
    &&& n.existing_spaces_list.matched_spaces@ == o.existing_spaces_list.matched_spaces@
}

/// The highlight of the active stage becomes `h`; nothing else changes.
pub open spec fn highlight_step(o: App, n: App, h: Option<usize>) -> bool {
    &&& texts_kept(o, n)
    &&& flags_kept(o, n)
    &&& lists_kept(o, n)
    &&& match o.state {
        AppState::Repo => n.repos_list.selected == h && n.existing_spaces_list.selected
            == o.existing_spaces_list.selected,
        AppState::Branch => n.existing_spaces_list.selected == h && n.repos_list.selected
            == o.repos_list.selected,
        AppState::BaseBranch => n.repos_list.selected == o.repos_list.selected
            && n.existing_spaces_list.selected == o.existing_spaces_list.selected,
    }
}

/// The text of the active stage becomes `repo`, `branch` or `base`, the one
/// for that stage; a stage with a list loses its highlight.
pub open spec fn text_step(o: App, n: App, repo: Seq<char>, branch: Seq<char>, base: Seq<char>) -> bool {
    &&& flags_kept(o, n)
    &&& match o.state {
        AppState::Repo => n.selected_repo@ == repo && n.selected_branch@ == o.selected_branch@
            && n.selected_base_branch@ == o.selected_base_branch@ && n.repos_list.selected is None
            && n.existing_spaces_list.selected == o.existing_spaces_list.selected,
        AppState::Branch => n.selected_branch@ == branch && n.selected_repo@ == o.selected_repo@
            && n.selected_base_branch@ == o.selected_base_branch@
            && n.existing_spaces_list.selected is None && n.repos_list.selected
            == o.repos_list.selected,
        AppState::BaseBranch => n.selected_base_branch@ == base && n.selected_repo@
            == o.selected_repo@ && n.selected_branch@ == o.selected_branch@
            && n.repos_list.selected == o.repos_list.selected && n.existing_spaces_list.selected
            == o.existing_spaces_list.selected && lists_kept(o, n),
    }
}

/// What confirming does in each stage.
pub open spec fn enter_step(o: App, n: App) -> bool {
    match o.state {
        AppState::Repo => match o.repos_list.selected {
            Some(i) => {
                &&& n.state is Branch
                &&& n.selected_repo@ == o.conf.repos@[o.repos_list.matched_repos@[i as int] as int].name@
                &&& n.selected_branch@ == o.selected_branch@
                &&& n.selected_base_branch@ == o.selected_base_branch@
                &&& n.exit == o.exit
                &&& n.ready_to_clone == o.ready_to_clone
                &&& n.existing_spaces_list.selected is None
            },
            None => texts_kept(o, n) && flags_kept(o, n) && lists_kept(o, n)
                && n.repos_list.selected == o.repos_list.selected,
        },
        AppState::Branch => match o.existing_spaces_list.selected {
            Some(i) => {
                &&& n.exit && n.ready_to_clone
                &&& n.state is Branch
                &&& n.selected_branch@ == branch_of_space(
                    o.existing_spaces_list.available_spaces@[o.existing_spaces_list.matched_spaces@[i as int] as int]@,
                    short_name_of(o.selected_repo@),
                )
                &&& n.selected_repo@ == o.selected_repo@
                &&& n.selected_base_branch@ == o.selected_base_branch@
            },
            None => if o.selected_branch@.len() == 0 {
                n.exit && n.ready_to_clone && n.state is Branch && texts_kept(o, n)
            } else {
                n.state is BaseBranch && n.exit == o.exit && n.ready_to_clone == o.ready_to_clone
                    && texts_kept(o, n)
            },
        },
        AppState::BaseBranch => n.exit && n.ready_to_clone && n.state is BaseBranch && texts_kept(
            o,
            n,
        ),
    }
}

impl App {
    /// Length of the candidate list of the active stage.
    pub open spec fn active_len(self) -> nat {
        match self.state {
            AppState::Repo => self.repos_list.matched_repos@.len(),
            AppState::Branch => self.existing_spaces_list.matched_spaces@.len(),
            AppState::BaseBranch => 0,
        }
    }

    /// Highlight of the active stage.
    pub open spec fn active_highlight(self) -> Option<usize> {
        match self.state {
            AppState::Repo => self.repos_list.selected,
            AppState::Branch => self.existing_spaces_list.selected,
            AppState::BaseBranch => None,
        }
    }

    /// The wizard's invariant: the lists hold indices into their candidates,
    /// and in their stage are the filtered candidates of the current texts;
    /// highlights point into them; and past the `Repo` stage
    /// the repository is a cataloged one.
    pub open spec fn wf(self) -> bool {
        &&& self.repos_list.available_repos@.len() == self.conf.repos@.len()
        &&& forall|i: int|
            0 <= i < self.conf.repos@.len() ==> #[trigger] self.repos_list.available_repos@[i]@
                == self.conf.repos@[i].name@
        &&& forall|k: int|
            0 <= k < self.repos_list.matched_repos@.len() ==> #[trigger] self.repos_list.matched_repos@[k]
                < self.repos_list.available_repos@.len()
        &&& forall|k: int|
            0 <= k < self.existing_spaces_list.matched_spaces@.len() ==> #[trigger] self.existing_spaces_list.matched_spaces@[k]
                < self.existing_spaces_list.available_spaces@.len()
        &&& valid_highlight(self.repos_list.selected, self.repos_list.matched_repos@.len())
        &&& valid_highlight(
            self.existing_spaces_list.selected,
            self.existing_spaces_list.matched_spaces@.len(),
        )
        &&& self.state is Repo ==> is_filter_result(
            self.repos_list.available_repos@,
            self.selected_repo@,
            self.repos_list.matched_repos@,
        )
        &&& !(self.state is Repo) ==> {
            &&& self.existing_spaces_list.available_spaces@ == spaces_for(
                self.conf,
                self.selected_repo@,
            )
            &&& is_filter_result(
                self.existing_spaces_list.available_spaces@,
                space_name_of(self.selected_repo@, self.selected_branch@),
                self.existing_spaces_list.matched_spaces@,
            )
            &&& exists|i: int|
                0 <= i < self.conf.repos@.len() && #[trigger] self.conf.repos@[i].name@
                    == self.selected_repo@
        }
        &&& self.ready_to_clone ==> self.exit && !(self.state is Repo)
    }
}

fn copy_texts(v: &Vec<String>) -> (r: Vec<String>)
    ensures
        r@ == v@,
{
    let mut r: Vec<String> = Vec::new();
    let mut i: usize = 0;
    while i < v.len()
        invariant
            i <= v.len(),
            r@ == v@.subrange(0, i as int),
        decreases v.len() - i,
    {
        r.push(v[i].clone());
        i = i + 1;
        assert(r@ =~= v@.subrange(0, i as int));
    }
    assert(r@ =~= v@);
    r
}

impl ReposList {
    /// Every cataloged repository, none highlighted.
    pub fn new(conf: &Config) -> (r: ReposList)
        ensures
            r.available_repos@.len() == conf.repos@.len(),
            forall|i: int|
                0 <= i < conf.repos@.len() ==> #[trigger] r.available_repos@[i]@
                    == conf.repos@[i].name@,
            is_filter_result(r.available_repos@, Seq::<char>::empty(), r.matched_repos@),
            r.matched_repos@ == all_indices(conf.repos@.len()),
            r.selected is None,
    {
        let mut names: Vec<String> = Vec::new();
        let mut i: usize = 0;
        while i < conf.repos.len()
            invariant
                i <= conf.repos.len(),
                names@.len() == i,
                forall|k: int| 0 <= k < i ==> #[trigger] names@[k]@ == conf.repos@[k].name@,
            decreases conf.repos.len() - i,
        {
            names.push(conf.repos[i].name.clone());
            i = i + 1;
        }
        let empty = String::new();
        let matched = fuzzy_filter(&names, empty.as_str());
        ReposList { available_repos: names, matched_repos: matched, selected: None }
    }
}

impl App {
    /// The wizard at its start: the `Repo` stage, with every repository offered.
    pub fn new(conf: Config) -> (r: App)
        ensures
            r.wf(),
            r.conf == conf,
            r.state is Repo,
            r.selected_repo@.len() == 0,
            r.selected_branch@.len() == 0,
            r.selected_base_branch@.len() == 0,
            r.repos_list.matched_repos@ == all_indices(conf.repos@.len()),
            r.repos_list.selected is None,
            r.existing_spaces_list.available_spaces@.len() == 0,
            r.existing_spaces_list.matched_spaces@.len() == 0,
            r.existing_spaces_list.selected is None,
            !r.exit,
            !r.ready_to_clone,
    {
        let repos_list = ReposList::new(&conf);
        App {
            conf,
            selected_repo: String::new(),
            selected_branch: String::new(),
            selected_base_branch: String::new(),
            state: AppState::Repo,
            repos_list,
            existing_spaces_list: ExistingSpacesList {
                available_spaces: Vec::new(),
                matched_spaces: Vec::new(),
                selected: None,
            },
            exit: false,
            ready_to_clone: false,
        }
    }

    fn exit(&mut self)
        ensures
            *final(self) == (App { exit: true, ..*old(self) }),
    {
        self.exit = true;
    }

    /// Refilters the repositories by the typed text, clearing the highlight.
    fn determine_matched_repos(&mut self)
        ensures
            *final(self) == (App {
                repos_list: ReposList {
                    matched_repos: final(self).repos_list.matched_repos,
                    selected: None,
                    ..old(self).repos_list
                },
                ..*old(self)
            }),
            is_filter_result(
                old(self).repos_list.available_repos@,
                old(self).selected_repo@,
                final(self).repos_list.matched_repos@,
            ),
    {
        let matched = fuzzy_filter(&self.repos_list.available_repos, self.selected_repo.as_str());
        self.repos_list.matched_repos = matched;
        self.repos_list.selected = None;
    }

    /// Recomputes the existing spaces of the chosen repository's owner and
    /// filters them by `<repoName>-<typed branch>`, clearing the highlight.
    fn determine_matched_spaces(&mut self)
        ensures
            *final(self) == (App {
                existing_spaces_list: ExistingSpacesList {
                    available_spaces: final(self).existing_spaces_list.available_spaces,
                    matched_spaces: final(self).existing_spaces_list.matched_spaces,
                    selected: None,
                },
                ..*old(self)
            }),
            final(self).existing_spaces_list.available_spaces@ == spaces_for(
                old(self).conf,
                old(self).selected_repo@,
            ),
            is_filter_result(
                final(self).existing_spaces_list.available_spaces@,
                space_name_of(old(self).selected_repo@, old(self).selected_branch@),
                final(self).existing_spaces_list.matched_spaces@,
            ),
    {
        let spaces = match location_owner(self.selected_repo.as_str()) {
            Some(owner) => match self.conf.owner_entry(owner.as_str()) {
                Some(i) => copy_texts(&self.conf.current_spaces[i].spaces),
                None => Vec::new(),
            },
            None => Vec::new(),
        };
        let query = space_name(self.selected_repo.as_str(), self.selected_branch.as_str());
        let matched = fuzzy_filter(&spaces, query.as_str());
        self.existing_spaces_list = ExistingSpacesList {
            available_spaces: spaces,
            matched_spaces: matched,
            selected: None,
        };
    }

    /// The branch named by the highlighted existing space: the space's name
    /// without the `<repoName>-` prefix.
    fn get_selected_branch(&self, i: usize) -> (r: String)
        requires
            i < self.existing_spaces_list.matched_spaces@.len(),
            self.existing_spaces_list.matched_spaces@[i as int]
                < self.existing_spaces_list.available_spaces@.len(),
        ensures
            r@ == branch_of_space(
                self.existing_spaces_list.available_spaces@[self.existing_spaces_list.matched_spaces@[i as int] as int]@,
                short_name_of(self.selected_repo@),
            ),
    {
        proof {
            reveal_strlit("-");
        }
        let prefix = repo_short_name(self.selected_repo.as_str()).concat("-");
        assert(prefix@ =~= short_name_of(self.selected_repo@) + seq!['-']);
        let space = &self.existing_spaces_list.available_spaces[self.existing_spaces_list.matched_spaces[i]];
        if has_prefix(space.as_str(), prefix.as_str()) {
            let n = space.unicode_len();
            let m = prefix.unicode_len();
            String::from_str(space.as_str().substring_char(m, n))
        } else {
            space.clone()
        }
    }
}

impl App {
    /// Confirms the active stage.
    fn advance_state(&mut self)
        requires
            old(self).wf(),
        ensures
            final(self).wf(),
            final(self).conf == old(self).conf,
            enter_step(*old(self), *final(self)),
    {
        match self.state {
            AppState::Repo => {
                match self.repos_list.selected {
                    Some(i) => {
                        let k = self.repos_list.matched_repos[i];
                        self.selected_repo = self.conf.repos[k].name.clone();
                        self.state = AppState::Branch;
                        self.determine_matched_spaces();
                        assert(self.conf.repos@[k as int].name@ == self.selected_repo@);
                    },
                    None => {},
                }
            },
            AppState::Branch => {
                match self.existing_spaces_list.selected {
                    Some(i) => {
                        self.selected_branch = self.get_selected_branch(i);
                        self.determine_matched_spaces();
                        self.exit();
                        self.ready_to_clone = true;
                    },
                    None => {
                        if self.selected_branch.unicode_len() == 0 {
                            self.exit();
                            self.ready_to_clone = true;
                        } else {
                            self.state = AppState::BaseBranch;
                        }
                    },
                }
            },
            AppState::BaseBranch => {
                self.exit();
                self.ready_to_clone = true;
            },
        }
    }

    /// Applies one key press.
    pub fn handle_key_event(&mut self, key: Key)
        requires
            old(self).wf(),
        ensures
            final(self).wf(),
            final(self).conf == old(self).conf,
            key is Interrupt ==> final(self).exit && !final(self).ready_to_clone && texts_kept(
                *old(self),
                *final(self),
            ) && final(self).state == old(self).state,
            key matches Key::Char(c) ==> text_step(
                *old(self),
                *final(self),
                old(self).selected_repo@.push(c),
                old(self).selected_branch@.push(c),
                old(self).selected_base_branch@.push(c),
            ),
            key is Backspace ==> text_step(
                *old(self),
                *final(self),
                without_last(old(self).selected_repo@),
                without_last(old(self).selected_branch@),
                without_last(old(self).selected_base_branch@),
            ),
            key is Down || key is Tab ==> highlight_step(
                *old(self),
                *final(self),
                next_highlight(old(self).active_highlight(), old(self).active_len()),
            ),
            key is Up ==> highlight_step(
                *old(self),
                *final(self),
                prev_highlight(old(self).active_highlight(), old(self).active_len()),
            ),
            key is Esc ==> highlight_step(*old(self), *final(self), None),
            key is Enter ==> enter_step(*old(self), *final(self)),
            key is Other ==> texts_kept(*old(self), *final(self)) && flags_kept(
                *old(self),
                *final(self),
            ) && lists_kept(*old(self), *final(self)) && final(self).repos_list.selected == old(
                self,
            ).repos_list.selected && final(self).existing_spaces_list.selected == old(
                self,
            ).existing_spaces_list.selected,
    {
        match key {
            Key::Interrupt => {
                self.exit();
                self.ready_to_clone = false;
            },
            Key::Char(c) => match self.state {
                AppState::Repo => {
                    push_char(&mut self.selected_repo, c);
                    self.determine_matched_repos();
                },
                AppState::Branch => {
                    push_char(&mut self.selected_branch, c);
                    self.determine_matched_spaces();
                },
                AppState::BaseBranch => {
                    push_char(&mut self.selected_base_branch, c);
                },
            },
            Key::Backspace => match self.state {
                AppState::Repo => {
                    drop_last_char(&mut self.selected_repo);
                    self.determine_matched_repos();
                },
                AppState::Branch => {
                    drop_last_char(&mut self.selected_branch);
                    self.determine_matched_spaces();
                },
                AppState::BaseBranch => {
                    drop_last_char(&mut self.selected_base_branch);
                },
            },
            Key::Enter => {
                self.advance_state();
            },
            Key::Down | Key::Tab => match self.state {
                AppState::Repo => {
                    self.repos_list.selected = select_next(
                        self.repos_list.selected,
                        self.repos_list.matched_repos.len(),
                    );
                },
                AppState::Branch => {
                    self.existing_spaces_list.selected = select_next(
                        self.existing_spaces_list.selected,
                        self.existing_spaces_list.matched_spaces.len(),
                    );
                },
                AppState::BaseBranch => {},
            },
            Key::Up => match self.state {
                AppState::Repo => {
                    self.repos_list.selected = select_previous(
                        self.repos_list.selected,
                        self.repos_list.matched_repos.len(),
                    );
                },
                AppState::Branch => {
                    self.existing_spaces_list.selected = select_previous(
                        self.existing_spaces_list.selected,
                        self.existing_spaces_list.matched_spaces.len(),
                    );
                },
                AppState::BaseBranch => {},
            },
            Key::Esc => match self.state {
                AppState::Repo => {
                    self.repos_list.selected = None;
                },
                AppState::Branch => {
                    self.existing_spaces_list.selected = None;
                },
                AppState::BaseBranch => {},
            },
            Key::Other => {},
        }
    }
}

/// A completed flow always names a cataloged repository, so no clone is
/// ever attempted for text that matched no entry.
pub proof fn lemma_completed_flow_names_cataloged_repo(app: App)
    requires
        app.wf(),
        app.ready_to_clone,
    ensures
        exists|i: int|
            0 <= i < app.conf.repos@.len() && #[trigger] app.conf.repos@[i].name@
                == app.selected_repo@,
{
}

/// The highlight after moving down a list of `len` entries.
fn select_next(sel: Option<usize>, len: usize) -> (r: Option<usize>)
    requires
        valid_highlight(sel, len as nat),
    ensures
        r == next_highlight(sel, len as nat),
        valid_highlight(r, len as nat),
{
    if len == 0 {
        None
    } else {
        match sel {
            None => Some(0),
            Some(i) => Some(if i + 1 < len { i + 1 } else { i }),
        }
    }
}

/// The highlight after moving up a list of `len` entries.
fn select_previous(sel: Option<usize>, len: usize) -> (r: Option<usize>)
    requires
        valid_highlight(sel, len as nat),
    ensures
        r == prev_highlight(sel, len as nat),
        valid_highlight(r, len as nat),
{
    if len == 0 {
        None
    } else {
        match sel {
            None => Some(len - 1),
            Some(i) => Some(if i > 0 { i - 1 } else { 0 }),
        }
    }
}

} // verus!
