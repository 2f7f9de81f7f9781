use vstd::prelude::*;

use crate::config::{Config, Repo};
use crate::error::CustomError;
use crate::layout::{effective_branch, get_branch_name, has_owner, space_path, space_path_of};
use crate::remote::{
    authed_url, parse_url, set_url_password, set_url_username, takes_userinfo, url_parses, url_text,
};
use crate::text::{contains_text, occurs_in, same_text};

verus! {

/// The username a repository authenticates with: its own, else the catalog's.
pub open spec fn username_for(conf: Config, repo: Repo) -> Seq<char> {
    match repo.username {
        Some(u) => u@,
        None => conf.config.default_username@,
    }
}

/// The token a repository authenticates with: its own, else the catalog's.
pub open spec fn token_for(conf: Config, repo: Repo) -> Seq<char> {
    match repo.token {
        Some(t) => t@,
        None => conf.config.default_token@,
    }
}

/// The username and token to put into the remote URL of `repo`.
pub fn credentials(conf: &Config, repo: &Repo) -> (r: (String, String))
    ensures
        r.0@ == username_for(*conf, *repo),
        r.1@ == token_for(*conf, *repo),
{
    let username = match &repo.username {
        Some(u) => u.clone(),
        None => conf.config.default_username.clone(),
    };
    let token = match &repo.token {
        Some(t) => t.clone(),
        None => conf.config.default_token.clone(),
    };
    (username, token)
}

/// The remote URL of `repo` with its credentials as userinfo.
pub fn repo_url(conf: &Config, repo: &Repo) -> (r: Result<String, CustomError>)
    ensures
        r matches Err(CustomError::Parse(_)) <==> !url_parses(repo.name@),
        url_parses(repo.name@) && takes_userinfo(repo.name@) ==> (r matches Ok(s) && s@
            == authed_url(repo.name@, username_for(*conf, *repo), token_for(*conf, *repo))),
        url_parses(repo.name@) && !takes_userinfo(repo.name@) ==> r matches Err(
            CustomError::Credentials,
        ),
{
    let mut parsed = match parse_url(repo.name.as_str()) {
        Ok(u) => u,
        Err(e) => {
            return Err(CustomError::Parse(e));
        },
    };
    let (username, token) = credentials(conf, repo);
    if set_url_username(&mut parsed, username.as_str()).is_err() {
        return Err(CustomError::Credentials);
    }
    if set_url_password(&mut parsed, token.as_str()).is_err() {
        return Err(CustomError::Credentials);
    }
    Ok(url_text(&parsed))
}

/// `i` is the first cataloged repository whose location is `name`.
pub open spec fn is_first_entry(repos: Seq<Repo>, name: Seq<char>, i: int) -> bool {
    &&& 0 <= i < repos.len()
    &&& repos[i].name@ == name
    &&& forall|j: int| 0 <= j < i ==> repos[j].name@ != name
}

/// The first cataloged repository whose location is `name`, if any.
pub open spec fn catalog_index(repos: Seq<Repo>, name: Seq<char>) -> Option<int> {
    if exists|i: int| is_first_entry(repos, name, i) {
        Some(choose|i: int| is_first_entry(repos, name, i))
    } else {
        None
    }
}

/// The branch a clone of `name` realizes, given the typed branch: the typed
/// one, else the cataloged repository's default, else the catalog-wide default.
pub open spec fn chosen_branch(conf: Config, name: Seq<char>, branch: Seq<char>) -> Seq<char> {
    match catalog_index(conf.repos@, name) {
        Some(i) => effective_branch(conf, branch, conf.repos@[i]),
        None => if branch.len() > 0 {
            branch
        } else {
            conf.config.default_branch@
        },
    }
}

/// The username a clone of `name` authenticates with: that of its catalog
/// entry, else the catalog's.
pub open spec fn entry_username(conf: Config, name: Seq<char>) -> Seq<char> {
    match catalog_index(conf.repos@, name) {
        Some(i) => username_for(conf, conf.repos@[i]),
        None => conf.config.default_username@,
    }
}

/// The token a clone of `name` authenticates with: that of its catalog
/// entry, else the catalog's.
pub open spec fn entry_token(conf: Config, name: Seq<char>) -> Seq<char> {
    match catalog_index(conf.repos@, name) {
        Some(i) => token_for(conf, conf.repos@[i]),
        None => conf.config.default_token@,
    }
}

/// Index of the first cataloged repository whose location is `name`.
pub fn find_repo(conf: &Config, name: &String) -> (r: Option<usize>)
    ensures
        match r {
            Some(i) => catalog_index(conf.repos@, name@) == Some(i as int),
            None => catalog_index(conf.repos@, name@) is None,
        },
{
    let mut i: usize = 0;
    while i < conf.repos.len()
        invariant
            i <= conf.repos.len(),
            forall|j: int| 0 <= j < i ==> conf.repos@[j].name@ != name@,
        decreases conf.repos.len() - i,
    {
        if same_text(conf.repos[i].name.as_str(), name.as_str()) {
            assert(is_first_entry(conf.repos@, name@, i as int));
            let ghost c = choose|k: int| is_first_entry(conf.repos@, name@, k);
            assert(c == i) by {
                assert(is_first_entry(conf.repos@, name@, c));
                if c < i {
                    assert(conf.repos@[c].name@ != name@);
                } else if c > i {
                    assert(conf.repos@[i as int].name@ != name@);
                }
            }
            return Some(i);
        }
        i = i + 1;
    }
    assert(!exists|k: int| is_first_entry(conf.repos@, name@, k));
    None
}

/// One version-control operation.
pub enum GitAction {
    /// Clone only `branch` of `url` into `dest`.
    CloneBranch { branch: String, url: String, dest: String },
    /// Clone `url` at its default state into `dest`.
    CloneDefault { url: String, dest: String },
    /// Create and check out the new local branch `branch` in `dest`.
    CheckoutNewBranch { branch: String, dest: String },
}

/// How an operation ended: success, or failure with the tool's error output.
pub enum GitOutcome {
    Success,
    Failure(String),
}

/// Where a clone job stands.
pub enum CloneStep {
    /// The first clone, of the branch or of the base branch, was requested.
    CloneRequested,
    /// That branch is absent upstream; the default state is being cloned.
    FallbackClone,
    /// The absent branch is being created locally.
    FallbackCheckout,
    /// The branch is being created from the base branch.
    BranchCheckout,
    /// Nothing is left to run.
    Done,
}

/// What to do next: run an operation and report its outcome, or stop.
pub enum CloneNext {
    Run(GitAction),
    Finish(Result<String, CustomError>),
}

/// The realization of one branch at one destination.
pub struct CloneJob {
    /// The branch the space is for.
    pub branch: String,
    /// The branch to fork from; empty for none.
    pub base_branch: String,
    /// The authenticated remote URL.
    pub url: String,
    /// The destination path.
    pub dest: String,
    pub step: CloneStep,
}

/// The branch the first clone asks for: the base branch where one is
/// given, else the branch itself.
pub open spec fn first_branch(job: CloneJob) -> Seq<char> {
    if job.base_branch@.len() == 0 {
        job.branch@
    } else {
        job.base_branch@
    }
}

/// The tool reports that the requested branch is absent upstream.
pub open spec fn branch_missing(m: Seq<char>) -> bool {
    occurs_in("Remote branch"@, m) && occurs_in("not found"@, m)
}

/// The tool reports that the destination already exists.
pub open spec fn destination_exists(m: Seq<char>) -> bool {
    occurs_in("already exists"@, m)
}

/// The message of a successful clone.
pub open spec fn success_message(dest: Seq<char>) -> Seq<char> {
    "Cloned into "@ + dest
}

pub open spec fn runs_clone_branch(r: CloneNext, b: Seq<char>, job: CloneJob) -> bool {
    r matches CloneNext::Run(GitAction::CloneBranch { branch, url, dest }) && branch@ == b && url@
        == job.url@ && dest@ == job.dest@
}

pub open spec fn runs_clone_default(r: CloneNext, job: CloneJob) -> bool {
    r matches CloneNext::Run(GitAction::CloneDefault { url, dest }) && url@ == job.url@ && dest@
        == job.dest@
}

pub open spec fn runs_checkout(r: CloneNext, b: Seq<char>, job: CloneJob) -> bool {
    r matches CloneNext::Run(GitAction::CheckoutNewBranch { branch, dest }) && branch@ == b
        && dest@ == job.dest@
}

pub open spec fn finishes_ok(r: CloneNext, job: CloneJob) -> bool {
    r matches CloneNext::Finish(Ok(m)) && m@ == success_message(job.dest@)
}

pub open spec fn fails_with(r: CloneNext, m: Seq<char>) -> bool {
    r matches CloneNext::Finish(Err(CustomError::Tool(e))) && e@ == m
}

/// One step of a clone job: from `job`, after `outcome`, the job moves to
/// `step` and answers `r`.
pub open spec fn clone_transition(
    job: CloneJob,
    outcome: GitOutcome,
    step: CloneStep,
    r: CloneNext,
) -> bool {
    match outcome {
        GitOutcome::Success => match job.step {
            CloneStep::CloneRequested => if job.base_branch@.len() == 0 {
                finishes_ok(r, job) && step is Done
            } else {
                runs_checkout(r, job.branch@, job) && step is BranchCheckout
            },
            CloneStep::FallbackClone => runs_checkout(r, first_branch(job), job)
                && step is FallbackCheckout,
            CloneStep::FallbackCheckout => if job.base_branch@.len() == 0 {
                finishes_ok(r, job) && step is Done
            } else {
                runs_checkout(r, job.branch@, job) && step is BranchCheckout
            },
            _ => finishes_ok(r, job) && step is Done,
        },
        GitOutcome::Failure(m) => if job.step is CloneRequested && branch_missing(m@) {
            runs_clone_default(r, job) && step is FallbackClone
        } else if job.step is CloneRequested && destination_exists(m@) {
            if job.base_branch@.len() == 0 {
                finishes_ok(r, job) && step is Done
            } else {
                runs_checkout(r, job.branch@, job) && step is BranchCheckout
            }
        } else {
            fails_with(r, m@) && step is Done
        },
    }
}

impl CloneJob {
    /// A job that realizes `branch` at `dest`, forked from `base_branch`
    /// where that is not empty.
    pub fn new(branch: String, base_branch: String, url: String, dest: String) -> (r: CloneJob)
        ensures
            r.branch == branch,
            r.base_branch == base_branch,
            r.url == url,
            r.dest == dest,
            r.step is CloneRequested,
    {
        CloneJob { branch, base_branch, url, dest, step: CloneStep::CloneRequested }
    }

    /// The operation that starts the job: a clone of the base branch where
    /// one is given, else of the branch itself.
    pub fn first_action(&self) -> (r: GitAction)
        ensures
            runs_clone_branch(CloneNext::Run(r), first_branch(*self), *self),
    {
        let b = if self.base_branch.unicode_len() == 0 {
            self.branch.clone()
        } else {
            self.base_branch.clone()
        };
        GitAction::CloneBranch { branch: b, url: self.url.clone(), dest: self.dest.clone() }
    }

    fn finished(&mut self) -> (r: CloneNext)
        ensures
            finishes_ok(r, *old(self)),
            final(self).step is Done,
            final(self).branch == old(self).branch,
            final(self).base_branch == old(self).base_branch,
            final(self).url == old(self).url,
            final(self).dest == old(self).dest,
    {
        self.step = CloneStep::Done;
        proof {
            reveal_strlit("Cloned into ");
        }
        CloneNext::Finish(Ok(String::from_str("Cloned into ").concat(self.dest.as_str())))
    }

    fn checkout(&mut self, branch: String, step: CloneStep) -> (r: CloneNext)
        ensures
            runs_checkout(r, branch@, *old(self)),
            final(self).step == step,
            final(self).branch == old(self).branch,
            final(self).base_branch == old(self).base_branch,
            final(self).url == old(self).url,
            final(self).dest == old(self).dest,
    {
        self.step = step;
        CloneNext::Run(GitAction::CheckoutNewBranch { branch, dest: self.dest.clone() })
    }

    /// Takes the outcome of the operation last handed out and says what
    /// comes next.
    ///
    /// A branch that is absent upstream is cloned from the default state and
    /// created locally; a destination that already exists counts as a
    /// successful first clone.
    pub fn advance(&mut self, outcome: GitOutcome) -> (r: CloneNext)
        requires
            !(old(self).step is Done),
        ensures
            clone_transition(*old(self), outcome, final(self).step, r),
            final(self).branch == old(self).branch,
            final(self).base_branch == old(self).base_branch,
            final(self).url == old(self).url,
            final(self).dest == old(self).dest,
    {
        match outcome {
            GitOutcome::Success => match self.step {
                CloneStep::CloneRequested | CloneStep::FallbackCheckout => {
                    if self.base_branch.unicode_len() == 0 {
                        self.finished()
                    } else {
                        let b = self.branch.clone();
                        self.checkout(b, CloneStep::BranchCheckout)
                    }
                },
                CloneStep::FallbackClone => {
                    let b = if self.base_branch.unicode_len() == 0 {
                        self.branch.clone()
                    } else {
                        self.base_branch.clone()
                    };
                    self.checkout(b, CloneStep::FallbackCheckout)
                },
                _ => self.finished(),
            },
            GitOutcome::Failure(m) => {
                proof {
                    reveal_strlit("Remote branch");
                    reveal_strlit("not found");
                    reveal_strlit("already exists");
                }
                let requested = matches!(self.step, CloneStep::CloneRequested);
                if requested && contains_text(m.as_str(), "Remote branch") && contains_text(
                    m.as_str(),
                    "not found",
                ) {
                    self.step = CloneStep::FallbackClone;
                    CloneNext::Run(
                        GitAction::CloneDefault { url: self.url.clone(), dest: self.dest.clone() },
                    )
                } else if requested && contains_text(m.as_str(), "already exists") {
                    if self.base_branch.unicode_len() == 0 {
                        self.finished()
                    } else {
                        let b = self.branch.clone();
                        self.checkout(b, CloneStep::BranchCheckout)
                    }
                } else {
                    self.step = CloneStep::Done;
                    CloneNext::Finish(Err(CustomError::Tool(m)))
                }
            },
        }
    }
}

/// Re-running a clone against a destination that already exists succeeds.
/// Without a base branch nothing further runs, so the existing directory is
/// left as it is; with one, only the creation of the branch follows.
pub proof fn lemma_existing_destination_is_success(
    job: CloneJob,
    m: String,
    step: CloneStep,
    r: CloneNext,
)
    requires
        job.step is CloneRequested,
        destination_exists(m@),
        !branch_missing(m@),
        clone_transition(job, GitOutcome::Failure(m), step, r),
    ensures
        job.base_branch@.len() == 0 ==> finishes_ok(r, job) && step is Done,
        job.base_branch@.len() > 0 ==> runs_checkout(r, job.branch@, job) && step is BranchCheckout,
{
}

/// A branch absent upstream, with no base branch, is realized by a clone of
/// the default state and the creation of the branch, then the job succeeds.
pub proof fn lemma_missing_branch_is_created(
    job: CloneJob,
    m: String,
    s1: CloneStep,
    r1: CloneNext,
    s2: CloneStep,
    r2: CloneNext,
    s3: CloneStep,
    r3: CloneNext,
)
    requires
        job.step is CloneRequested,
        job.base_branch@.len() == 0,
        branch_missing(m@),
        clone_transition(job, GitOutcome::Failure(m), s1, r1),
        clone_transition(CloneJob { step: s1, ..job }, GitOutcome::Success, s2, r2),
        clone_transition(CloneJob { step: s2, ..job }, GitOutcome::Success, s3, r3),
    ensures
        runs_clone_default(r1, job),
        runs_checkout(r2, job.branch@, job),
        finishes_ok(r3, job),
        s3 is Done,
{
}

/// Without a base branch, the first clone is of the branch itself, and when
/// it succeeds the job finishes with a message naming the destination.
pub proof fn lemma_branch_clone_names_destination(job: CloneJob, step: CloneStep, r: CloneNext)
    requires
        job.step is CloneRequested,
        job.base_branch@.len() == 0,
        clone_transition(job, GitOutcome::Success, step, r),
    ensures
        first_branch(job) == job.branch@,
        r matches CloneNext::Finish(Ok(m)) && m@ == "Cloned into "@ + job.dest@,
        step is Done,
{
}

/// With a base branch, the base is cloned, then the branch is created from
/// it, then the job succeeds.
pub proof fn lemma_base_branch_then_branch(
    job: CloneJob,
    s1: CloneStep,
    r1: CloneNext,
    s2: CloneStep,
    r2: CloneNext,
)
    requires
        job.step is CloneRequested,
        job.base_branch@.len() > 0,
        clone_transition(job, GitOutcome::Success, s1, r1),
        clone_transition(CloneJob { step: s1, ..job }, GitOutcome::Success, s2, r2),
    ensures
        first_branch(job) == job.base_branch@,
        runs_checkout(r1, job.branch@, job),
        finishes_ok(r2, job),
        s2 is Done,
{
}

/// Prepares the job that creates the space of repository `name` at
/// `branch`, forked from `base_branch` where that is not empty.
///
/// A location not in the catalog is used as it is, with the catalog-wide
/// defaults.
pub fn prepare_clone(conf: &Config, name: &String, branch: &String, base_branch: &String) -> (r:
    Result<CloneJob, CustomError>)
    ensures
        !has_owner(name@) ==> r matches Err(CustomError::Io(_)),
        has_owner(name@) && !url_parses(name@) ==> r matches Err(CustomError::Parse(_)),
        has_owner(name@) && url_parses(name@) && !takes_userinfo(name@) ==> r matches Err(
            CustomError::Credentials,
        ),
        has_owner(name@) && url_parses(name@) && takes_userinfo(name@) ==> r is Ok,
        r matches Ok(job) ==> {
            &&& job.url@ == authed_url(
                name@,
                entry_username(*conf, name@),
                entry_token(*conf, name@),
            )
            &&& job.branch@ == chosen_branch(*conf, name@, branch@)
            &&& job.base_branch@ == base_branch@
            &&& job.dest@ == space_path_of(
                conf.config.spaces_dir@,
                name@,
                chosen_branch(*conf, name@, branch@),
            )
            &&& job.step is CloneRequested
        },
{
    let fallback = Repo {
        name: name.clone(),
        default_branch: None,
        username: None,
        token: None,
    };
    let found = find_repo(conf, name);
    let repo: &Repo = match found {
        Some(i) => {
            proof {
                let c = choose|k: int| is_first_entry(conf.repos@, name@, k);
                assert(is_first_entry(conf.repos@, name@, c));
                assert(conf.repos@[i as int].name@ == name@);
            }
            &conf.repos[i]
        },
        None => {
            assert(fallback.name@ == name@);
            &fallback
        },
    };
    assert(repo.name@ == name@);
    let branch_name = get_branch_name(conf, branch, repo);
    let dest = match space_path(conf, repo, &branch_name) {
        Ok(p) => p,
        Err(e) => {
            return Err(e);
        },
    };
    let url = match repo_url(conf, repo) {
        Ok(u) => u,
        Err(e) => {
            return Err(e);
        },
    };
    Ok(CloneJob::new(branch_name, base_branch.clone(), url, dest))
}

} // verus!
