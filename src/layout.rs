use vstd::prelude::*;

use crate::config::{Config, Repo};
use crate::error::CustomError;
use crate::text::{ends_with, has_suffix};

verus! {

/// `i` is the position of the last `/` of `s`.
pub open spec fn is_last_slash(s: Seq<char>, i: int) -> bool {
    &&& 0 <= i < s.len()
    &&& s[i] == '/'
    &&& forall|j: int| i < j < s.len() ==> s[j] != '/'
}

/// `s` holds no `/`.
pub open spec fn no_slash(s: Seq<char>) -> bool {
    forall|j: int| 0 <= j < s.len() ==> s[j] != '/'
}

/// `s` holds no `-`.
pub open spec fn no_dash(s: Seq<char>) -> bool {
    forall|j: int| 0 <= j < s.len() ==> s[j] != '-'
}

/// Position of the last `/` of `s`, or -1 where there is none.
pub open spec fn last_slash(s: Seq<char>) -> int {
    if exists|i: int| is_last_slash(s, i) {
        choose|i: int| is_last_slash(s, i)
    } else {
        -1
    }
}

/// The final `/`-delimited segment of `s`.
pub open spec fn final_segment(s: Seq<char>) -> Seq<char> {
    s.subrange(last_slash(s) + 1, s.len() as int)
}

/// Everything before the last `/` of `s`.
pub open spec fn before_final_segment(s: Seq<char>) -> Seq<char> {
    s.subrange(0, if last_slash(s) < 0 { 0 } else { last_slash(s) })
}

/// The location has an owner segment in front of its repository segment.
pub open spec fn has_owner(location: Seq<char>) -> bool {
    last_slash(location) >= 0
}

/// The owner: the segment before the repository segment.
pub open spec fn owner_of(location: Seq<char>) -> Seq<char> {
    final_segment(before_final_segment(location))
}

/// The short repository name: the final segment without a trailing `.git`.
pub open spec fn short_name_of(location: Seq<char>) -> Seq<char> {
    let seg = final_segment(location);
    if ends_with(seg, seq!['.', 'g', 'i', 't']) {
        seg.subrange(0, seg.len() - 4)
    } else {
        seg
    }
}

/// The directory name of a space: `<repoShortName>-<branch>`.
pub open spec fn space_name_of(location: Seq<char>, branch: Seq<char>) -> Seq<char> {
    short_name_of(location) + seq!['-'] + branch
}

/// The destination of a space: `<spacesRoot>/<owner>/<repoShortName>-<branch>`.
pub open spec fn space_path_of(root: Seq<char>, location: Seq<char>, branch: Seq<char>) -> Seq<
    char,
> {
    root + seq!['/'] + owner_of(location) + seq!['/'] + space_name_of(location, branch)
}

/// The branch a clone uses: the typed one, else the repository's default,
/// else the catalog-wide default.
pub open spec fn effective_branch(conf: Config, branch: Seq<char>, repo: Repo) -> Seq<char> {
    if branch.len() > 0 {
        branch
    } else {
        match repo.default_branch {
            Some(d) => d@,
            None => conf.config.default_branch@,
        }
    }
}

proof fn lemma_last_slash_unique(s: Seq<char>, i: int)
    requires
        is_last_slash(s, i),
    ensures
        last_slash(s) == i,
{
    let c = choose|j: int| is_last_slash(s, j);
    assert(is_last_slash(s, c));
    if c < i {
        assert(s[i] != '/');
    } else if c > i {
        assert(s[c] != '/');
    }
}

/// Position of the last `/` of `s`, if any.
fn find_last_slash(s: &str) -> (r: Option<usize>)
    ensures
        match r {
            Some(i) => last_slash(s@) == i && is_last_slash(s@, i as int),
            None => last_slash(s@) == -1 && no_slash(s@),
        },
{
    let n = s.unicode_len();
    let mut i: usize = n;
    while i > 0
        invariant
            n == s@.len(),
            i <= n,
            forall|j: int| i <= j < n ==> s@[j] != '/',
        decreases i,
    {
        if s.get_char(i - 1) == '/' {
            proof {
                lemma_last_slash_unique(s@, i - 1);
            }
            return Some(i - 1);
        }
        i = i - 1;
    }
    assert(!exists|j: int| is_last_slash(s@, j));
    None
}

/// The final `/`-delimited segment of `s`.
fn final_segment_text(s: &str) -> (r: &str)
    ensures
        r@ == final_segment(s@),
        no_slash(r@),
{
    let n = s.unicode_len();
    match find_last_slash(s) {
        Some(i) => s.substring_char(i + 1, n),
        None => s.substring_char(0, n),
    }
}

/// The short repository name of a location: its final segment without a
/// trailing `.git`.
pub fn repo_short_name(location: &str) -> (r: String)
    ensures
        r@ == short_name_of(location@),
        no_slash(r@),
{
    let seg = final_segment_text(location);
    if has_suffix(seg, ".git") {
        proof {
            reveal_strlit(".git");
        }
        assert(".git"@ =~= seq!['.', 'g', 'i', 't']);
        let n = seg.unicode_len();
        String::from_str(seg.substring_char(0, n - 4))
    } else {
        proof {
            reveal_strlit(".git");
        }
        assert(".git"@ =~= seq!['.', 'g', 'i', 't']);
        String::from_str(seg)
    }
}

/// The owner segment of a location, where it has one.
pub fn location_owner(location: &str) -> (r: Option<String>)
    ensures
        r is Some <==> has_owner(location@),
        r matches Some(o) ==> (o@ == owner_of(location@) && no_slash(o@)),
{
    match find_last_slash(location) {
        Some(i) => {
            let head = location.substring_char(0, i);
            assert(head@ == before_final_segment(location@));
            Some(String::from_str(final_segment_text(head)))
        },
        None => None,
    }
}

/// The directory name of the space of `location` at `branch`.
pub fn space_name(location: &str, branch: &str) -> (r: String)
    ensures
        r@ == space_name_of(location@, branch@),
{
    proof {
        reveal_strlit("-");
    }
    repo_short_name(location).concat("-").concat(branch)
}

/// Where the space of `repo` at `branch` lives under the spaces root.
///
/// A location without an owner segment has no destination.
pub fn space_path(conf: &Config, repo: &Repo, branch: &String) -> (r: Result<String, CustomError>)
    ensures
        has_owner(repo.name@) ==> (r matches Ok(p) && p@ == space_path_of(
            conf.config.spaces_dir@,
            repo.name@,
            branch@,
        )),
        !has_owner(repo.name@) ==> (r matches Err(CustomError::Io(m)) && m@
            == "Destination path not found"@),
{
    match location_owner(repo.name.as_str()) {
        Some(owner) => {
            proof {
                reveal_strlit("/");
            }
            let name = space_name(repo.name.as_str(), branch.as_str());
            let p = conf.config.spaces_dir.clone().concat("/").concat(owner.as_str()).concat(
                "/",
            ).concat(name.as_str());
            Ok(p)
        },
        None => Err(CustomError::Io(String::from_str("Destination path not found"))),
    }
}

/// The branch to clone: `branch` where it is not empty, else the
/// repository's default branch, else the catalog-wide default.
pub fn get_branch_name(conf: &Config, branch: &String, repo: &Repo) -> (r: String)
    ensures
        r@ == effective_branch(*conf, branch@, *repo),
{
    if branch.unicode_len() > 0 {
        branch.clone()
    } else {
        match &repo.default_branch {
            Some(d) => d.clone(),
            None => conf.config.default_branch.clone(),
        }
    }
}

proof fn lemma_some_last_slash(s: Seq<char>, j: int)
    requires
        0 <= j < s.len(),
        s[j] == '/',
    ensures
        exists|i: int| is_last_slash(s, i),
    decreases s.len() - j,
{
    if exists|k: int| j < k < s.len() && s[k] == '/' {
        let k = choose|k: int| j < k < s.len() && s[k] == '/';
        lemma_some_last_slash(s, k);
    } else {
        assert(is_last_slash(s, j));
    }
}

/// The final segment of any text holds no `/`.
pub proof fn lemma_final_segment_no_slash(s: Seq<char>)
    ensures
        no_slash(final_segment(s)),
{
    if exists|i: int| is_last_slash(s, i) {
        let i = choose|i: int| is_last_slash(s, i);
        assert(is_last_slash(s, i));
    } else {
        assert forall|j: int| 0 <= j < s.len() implies s[j] != '/' by {
            if s[j] == '/' {
                lemma_some_last_slash(s, j);
            }
        }
    }
}

proof fn lemma_split_at_separator(
    a1: Seq<char>,
    b1: Seq<char>,
    a2: Seq<char>,
    b2: Seq<char>,
    c: char,
)
    requires
        a1 + seq![c] + b1 == a2 + seq![c] + b2,
        forall|j: int| 0 <= j < a1.len() ==> a1[j] != c,
        forall|j: int| 0 <= j < a2.len() ==> a2[j] != c,
    ensures
        a1 == a2,
        b1 == b2,
{
    let s = a1 + seq![c] + b1;
    let t = a2 + seq![c] + b2;
    if a1.len() < a2.len() {
        assert(s[a1.len() as int] == c);
        assert(t[a1.len() as int] == a2[a1.len() as int]);
    } else if a1.len() > a2.len() {
        assert(t[a2.len() as int] == c);
        assert(s[a2.len() as int] == a1[a2.len() as int]);
    }
    assert(a1 =~= s.subrange(0, a1.len() as int));
    assert(a2 =~= t.subrange(0, a2.len() as int));
    assert(b1 =~= s.subrange(a1.len() as int + 1, s.len() as int));
    assert(b2 =~= t.subrange(a2.len() as int + 1, t.len() as int));
}

/// Destinations never collide: under one spaces root, two locations that
/// have an owner, at two branches, share a destination only when owner,
/// short repository name and branch all agree. Short names that differ must
/// hold no `-`, which would blur where the name ends and the branch begins.
pub proof fn lemma_space_paths_distinct(
    root: Seq<char>,
    loc1: Seq<char>,
    branch1: Seq<char>,
    loc2: Seq<char>,
    branch2: Seq<char>,
)
    requires
        has_owner(loc1),
        has_owner(loc2),
        short_name_of(loc1) == short_name_of(loc2) || (no_dash(short_name_of(loc1)) && no_dash(
            short_name_of(loc2),
        )),
        space_path_of(root, loc1, branch1) == space_path_of(root, loc2, branch2),
    ensures
        owner_of(loc1) == owner_of(loc2),
        short_name_of(loc1) == short_name_of(loc2),
        branch1 == branch2,
{
    let o1 = owner_of(loc1);
    let o2 = owner_of(loc2);
    let n1 = short_name_of(loc1);
    let n2 = short_name_of(loc2);
    let rest1 = n1 + seq!['-'] + branch1;
    let rest2 = n2 + seq!['-'] + branch2;
    let p1 = space_path_of(root, loc1, branch1);
    let p2 = space_path_of(root, loc2, branch2);
    let tail1 = o1 + seq!['/'] + rest1;
    let tail2 = o2 + seq!['/'] + rest2;
    assert(p1 =~= root + seq!['/'] + tail1);
    assert(p2 =~= root + seq!['/'] + tail2);
    assert(tail1 =~= p1.subrange(root.len() as int + 1, p1.len() as int));
    assert(tail2 =~= p2.subrange(root.len() as int + 1, p2.len() as int));
    lemma_final_segment_no_slash(before_final_segment(loc1));
    lemma_final_segment_no_slash(before_final_segment(loc2));
    lemma_split_at_separator(o1, rest1, o2, rest2, '/');
    if n1 == n2 {
        assert(branch1 =~= rest1.subrange(n1.len() as int + 1, rest1.len() as int));
        assert(branch2 =~= rest2.subrange(n2.len() as int + 1, rest2.len() as int));
    } else {
        lemma_split_at_separator(n1, branch1, n2, branch2, '-');
    }
}

/// Destinations are a function of their inputs: equal spaces roots,
/// locations and branches give equal destinations.
pub proof fn lemma_space_path_deterministic(
    root1: Seq<char>,
    loc1: Seq<char>,
    branch1: Seq<char>,
    root2: Seq<char>,
    loc2: Seq<char>,
    branch2: Seq<char>,
)
    requires
        root1 == root2,
        loc1 == loc2,
        branch1 == branch2,
    ensures
        space_path_of(root1, loc1, branch1) == space_path_of(root2, loc2, branch2),
{
}

} // verus!
