use vstd::prelude::*;

use crate::text::same_text;

verus! {

/// Catalog-wide settings.
#[derive(Debug, Clone)]
pub struct SpaceConfig {
    /// Root directory under which every space lives.
    pub spaces_dir: String,
    /// Branch used when neither the user nor the repository names one.
    pub default_branch: String,
    pub default_username: String,
    pub default_token: String,
}

/// One cataloged repository, with its optional overrides.
#[derive(Debug, Clone)]
pub struct Repo {
    /// Location of the repository, `.../<owner>/<name>` with an optional `.git`.
    pub name: String,
    pub default_branch: Option<String>,
    pub username: Option<String>,
    pub token: Option<String>,
}

/// The space directories found under one owner directory.
#[derive(Debug, Clone)]
pub struct OwnerSpaces {
    pub owner: String,
    pub spaces: Vec<String>,
}

/// The repository catalog together with the index of existing spaces.
///
/// The index behaves as a map from owner to space names: when an owner
/// occurs more than once, its last entry is the one that counts.
#[derive(Debug, Clone)]
pub struct Config {
    pub config: SpaceConfig,
    pub repos: Vec<Repo>,
    pub current_spaces: Vec<OwnerSpaces>,
}

/// The space names recorded for `owner` in `entries` (last entry wins).
pub open spec fn spaces_of(entries: Seq<OwnerSpaces>, owner: Seq<char>) -> Seq<String>
    decreases entries.len(),
{
    if entries.len() == 0 {
        Seq::empty()
    } else if entries.last().owner@ == owner {
        entries.last().spaces@
    } else {
        spaces_of(entries.drop_last(), owner)
    }
}

/// The branch used when the configuration names none.
pub fn master() -> (r: String)
    ensures
        r@ == "master"@,
{
    String::from_str("master")
}

impl Config {
    /// Index of the entry that holds the spaces of `owner`, if any.
    pub fn owner_entry(&self, owner: &str) -> (r: Option<usize>)
        ensures
            match r {
                Some(i) => i < self.current_spaces.len() && self.current_spaces@[i as int].owner@
                    == owner@ && spaces_of(self.current_spaces@, owner@)
                    == self.current_spaces@[i as int].spaces@,
                None => spaces_of(self.current_spaces@, owner@) == Seq::<String>::empty(),
            },
    {
        let mut i: usize = self.current_spaces.len();
        assert(self.current_spaces@.subrange(0, i as int) =~= self.current_spaces@);
        while i > 0
            invariant
                i <= self.current_spaces.len(),
                spaces_of(self.current_spaces@, owner@) == spaces_of(
                    self.current_spaces@.subrange(0, i as int),
                    owner@,
                ),
            decreases i,
        {
            let ghost prefix = self.current_spaces@.subrange(0, i as int);
            assert(prefix.drop_last() =~= self.current_spaces@.subrange(0, i - 1));
            assert(prefix.last() == self.current_spaces@[i - 1]);
            let e = &self.current_spaces[i - 1];
            if same_text(e.owner.as_str(), owner) {
                assert(e.owner@ == owner@);
                return Some(i - 1);
            }
            i = i - 1;
        }
        None
    }

    /// Records the spaces found under `owner`, replacing what was recorded before.
    pub fn record_spaces(&mut self, owner: String, spaces: Vec<String>)
        ensures
            final(self).config == old(self).config,
            final(self).repos == old(self).repos,
            spaces_of(final(self).current_spaces@, owner@) == spaces@,
            forall|o: Seq<char>|
                o != owner@ ==> #[trigger] spaces_of(final(self).current_spaces@, o) == spaces_of(
                    old(self).current_spaces@,
                    o,
                ),
    {
        let ghost before = self.current_spaces@;
        let ghost key = owner@;
        let ghost list = spaces@;
        self.current_spaces.push(OwnerSpaces { owner, spaces });
        assert(self.current_spaces@.drop_last() =~= before);
        assert(spaces_of(self.current_spaces@, key) == list);
    }
}

} // verus!
