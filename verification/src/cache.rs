//! The artifact cache: texts that cannot change once they exist, kept for
//! the life of the process. An entry is written once and never replaced or
//! removed.
use std::collections::HashMap;
use vstd::prelude::*;
use vstd::string::*;

verus! {

broadcast use vstd::std_specs::hash::group_hash_axioms;

/// What an entry is the text of.
#[derive(Debug, Clone, PartialEq, Eq)]
pub enum ArtifactKey {
    /// The diff of a commit, by the commit's identifier.
    CommitDiff(String),
    /// The log of a finished job, by the job's identifier.
    JobLog(u64),
}

/// The model of `ArtifactKey`: texts as sequences of characters, lists as sequences of
/// models.
pub enum ArtifactKeyModel {
    CommitDiff(Seq<char>),
    JobLog(u64),
}

impl View for ArtifactKey {
    type V = ArtifactKeyModel;

    open spec fn view(&self) -> ArtifactKeyModel {
        match self {
            ArtifactKey::CommitDiff(sha) => ArtifactKeyModel::CommitDiff(sha@),
            ArtifactKey::JobLog(id) => ArtifactKeyModel::JobLog(*id),
        }
    }
}

/// What a write makes of the cache: a key that has a text keeps it, a new
/// key gets the text.
pub open spec fn written(
    entries: Map<ArtifactKeyModel, Seq<char>>,
    key: ArtifactKeyModel,
    text: Seq<char>,
) -> Map<ArtifactKeyModel, Seq<char>> {
    if entries.contains_key(key) {
        entries
    } else {
        entries.insert(key, text)
    }
}

/// The cache after a run of writes.
pub open spec fn written_all(
    entries: Map<ArtifactKeyModel, Seq<char>>,
    writes: Seq<(ArtifactKeyModel, Seq<char>)>,
) -> Map<ArtifactKeyModel, Seq<char>>
    decreases writes.len(),
{
    if writes.len() == 0 {
        entries
    } else {
        written(written_all(entries, writes.drop_last()), writes.last().0, writes.last().1)
    }
}

/// What a read returns.
pub open spec fn read(entries: Map<ArtifactKeyModel, Seq<char>>, key: ArtifactKeyModel) -> Option<
    Seq<char>,
> {
    if entries.contains_key(key) {
        Some(entries[key])
    } else {
        None
    }
}

/// Once a key has a text, every later read returns that text, whatever is
/// written in between: nothing has to be fetched a second time, and what
/// comes back is the same to the character.
pub proof fn lemma_entries_stay(
    entries: Map<ArtifactKeyModel, Seq<char>>,
    writes: Seq<(ArtifactKeyModel, Seq<char>)>,
    key: ArtifactKeyModel,
)
    requires
        entries.contains_key(key),
    ensures
        read(written_all(entries, writes), key) == Some(entries[key]),
    decreases writes.len(),
{
    if writes.len() > 0 {
        lemma_entries_stay(entries, writes.drop_last(), key);
    }
}

/// The first write of a key is kept: the read that follows returns its
/// text, and so does every read after any further writes.
pub proof fn lemma_first_write_wins(
    entries: Map<ArtifactKeyModel, Seq<char>>,
    key: ArtifactKeyModel,
    text: Seq<char>,
    writes: Seq<(ArtifactKeyModel, Seq<char>)>,
)
    requires
        !entries.contains_key(key),
    ensures
        read(written(entries, key, text), key) == Some(text),
        read(written_all(written(entries, key, text), writes), key) == Some(text),
{
    lemma_entries_stay(written(entries, key, text), writes, key);
}

/// One kept commit diff.
struct DiffEntry {
    sha: String,
    text: String,
}

/// The map that a list of commit diffs stands for. Of two entries with one
/// identifier the earlier counts.
spec fn diffs_of(entries: Seq<DiffEntry>) -> Map<Seq<char>, Seq<char>>
    decreases entries.len(),
{
    if entries.len() == 0 {
        Map::empty()
    } else {
        let before = diffs_of(entries.drop_last());
        if before.contains_key(entries.last().sha@) {
            before
        } else {
            before.insert(entries.last().sha@, entries.last().text@)
        }
    }
}

proof fn lemma_diffs_absent(entries: Seq<DiffEntry>, sha: Seq<char>)
    requires
        forall|j: int| 0 <= j < entries.len() ==> (#[trigger] entries[j]).sha@ != sha,
    ensures
        !diffs_of(entries).contains_key(sha),
    decreases entries.len(),
{
    if entries.len() > 0 {
        let front = entries.drop_last();
        assert forall|j: int| 0 <= j < front.len() implies (#[trigger] front[j]).sha@ != sha by {
            assert(front[j] == entries[j]);
        }
        lemma_diffs_absent(front, sha);
        assert(entries[entries.len() - 1].sha@ != sha);
    }
}

proof fn lemma_diffs_first(entries: Seq<DiffEntry>, at: int)
    requires
        0 <= at < entries.len(),
        forall|j: int| 0 <= j < at ==> (#[trigger] entries[j]).sha@ != entries[at].sha@,
    ensures
        diffs_of(entries).contains_key(entries[at].sha@),
        diffs_of(entries)[entries[at].sha@] == entries[at].text@,
    decreases entries.len(),
{
    let front = entries.drop_last();
    if at == entries.len() - 1 {
        assert forall|j: int| 0 <= j < front.len() implies (#[trigger] front[j]).sha@
            != entries[at].sha@ by {
            assert(front[j] == entries[j]);
        }
        lemma_diffs_absent(front, entries[at].sha@);
    } else {
        assert(front[at] == entries[at]);
        assert forall|j: int| 0 <= j < at implies (#[trigger] front[j]).sha@ != front[at].sha@ by {
            assert(front[j] == entries[j]);
        }
        lemma_diffs_first(front, at);
    }
}

/// The texts of the artifacts fetched so far.
pub struct ArtifactCache {
    commit_diffs: Vec<DiffEntry>,
    job_logs: HashMap<u64, String>,
}

impl View for ArtifactCache {
    type V = Map<ArtifactKeyModel, Seq<char>>;

    closed spec fn view(&self) -> Map<ArtifactKeyModel, Seq<char>> {
        Map::new(
            |key: ArtifactKeyModel|
                match key {
                    ArtifactKeyModel::CommitDiff(sha) => diffs_of(self.commit_diffs@).contains_key(
                        sha,
                    ),
                    ArtifactKeyModel::JobLog(id) => self.job_logs@.contains_key(id),
                },
            |key: ArtifactKeyModel|
                match key {
                    ArtifactKeyModel::CommitDiff(sha) => diffs_of(self.commit_diffs@)[sha],
                    ArtifactKeyModel::JobLog(id) => self.job_logs@[id]@,
                },
        )
    }
}

/// What the cache says when a text is asked for.
#[derive(Debug, PartialEq, Eq)]
pub enum Lookup {
    /// The text is here; nothing has to be fetched.
    Hit(String),
    /// The text has to be fetched.
    Miss,
}

impl Lookup {
    /// The text of a hit.
    pub open spec fn text(self) -> Option<Seq<char>> {
        match self {
            Lookup::Hit(text) => Some(text@),
            Lookup::Miss => None,
        }
    }
}

impl ArtifactCache {
    /// A cache without entries.
    pub fn new() -> (cache: ArtifactCache)
        ensures
            cache@ == Map::<ArtifactKeyModel, Seq<char>>::empty(),
    {
        let cache = ArtifactCache { commit_diffs: Vec::new(), job_logs: HashMap::new() };
        assert(cache@ =~= Map::<ArtifactKeyModel, Seq<char>>::empty());
        cache
    }

    fn find_diff(&self, sha: &str) -> (r: Option<usize>)
        ensures
            match r {
                Some(at) => at < self.commit_diffs.len() && diffs_of(
                    self.commit_diffs@,
                ).contains_key(sha@) && diffs_of(self.commit_diffs@)[sha@]
                    == self.commit_diffs@[at as int].text@,
                None => !diffs_of(self.commit_diffs@).contains_key(sha@),
            },
    {
        let mut i: usize = 0;
        while i < self.commit_diffs.len()
            invariant
                i <= self.commit_diffs.len(),
                forall|j: int| 0 <= j < i ==> (#[trigger] self.commit_diffs@[j]).sha@ != sha@,
            decreases self.commit_diffs.len() - i,
        {
            if crate::text::str_eq(self.commit_diffs[i].sha.as_str(), sha) {
                proof {
                    lemma_diffs_first(self.commit_diffs@, i as int);
                }
                return Some(i);
            }
            i += 1;
        }
        proof {
            lemma_diffs_absent(self.commit_diffs@, sha@);
        }
        None
    }

    /// The text kept for a key, if there is one.
    pub fn get(&self, key: &ArtifactKey) -> (r: Option<String>)
        ensures
            crate::text::opt_text(r) == read(self@, key@),
    {
        match key {
            ArtifactKey::CommitDiff(sha) => match self.find_diff(sha.as_str()) {
                Some(at) => Some(self.commit_diffs[at].text.clone()),
                None => None,
            },
            ArtifactKey::JobLog(id) => match self.job_logs.get(id) {
                Some(text) => Some(text.clone()),
                None => None,
            },
        }
    }

    /// Says whether the text for a key is here or has to be fetched.
    pub fn lookup(&self, key: &ArtifactKey) -> (r: Lookup)
        ensures
            r.text() == read(self@, key@),
    {
        match self.get(key) {
            Some(text) => Lookup::Hit(text),
            None => Lookup::Miss,
        }
    }

    /// Keeps a text under a key that has none; a key that has a text keeps
    /// it.
    pub fn store(&mut self, key: ArtifactKey, text: String)
        ensures
            final(self)@ == written(old(self)@, key@, text@),
    {
        match key {
            ArtifactKey::CommitDiff(sha) => {
                if self.find_diff(sha.as_str()).is_none() {
                    let ghost before = self.commit_diffs@;
                    self.commit_diffs.push(DiffEntry { sha, text });
                    proof {
                        assert(self.commit_diffs@.drop_last() =~= before);
                        assert(self@ =~= written(old(self)@, key@, text@));
                    }
                }
            },
            ArtifactKey::JobLog(id) => {
                if !self.job_logs.contains_key(&id) {
                    self.job_logs.insert(id, text);
                    assert(self@ =~= written(old(self)@, key@, text@));
                }
            },
        }
    }

    /// Takes in what a fetch after a miss has brought: a text is kept, a
    /// failure is not. Either way the outcome is handed on as it came.
    pub fn complete(&mut self, key: ArtifactKey, outcome: Result<String, String>) -> (r: Result<
        String,
        String,
    >)
        ensures
            r == outcome,
            final(self)@ == (match outcome {
                Ok(text) => written(old(self)@, key@, text@),
                Err(_) => old(self)@,
            }),
    {
        match &outcome {
            Ok(text) => {
                self.store(key, text.clone());
            },
            Err(_) => {},
        }
        outcome
    }

    /// The text for a key: from the cache where it is there, without a call
    /// of `fetch`; else from `fetch`, whose text is kept before it is
    /// returned and whose failure is returned and not kept. `fetch` has to
    /// be callable only where the key has no text: on a hit nothing is
    /// known that would allow a call.
    pub fn get_or_fetch<F: FnOnce() -> Result<String, String>>(
        &mut self,
        key: ArtifactKey,
        fetch: F,
    ) -> (r: Result<String, String>)
        requires
            !old(self)@.contains_key(key@) ==> fetch.requires(()),
        ensures
            old(self)@.contains_key(key@) ==> final(self)@ == old(self)@ && (r matches Ok(text)
                && text@ == old(self)@[key@]),
            !old(self)@.contains_key(key@) ==> fetch.ensures((), r) && final(self)@ == (match r {
                Ok(text) => old(self)@.insert(key@, text@),
                Err(_) => old(self)@,
            }),
    {
        match self.get(&key) {
            Some(text) => Ok(text),
            None => {
                let outcome = fetch();
                self.complete(key, outcome)
            },
        }
    }
}

} // verus!
