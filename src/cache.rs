use vstd::prelude::*;
use crate::format::FileId;

verus! {

/// The abstract state of a cache: the decrypted bytes stored per file, and the files whose
/// population some caller has claimed and not yet completed.
pub type CacheState = (Map<FileId, Seq<u8>>, Set<FileId>);

/// What a claim on a file tells its caller.
#[derive(Clone, Debug)]
pub enum Claim {
    /// The bytes are cached: use them.
    Hit(Vec<u8>),
    /// The caller must populate the entry, then fulfil or abandon its claim.
    Populate,
    /// Another caller is populating the entry: wait for it, then claim again.
    Wait,
}

/// The kind of a claim's answer.
#[derive(Clone, Copy, Debug, PartialEq, Eq, Structural)]
pub enum ClaimKind {
    Hit,
    Populate,
    Wait,
}

pub open spec fn claim_kind(c: Claim) -> ClaimKind {
    match c {
        Claim::Hit(_) => ClaimKind::Hit,
        Claim::Populate => ClaimKind::Populate,
        Claim::Wait => ClaimKind::Wait,
    }
}

/// The answer to a claim on `f` in state `s`.
pub open spec fn claim_answer(s: CacheState, f: FileId) -> ClaimKind {
    if s.0.contains_key(f) {
        ClaimKind::Hit
    } else if s.1.contains(f) {
        ClaimKind::Wait
    } else {
        ClaimKind::Populate
    }
}

/// The state after a claim on `f`: a granted population is recorded as in flight.
pub open spec fn after_claim(s: CacheState, f: FileId) -> CacheState {
    if claim_answer(s, f) == ClaimKind::Populate {
        (s.0, s.1.insert(f))
    } else {
        s
    }
}

/// The state after `v` is delivered for `f`: stored unless an entry exists, and no longer in flight.
pub open spec fn after_fulfil(s: CacheState, f: FileId, v: Seq<u8>) -> CacheState {
    (if s.0.contains_key(f) {
        s.0
    } else {
        s.0.insert(f, v)
    }, s.1.remove(f))
}

/// The state after a population of `f` failed: no longer in flight, nothing stored.
pub open spec fn after_abandon(s: CacheState, f: FileId) -> CacheState {
    (s.0, s.1.remove(f))
}

/// What a populate function delivered, over views.
pub open spec fn produced<E>(r: Result<Vec<u8>, E>) -> Option<Seq<u8>> {
    match r {
        Ok(v) => Some(v@),
        Err(_) => None,
    }
}

/// The result of `get_or_insert_with` on `f` in state `s`, where populating would deliver `p`.
pub open spec fn lookup_or(s: CacheState, f: FileId, p: Option<Seq<u8>>) -> Option<Seq<u8>> {
    if s.0.contains_key(f) {
        Some(s.0[f])
    } else {
        p
    }
}

/// The state after `get_or_insert_with` on `f` in state `s`, where populating delivered `p`.
pub open spec fn stored_or(s: CacheState, f: FileId, p: Option<Seq<u8>>) -> CacheState {
    if s.0.contains_key(f) {
        s
    } else {
        match p {
            Some(v) => (s.0.insert(f, v), s.1),
            None => s,
        }
    }
}

/// One step that a caller holding the cache may take on a single file.
pub enum CacheOp {
    Claim,
    Fulfil(Seq<u8>),
    Abandon,
}

/// How many of the claims in `ops`, applied from `s` to file `f`, grant a population.
pub open spec fn populations(s: CacheState, f: FileId, ops: Seq<CacheOp>) -> nat
    decreases ops.len(),
{
    if ops.len() == 0 {
        0
    } else {
        match ops[0] {
            CacheOp::Claim => (if claim_answer(s, f) == ClaimKind::Populate {
                1nat
            } else {
                0nat
            }) + populations(after_claim(s, f), f, ops.drop_first()),
            CacheOp::Fulfil(v) => populations(after_fulfil(s, f, v), f, ops.drop_first()),
            CacheOp::Abandon => populations(after_abandon(s, f), f, ops.drop_first()),
        }
    }
}

/// The first entry stored for `f`.
pub open spec fn find(entries: Seq<(FileId, Vec<u8>)>, f: FileId) -> Option<Seq<u8>>
    decreases entries.len(),
{
    if entries.len() == 0 {
        None
    } else if entries[0].0 == f {
        Some(entries[0].1@)
    } else {
        find(entries.drop_first(), f)
    }
}

proof fn lemma_push_contains<T>(s: Seq<T>, a: T, y: T)
    ensures
        s.push(a).contains(y) <==> (s.contains(y) || y == a),
{
    if s.contains(y) {
        let k = choose|k: int| 0 <= k < s.len() && s[k] == y;
        assert(s.push(a)[k] == y);
    }
    if y == a {
        assert(s.push(a)[s.len() as int] == y);
    }
    if s.push(a).contains(y) {
        let k = choose|k: int| 0 <= k < s.len() + 1 && s.push(a)[k] == y;
        if k < s.len() {
            assert(s[k] == y);
        }
    }
}

proof fn lemma_find_push(entries: Seq<(FileId, Vec<u8>)>, x: (FileId, Vec<u8>), f: FileId)
    ensures
        find(entries.push(x), f) == if find(entries, f) is Some {
            find(entries, f)
        } else if x.0 == f {
            Some(x.1@)
        } else {
            None
        },
    decreases entries.len(),
{
    let pushed = entries.push(x);
    assert(pushed[0] == if entries.len() > 0 {
        entries[0]
    } else {
        x
    });
    if entries.len() > 0 {
        assert(pushed.drop_first() =~= entries.drop_first().push(x));
        lemma_find_push(entries.drop_first(), x, f);
        if entries[0].0 != f {
            assert(find(pushed, f) == find(pushed.drop_first(), f));
            assert(find(entries, f) == find(entries.drop_first(), f));
        }
    } else {
        assert(pushed.drop_first() =~= Seq::<(FileId, Vec<u8>)>::empty());
        assert(find(entries, f) is None);
        assert(find(pushed.drop_first(), f) is None);
    }
}

/// Decrypted audio per file, never evicted. Each file is populated at most once while
/// callers follow the claim protocol: `claim`, then `fulfil` or `abandon` after `Populate`.
pub struct ContentCache {
    entries: Vec<(FileId, Vec<u8>)>,
    pending: Vec<FileId>,
}

impl ContentCache {
    pub closed spec fn stored(&self) -> Map<FileId, Seq<u8>> {
        Map::new(|f: FileId| find(self.entries@, f) is Some, |f: FileId| find(self.entries@, f)->0)
    }

    pub closed spec fn in_flight(&self) -> Set<FileId> {
        Set::new(|f: FileId| self.pending@.contains(f))
    }

    /// The abstract state of the cache.
    pub open spec fn model(&self) -> CacheState {
        (self.stored(), self.in_flight())
    }

    /// An empty cache.
    pub fn new() -> (r: ContentCache)
        ensures
            r.model().0 == Map::<FileId, Seq<u8>>::empty(),
            r.model().1 == Set::<FileId>::empty(),
    {
        let r = ContentCache { entries: Vec::new(), pending: Vec::new() };
        assert(r.stored() =~= Map::<FileId, Seq<u8>>::empty());
        assert(r.in_flight() =~= Set::<FileId>::empty());
        r
    }

    fn lookup(&self, file: FileId) -> (r: Option<&Vec<u8>>)
        ensures
            match r {
                Some(v) => find(self.entries@, file) == Some(v@),
                None => find(self.entries@, file) is None,
            },
    {
        let mut i: usize = 0;
        assert(self.entries@.subrange(0, self.entries@.len() as int) =~= self.entries@);
        while i < self.entries.len()
            invariant
                0 <= i <= self.entries@.len(),
                find(self.entries@, file) == find(
                    self.entries@.subrange(i as int, self.entries@.len() as int),
                    file,
                ),
            decreases self.entries@.len() - i,
        {
            let ghost rest = self.entries@.subrange(i as int, self.entries@.len() as int);
            if self.entries[i].0 == file {
                return Some(&self.entries[i].1);
            }
            assert(rest.drop_first() =~= self.entries@.subrange(
                i + 1,
                self.entries@.len() as int,
            ));
            i = i + 1;
        }
        None
    }

    /// A copy of the bytes cached for `file`.
    pub fn get(&self, file: FileId) -> (r: Option<Vec<u8>>)
        ensures
            match r {
                Some(v) => self.model().0.contains_key(file) && v@ == self.model().0[file],
                None => !self.model().0.contains_key(file),
            },
    {
        match self.lookup(file) {
            Some(v) => {
                let c = v.clone();
                assert(c@ =~= v@);
                Some(c)
            },
            None => None,
        }
    }

    fn store(&mut self, file: FileId, bytes: Vec<u8>)
        requires
            !old(self).model().0.contains_key(file),
        ensures
            final(self).model().0 == old(self).model().0.insert(file, bytes@),
            final(self).model().1 == old(self).model().1,
    {
        let ghost before = self.entries@;
        self.entries.push((file, bytes));
        proof {
            assert forall|f: FileId| #[trigger] find(self.entries@, f) == (if f == file {
                Some(bytes@)
            } else {
                find(before, f)
            }) by {
                lemma_find_push(before, (file, bytes), f);
            }
            assert(self.stored() =~= old(self).stored().insert(file, bytes@));
            assert(self.in_flight() =~= old(self).in_flight());
        }
    }

    fn is_pending(&self, file: FileId) -> (r: bool)
        ensures
            r == self.model().1.contains(file),
    {
        let mut i: usize = 0;
        while i < self.pending.len()
            invariant
                0 <= i <= self.pending@.len(),
                forall|j: int| 0 <= j < i ==> self.pending@[j] != file,
            decreases self.pending@.len() - i,
        {
            if self.pending[i] == file {
                assert(self.pending@.contains(file));
                return true;
            }
            i = i + 1;
        }
        false
    }

    fn unclaim(&mut self, file: FileId)
        ensures
            final(self).model().0 == old(self).model().0,
            final(self).model().1 == old(self).model().1.remove(file),
    {
        let mut kept: Vec<FileId> = Vec::new();
        let mut i: usize = 0;
        while i < self.pending.len()
            invariant
                0 <= i <= self.pending@.len(),
                forall|y: FileId| #[trigger] kept@.contains(y) <==> (y != file
                    && self.pending@.subrange(0, i as int).contains(y)),
            decreases self.pending@.len() - i,
        {
            let x = self.pending[i];
            let ghost before = kept@;
            if !(x == file) {
                kept.push(x);
            }
            proof {
                assert(self.pending@.subrange(0, i + 1) =~= self.pending@.subrange(0, i as int).push(x));
                assert forall|y: FileId| #[trigger] kept@.contains(y) <==> (y != file
                    && self.pending@.subrange(0, i + 1).contains(y)) by {
                    lemma_push_contains(self.pending@.subrange(0, i as int), x, y);
                    if x != file {
                        lemma_push_contains(before, x, y);
                    }
                }
            }
            i = i + 1;
        }
        assert(self.pending@.subrange(0, self.pending@.len() as int) =~= self.pending@);
        self.pending = kept;
        assert(self.in_flight() =~= old(self).in_flight().remove(file));
        assert(self.stored() =~= old(self).stored());
    }

    /// Asks to use or populate the entry of `file`: a hit hands out the cached bytes; else
    /// the first caller is told to populate it and every later one to wait until it is done.
    pub fn claim(&mut self, file: FileId) -> (r: Claim)
        ensures
            claim_kind(r) == claim_answer(old(self).model(), file),
            r matches Claim::Hit(v) ==> v@ == old(self).model().0[file],
            final(self).model() == after_claim(old(self).model(), file),
    {
        match self.get(file) {
            Some(v) => Claim::Hit(v),
            None => {
                if self.is_pending(file) {
                    Claim::Wait
                } else {
                    let ghost before = self.pending@;
                    self.pending.push(file);
                    proof {
                        assert forall|y: FileId| self.pending@.contains(y) <==> (before.contains(y) || y == file) by {
                            lemma_push_contains(before, file, y);
                        }
                    }
                    assert(self.in_flight() =~= old(self).in_flight().insert(file));
                    assert(self.stored() =~= old(self).stored());
                    Claim::Populate
                }
            },
        }
    }

    /// Completes a population of `file` with its decrypted bytes. An entry that exists is kept.
    pub fn fulfil(&mut self, file: FileId, bytes: Vec<u8>)
        ensures
            final(self).model() == after_fulfil(old(self).model(), file, bytes@),
    {
        if self.lookup(file).is_none() {
            self.store(file, bytes);
        }
        self.unclaim(file);
    }

    /// Gives up a population of `file` that failed, so that a later claim may try again.
    pub fn abandon(&mut self, file: FileId)
        ensures
            final(self).model() == after_abandon(old(self).model(), file),
    {
        self.unclaim(file);
    }

    /// The bytes cached for `file`; on a miss, runs `populate` and caches what it delivers.
    /// On a hit `populate` is not run: the result is the cached bytes whatever it would give.
    pub fn get_or_insert_with<E, F: FnOnce() -> Result<Vec<u8>, E>>(
        &mut self,
        file: FileId,
        populate: F,
    ) -> (r: Result<Vec<u8>, E>)
        requires
            !old(self).model().0.contains_key(file) ==> populate.requires(()),
        ensures
            old(self).model().0.contains_key(file) ==> (r is Ok && produced(r) == Some(
                old(self).model().0[file],
            )),
            produced(r) == lookup_or(old(self).model(), file, produced(r)),
            !old(self).model().0.contains_key(file) ==> populate.ensures((), r),
            final(self).model() == stored_or(old(self).model(), file, produced(r)),
    {
        match self.get(file) {
            Some(v) => Ok(v),
            None => {
                let r = populate();
                match r {
                    Ok(v) => {
                        let c = v.clone();
                        assert(c@ =~= v@);
                        self.store(file, c);
                        Ok(v)
                    },
                    Err(e) => Err(e),
                }
            },
        }
    }
}

/// A second `get_or_insert_with` on a file whose first call succeeded is a hit: it returns the
/// same bytes and leaves the cache as it is, whatever its populate function would deliver.
pub proof fn lemma_get_or_insert_idempotent(
    s: CacheState,
    f: FileId,
    first: Option<Seq<u8>>,
    second: Option<Seq<u8>>,
)
    requires
        lookup_or(s, f, first) is Some,
    ensures
        stored_or(s, f, first).0.contains_key(f),
        lookup_or(stored_or(s, f, first), f, second) == lookup_or(s, f, first),
        stored_or(stored_or(s, f, first), f, second) == stored_or(s, f, first),
{
}

proof fn lemma_no_population_once_claimed(s: CacheState, f: FileId, ops: Seq<CacheOp>)
    requires
        s.0.contains_key(f) || s.1.contains(f),
        forall|i: int| 0 <= i < ops.len() ==> !(ops[i] is Abandon),
    ensures
        populations(s, f, ops) == 0,
    decreases ops.len(),
{
    if ops.len() > 0 {
        let rest = ops.drop_first();
        assert forall|i: int| 0 <= i < rest.len() implies !(rest[i] is Abandon) by {
            assert(rest[i] == ops[i + 1]);
        }
        match ops[0] {
            CacheOp::Claim => lemma_no_population_once_claimed(after_claim(s, f), f, rest),
            CacheOp::Fulfil(v) => lemma_no_population_once_claimed(after_fulfil(s, f, v), f, rest),
            CacheOp::Abandon => {
                assert(ops[0] is Abandon);
            },
        }
    }
}

/// However claims and fulfilments of one file interleave, as long as no population is
/// abandoned at most one claim grants a population; from a cache that neither holds nor
/// awaits the file, a first claim grants exactly one.
pub proof fn lemma_one_population_per_file(s: CacheState, f: FileId, ops: Seq<CacheOp>)
    requires
        forall|i: int| 0 <= i < ops.len() ==> !(ops[i] is Abandon),
    ensures
        populations(s, f, ops) <= 1,
        !s.0.contains_key(f) && !s.1.contains(f) && ops.len() > 0 && ops[0] is Claim
            ==> populations(s, f, ops) == 1,
{
    if ops.len() > 0 {
        let rest = ops.drop_first();
        assert forall|i: int| 0 <= i < rest.len() implies !(rest[i] is Abandon) by {
            assert(rest[i] == ops[i + 1]);
        }
        match ops[0] {
            CacheOp::Claim => {
                lemma_no_population_once_claimed(after_claim(s, f), f, rest);
            },
            CacheOp::Fulfil(v) => {
                lemma_no_population_once_claimed(after_fulfil(s, f, v), f, rest);
            },
            CacheOp::Abandon => {
                assert(ops[0] is Abandon);
            },
        }
    }
}

} // verus!
