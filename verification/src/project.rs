//! The project panel's list of files opened this session.
//!
//! Newest first, each name at most once, at most `RECENT_LIMIT` names.

use vstd::prelude::*;

verus! {

/// How many recently opened files the panel remembers.
pub const RECENT_LIMIT: usize = 10;

/// The names of the files opened this session, newest first.
pub struct RecentFiles {
    names: Vec<String>,
}

/// No name occurs twice.
pub open spec fn no_duplicates(s: Seq<Seq<char>>) -> bool {
    forall|i: int, j: int| 0 <= i < j < s.len() ==> s[i] != s[j]
}

/// The list after `name` has been opened: unchanged if the name is
/// already listed, else the name in front and the oldest dropped
/// beyond the limit.
pub open spec fn recorded(s: Seq<Seq<char>>, name: Seq<char>) -> Seq<Seq<char>> {
    if s.contains(name) {
        s
    } else {
        let t = seq![name] + s;
        if t.len() <= RECENT_LIMIT {
            t
        } else {
            t.subrange(0, RECENT_LIMIT as int)
        }
    }
}

impl View for RecentFiles {
    type V = Seq<Seq<char>>;

    closed spec fn view(&self) -> Seq<Seq<char>> {
        self.names@.map_values(|n: String| n@)
    }
}

impl RecentFiles {
    /// The invariant of the list: no duplicate names, within the limit.
    pub open spec fn wf(&self) -> bool {
        &&& no_duplicates(self@)
        &&& self@.len() <= RECENT_LIMIT
    }

    pub fn new() -> (r: Self)
        ensures
            r.wf(),
            r@ == Seq::<Seq<char>>::empty(),
    {
        let r = RecentFiles { names: Vec::new() };
        assert(r@ =~= Seq::<Seq<char>>::empty());
        r
    }

    pub fn len(&self) -> (n: usize)
        ensures
            n == self@.len(),
    {
        self.names.len()
    }

    pub fn is_empty(&self) -> (b: bool)
        ensures
            b <==> self@.len() == 0,
    {
        self.names.len() == 0
    }

    /// The name at position `i`, counted from the newest.
    pub fn get(&self, i: usize) -> (name: &str)
        requires
            i < self@.len(),
        ensures
            name@ == self@[i as int],
    {
        self.names[i].as_str()
    }

    /// Whether `name` is listed.
    pub fn contains(&self, name: &str) -> (b: bool)
        ensures
            b <==> self@.contains(name@),
    {
        let probe = String::from_str(name);
        let mut i: usize = 0;
        while i < self.names.len()
            invariant
                i <= self.names.len(),
                self@.len() == self.names.len(),
                probe@ == name@,
                forall|k: int| 0 <= k < i ==> self@[k] != name@,
            decreases self.names.len() - i,
        {
            if self.names[i] == probe {
                assert(self@[i as int] == name@);
                return true;
            }
            i = i + 1;
        }
        proof {
            if self@.contains(name@) {
                let k = choose|k: int| 0 <= k < self@.len() && self@[k] == name@;
                assert(self@[k] != name@);
            }
        }
        false
    }

    /// Records that `name` was opened.
    pub fn record(&mut self, name: String)
        requires
            old(self).wf(),
        ensures
            final(self).wf(),
            final(self)@ == recorded(old(self)@, name@),
    {
        if !self.contains(name.as_str()) {
            let ghost n = name@;
            self.names.insert(0, name);
            assert(self@ =~= seq![n] + old(self)@);
            self.names.truncate(RECENT_LIMIT);
            assert(self@ =~= recorded(old(self)@, n));
        }
    }
}

/// The log line written when a file is opened.
pub fn opened_message(name: &str) -> (msg: String)
    ensures
        msg@ == "Opened "@ + name@,
{
    String::from_str("Opened ").concat(name)
}

/// Opening the same file twice leaves the list as opening it once.
pub proof fn lemma_record_idempotent(s: Seq<Seq<char>>, name: Seq<char>)
    ensures
        recorded(recorded(s, name), name) == recorded(s, name),
{
    if !s.contains(name) {
        let t = recorded(s, name);
        assert(t[0] == name);
        assert(t.contains(name));
    }
}

/// The opened file is listed afterwards, newest first when it is new;
/// the files listed before keep their order behind it.
pub proof fn lemma_record_newest_first(s: Seq<Seq<char>>, name: Seq<char>)
    requires
        s.len() <= RECENT_LIMIT,
    ensures
        recorded(s, name).contains(name),
        !s.contains(name) ==> recorded(s, name)[0] == name,
        !s.contains(name) ==> recorded(s, name).subrange(1, recorded(s, name).len() as int)
            =~= s.subrange(0, recorded(s, name).len() - 1),
        s.contains(name) ==> recorded(s, name) == s,
        recorded(s, name).len() <= RECENT_LIMIT,
{
    if !s.contains(name) {
        assert(recorded(s, name)[0] == name);
    }
}

/// Recording keeps every name unique and the list within its limit.
pub proof fn lemma_record_keeps_invariant(s: Seq<Seq<char>>, name: Seq<char>)
    requires
        no_duplicates(s),
        s.len() <= RECENT_LIMIT,
    ensures
        no_duplicates(recorded(s, name)),
        recorded(s, name).len() <= RECENT_LIMIT,
{
    if !s.contains(name) {
        let t = seq![name] + s;
        assert forall|i: int, j: int| 0 <= i < j < t.len() implies t[i] != t[j] by {
            if i == 0 {
                assert(t[j] == s[j - 1]);
            }
        }
    }
}

} // verus!
