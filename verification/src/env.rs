//! Environments: the variables handed to a spawned process on top of those it
//! inherits from its parent.

use vstd::prelude::*;
use crate::assoc::{assoc, lemma_assoc_concat, lemma_assoc_hit, lemma_assoc_push, lemma_assoc_skip};
use crate::text::{str_eq, Text};

verus! {

/// Variables by name. Entries are kept in the order they were set; where a
/// name occurs twice the later entry counts, as it does when the entries are
/// applied to a process one after the other.
#[derive(Debug)]
pub struct EnvMap {
    pub entries: Vec<(String, String)>,
}

/// The mathematical value of an environment.
pub type EnvModel = Map<Text, Text>;

/// The entries of an environment, each by its texts.
pub open spec fn entry_texts(entries: Seq<(String, String)>) -> Seq<(Text, Text)> {
    entries.map_values(|e: (String, String)| (e.0@, e.1@))
}

/// The value of an optional environment; none stands for the empty one.
pub open spec fn opt_env(env: Option<EnvMap>) -> Option<EnvModel> {
    match env {
        Some(e) => Some(e@),
        None => None,
    }
}

/// `inherited` overlaid with `local`: on a name both hold, `local` wins.
pub open spec fn merge_env(inherited: EnvModel, local: Option<EnvModel>) -> EnvModel {
    match local {
        Some(l) => inherited.union_prefer_right(l),
        None => inherited,
    }
}

impl View for EnvMap {
    type V = EnvModel;

    open spec fn view(&self) -> EnvModel {
        assoc(entry_texts(self.entries@))
    }
}

impl EnvMap {
    /// The environment that sets nothing.
    pub fn new() -> (env: EnvMap)
        ensures
            env@ == Map::<Text, Text>::empty(),
    {
        let env = EnvMap { entries: Vec::new() };
        assert(entry_texts(env.entries@) =~= Seq::empty());
        env
    }

    /// Sets `name` to `value`, replacing what it was set to.
    pub fn insert(&mut self, name: String, value: String)
        ensures
            final(self)@ == old(self)@.insert(name@, value@),
    {
        proof {
            lemma_assoc_push(entry_texts(self.entries@), name@, value@);
            assert(entry_texts(self.entries@.push((name, value))) =~= entry_texts(
                self.entries@,
            ).push((name@, value@)));
        }
        self.entries.push((name, value));
    }

    /// What `name` is set to, if it is set.
    pub fn get(&self, name: &str) -> (value: Option<&String>)
        ensures
            match value {
                Some(v) => self@.contains_key(name@) && self@[name@] == v@,
                None => !self@.contains_key(name@),
            },
    {
        let ghost all = entry_texts(self.entries@);
        let mut i: usize = self.entries.len();
        while i > 0
            invariant
                i <= self.entries.len(),
                all == entry_texts(self.entries@),
                forall|j: int| i <= j < all.len() ==> all[j].0 != name@,
            decreases i,
        {
            i -= 1;
            if str_eq(self.entries[i].0.as_str(), name) {
                proof {
                    lemma_assoc_hit(all, name@, i as int);
                }
                return Some(&self.entries[i].1);
            }
        }
        proof {
            lemma_assoc_skip(all, name@, 0);
            assert(all.take(0) =~= Seq::empty());
        }
        None
    }

    /// Whether no variable is set.
    pub fn is_empty(&self) -> (empty: bool)
        ensures
            empty == (self@ == Map::<Text, Text>::empty()),
    {
        let empty = self.entries.len() == 0;
        proof {
            let all = entry_texts(self.entries@);
            if !empty {
                assert(self@.contains_key(all.last().0));
            }
        }
        empty
    }

    /// This environment overlaid with `local`.
    pub fn merged(&self, local: &Option<EnvMap>) -> (env: EnvMap)
        ensures
            env@ == merge_env(self@, opt_env(*local)),
    {
        let mut env = self.clone();
        match local {
            Some(l) => {
                let ghost first = entry_texts(env.entries@);
                let mut i: usize = 0;
                while i < l.entries.len()
                    invariant
                        i <= l.entries.len(),
                        entry_texts(env.entries@) == first + entry_texts(l.entries@).take(i as int),
                    decreases l.entries.len() - i,
                {
                    let ghost before = env.entries@;
                    let name = l.entries[i].0.clone();
                    let value = l.entries[i].1.clone();
                    env.entries.push((name, value));
                    assert(entry_texts(env.entries@) =~= entry_texts(before).push(
                        (name@, value@),
                    ));
                    assert(entry_texts(l.entries@)[i as int] == (name@, value@));
                    assert(entry_texts(env.entries@) =~= first + entry_texts(l.entries@).take(
                        i + 1,
                    ));
                    i += 1;
                }
                proof {
                    assert(entry_texts(l.entries@).take(i as int) =~= entry_texts(l.entries@));
                    lemma_assoc_concat(first, entry_texts(l.entries@));
                }
            },
            None => {},
        }
        env
    }
}

impl Clone for EnvMap {
    fn clone(&self) -> (copy: EnvMap)
        ensures
            copy@ == self@,
    {
        let mut entries: Vec<(String, String)> = Vec::new();
        let mut i: usize = 0;
        while i < self.entries.len()
            invariant
                i <= self.entries.len(),
                entries@.len() == i,
                forall|j: int|
                    0 <= j < i ==> entries@[j].0@ == self.entries@[j].0@ && entries@[j].1@
                        == self.entries@[j].1@,
            decreases self.entries.len() - i,
        {
            entries.push((self.entries[i].0.clone(), self.entries[i].1.clone()));
            i += 1;
        }
        assert(entry_texts(entries@) =~= entry_texts(self.entries@));
        EnvMap { entries }
    }
}

} // verus!
