//! The subscriber registry: a process-wide mapping from subscriber name to
//! the owned write-end of its notification pipe. The engine stores pipes as
//! opaque handle tokens; the unverified shell owns the real pipe objects and
//! keys them by the same tokens.

use vstd::prelude::*;

verus! {

pub open spec fn has_subscriber(s: Seq<(String, u64)>, name: Seq<char>) -> bool {
    exists|i: int| 0 <= i < s.len() && s[i].0@ == name
}

pub open spec fn unique_subscriber_names(s: Seq<(String, u64)>) -> bool {
    forall|i: int, j: int| 0 <= i < j < s.len() ==> s[i].0@ != s[j].0@
}

/// Removing a subscriber: drops the entry of a present name, does nothing
/// otherwise.
pub open spec fn spec_remove_subscriber(s: Seq<(String, u64)>, name: Seq<char>) -> Seq<
    (String, u64),
> {
    if has_subscriber(s, name) {
        s.remove(choose|i: int| 0 <= i < s.len() && s[i].0@ == name)
    } else {
        s
    }
}

/// Mapping from subscriber name to an owned pipe-handle token.
pub struct SubscriberRegistry {
    pub pipes: Vec<(String, u64)>,
}

impl SubscriberRegistry {
    pub open spec fn wf(self) -> bool {
        unique_subscriber_names(self.pipes@)
    }

    pub fn new() -> (r: SubscriberRegistry)
        ensures
            r.wf(),
            r.pipes@.len() == 0,
    {
        SubscriberRegistry { pipes: Vec::new() }
    }

    /// Registers `name` with the freshly connected pipe handle: replaces the
    /// pipe of a present name, appends a new entry otherwise.
    pub fn add(&mut self, name: String, handle: u64)
        requires
            old(self).wf(),
        ensures
            final(self).wf(),
            has_subscriber(final(self).pipes@, name@),
            !has_subscriber(old(self).pipes@, name@) ==> final(self).pipes@ == old(
                self,
            ).pipes@.push((name, handle)),
            has_subscriber(old(self).pipes@, name@) ==> final(self).pipes@ == old(
                self,
            ).pipes@.update(
                choose|i: int| 0 <= i < old(self).pipes@.len() && old(self).pipes@[i].0@ == name@,
                (name, handle),
            ),
            forall|k: Seq<char>|
                k != name@ ==> has_subscriber(final(self).pipes@, k) == has_subscriber(
                    old(self).pipes@,
                    k,
                ),
    {
        let ghost pre = self.pipes@;
        let mut i: usize = 0;
        while i < self.pipes.len()
            invariant
                i <= self.pipes@.len(),
                forall|j: int| 0 <= j < i ==> self.pipes@[j].0@ != name@,
                *self == *old(self),
                pre == old(self).pipes@,
                unique_subscriber_names(pre),
            decreases self.pipes@.len() - i,
        {
            if self.pipes[i].0 == name {
                let ghost witness = i as int;
                assert(pre[witness].0@ == name@);
                self.pipes[i] = (name, handle);
                proof {
                    let post = self.pipes@;
                    assert(post[i as int].0@ == name@);
                    let w = choose|x: int| 0 <= x < pre.len() && pre[x].0@ == name@;
                    lemma_unique_subscriber_index(pre, witness, w, name@);
                    assert(post == pre.update(w, (name, handle)));
                    assert forall|x: int, y: int| 0 <= x < y < post.len() implies post[x].0@
                        != post[y].0@ by {
                        assert(pre[x].0@ != pre[y].0@);
                    }
                    assert forall|k: Seq<char>| k != name@ implies has_subscriber(post, k)
                        == has_subscriber(pre, k) by {
                        if has_subscriber(pre, k) {
                            let w = choose|x: int| 0 <= x < pre.len() && pre[x].0@ == k;
                            assert(post[w].0@ == k);
                        }
                        if has_subscriber(post, k) {
                            let w = choose|x: int| 0 <= x < post.len() && post[x].0@ == k;
                            assert(pre[w].0@ == k);
                        }
                    }
                }
                return ;
            }
            i += 1;
        }
        self.pipes.push((name, handle));
        proof {
            let post = self.pipes@;
            assert(!has_subscriber(pre, name@));
            assert(post[pre.len() as int].0@ == name@);
            assert forall|x: int, y: int| 0 <= x < y < post.len() implies post[x].0@ != post[y].0@ by {
                if y == pre.len() {
                    assert(pre[x].0@ != name@);
                } else {
                    assert(pre[x].0@ != pre[y].0@);
                }
            }
            assert forall|k: Seq<char>| k != name@ implies has_subscriber(post, k)
                == has_subscriber(pre, k) by {
                if has_subscriber(post, k) {
                    let w = choose|x: int| 0 <= x < post.len() && post[x].0@ == k;
                    if w < pre.len() {
                        assert(pre[w].0@ == k);
                    } else {
                        assert(post[w].0@ == name@);
                    }
                }
                if has_subscriber(pre, k) {
                    let w = choose|x: int| 0 <= x < pre.len() && pre[x].0@ == k;
                    assert(post[w].0@ == k);
                }
            }
        }
    }

    /// Drops the entry of `name`, releasing its pipe handle; the shell
    /// closes the real pipe when it sees the updated registry.
    pub fn remove(&mut self, name: &String)
        requires
            old(self).wf(),
        ensures
            final(self).wf(),
            final(self).pipes@ == spec_remove_subscriber(old(self).pipes@, name@),
            !has_subscriber(final(self).pipes@, name@),
    {
        let ghost pre = self.pipes@;
        let mut i: usize = 0;
        while i < self.pipes.len()
            invariant
                i <= self.pipes@.len(),
                forall|j: int| 0 <= j < i ==> self.pipes@[j].0@ != name@,
                *self == *old(self),
                pre == old(self).pipes@,
                unique_subscriber_names(pre),
            decreases self.pipes@.len() - i,
        {
            if self.pipes[i].0 == *name {
                let ghost witness = i as int;
                assert(pre[witness].0@ == name@);
                let _ = self.pipes.remove(i);
                proof {
                    let post = self.pipes@;
                    let w = choose|x: int| 0 <= x < pre.len() && pre[x].0@ == name@;
                    lemma_unique_subscriber_index(pre, witness, w, name@);
                    assert(post == spec_remove_subscriber(pre, name@));
                    assert forall|x: int, y: int| 0 <= x < y < post.len() implies post[x].0@
                        != post[y].0@ by {
                        let px: int = if x < witness {
                            x
                        } else {
                            x + 1
                        };
                        let py: int = if y < witness {
                            y
                        } else {
                            y + 1
                        };
                        assert(post[x] == pre[px]);
                        assert(post[y] == pre[py]);
                        assert(pre[px].0@ != pre[py].0@);
                    }
                    assert forall|x: int| 0 <= x < post.len() implies post[x].0@ != name@ by {
                        let px: int = if x < witness {
                            x
                        } else {
                            x + 1
                        };
                        assert(post[x] == pre[px]);
                        if px != witness {
                            lemma_unique_subscriber_distinct(pre, witness, px, name@);
                        }
                    }
                }
                return ;
            }
            i += 1;
        }
        proof {
            assert(!has_subscriber(pre, name@));
        }
    }

    /// Whether `name` is registered.
    pub fn contains(&self, name: &String) -> (r: bool)
        ensures
            r == has_subscriber(self.pipes@, name@),
    {
        let mut i: usize = 0;
        while i < self.pipes.len()
            invariant
                i <= self.pipes@.len(),
                forall|j: int| 0 <= j < i ==> self.pipes@[j].0@ != name@,
            decreases self.pipes@.len() - i,
        {
            if self.pipes[i].0 == *name {
                return true;
            }
            i += 1;
        }
        false
    }
}

/// With unique names, two indices holding the same name are the same index.
proof fn lemma_unique_subscriber_index(s: Seq<(String, u64)>, i: int, j: int, name: Seq<char>)
    requires
        unique_subscriber_names(s),
        0 <= i < s.len(),
        0 <= j < s.len(),
        s[i].0@ == name,
        s[j].0@ == name,
    ensures
        i == j,
{
    if i < j {
        assert(s[i].0@ != s[j].0@);
    } else if j < i {
        assert(s[j].0@ != s[i].0@);
    }
}

/// With unique names, an index other than the one holding `name` does not
/// hold `name`.
proof fn lemma_unique_subscriber_distinct(s: Seq<(String, u64)>, i: int, j: int, name: Seq<char>)
    requires
        unique_subscriber_names(s),
        0 <= i < s.len(),
        0 <= j < s.len(),
        i != j,
        s[i].0@ == name,
    ensures
        s[j].0@ != name,
{
    if i < j {
        assert(s[i].0@ != s[j].0@);
    } else {
        assert(s[j].0@ != s[i].0@);
    }
}

/// Registering a new subscriber and then removing it leaves the registry
/// exactly as it was, provided the name was not already registered.
pub proof fn lemma_add_remove_subscriber_round_trip(
    s: Seq<(String, u64)>,
    name: String,
    handle: u64,
)
    requires
        unique_subscriber_names(s),
        !has_subscriber(s, name@),
    ensures
        spec_remove_subscriber(s.push((name, handle)), name@) == s,
{
    let added = s.push((name, handle));
    assert(added[s.len() as int].0@ == name@);
    assert(has_subscriber(added, name@));
    assert forall|x: int, y: int| 0 <= x < y < added.len() implies added[x].0@ != added[y].0@ by {
        if y == s.len() {
            assert(added[x] == s[x]);
            assert(s[x].0@ != name@);
        } else {
            assert(s[x].0@ != s[y].0@);
        }
    }
    let w = choose|i: int| 0 <= i < added.len() && added[i].0@ == name@;
    lemma_unique_subscriber_index(added, w, s.len() as int, name@);
    assert(spec_remove_subscriber(added, name@) == added.remove(s.len() as int));
    assert(added.remove(s.len() as int) =~= s);
}

} // verus!
