//! Process-wide rule tables: classifier identifiers used during window
//! discovery. Identifier lists are insertion-unique sequences; the
//! workspace-rule table maps an identifier to a (monitor, workspace) target.
//! The single-writer manager owns the tables, so every mutation happens
//! under the same exclusive access as the rest of the state.

use vstd::prelude::*;

verus! {

/// No identifier occurs twice (identifiers compared by their characters).
pub open spec fn no_duplicate_ids(v: Seq<String>) -> bool {
    forall|i: int, j: int| 0 <= i < j < v.len() ==> v[i]@ != v[j]@
}

pub open spec fn contains_id(v: Seq<String>, id: Seq<char>) -> bool {
    exists|i: int| 0 <= i < v.len() && v[i]@ == id
}

/// An idempotent set-insert: containment is checked first, so ordering is
/// stable and a present identifier is not inserted again.
pub open spec fn insert_unique_spec(v: Seq<String>, id: String) -> Seq<String> {
    if contains_id(v, id@) {
        v
    } else {
        v.push(id)
    }
}

/// Linear containment scan over an identifier list.
pub fn contains_identifier(v: &Vec<String>, id: &String) -> (r: bool)
    ensures
        r == contains_id(v@, id@),
{
    let mut i: usize = 0;
    while i < v.len()
        invariant
            i <= v@.len(),
            forall|j: int| 0 <= j < i ==> v@[j]@ != id@,
        decreases v@.len() - i,
    {
        if v[i] == *id {
            return true;
        }
        i += 1;
    }
    false
}

/// Inserts `id` unless it is already present; keeps the list duplicate-free.
pub fn insert_identifier(v: &mut Vec<String>, id: String)
    ensures
        final(v)@ == insert_unique_spec(old(v)@, id),
        no_duplicate_ids(old(v)@) ==> no_duplicate_ids(final(v)@),
{
    let ghost pre = v@;
    if !contains_identifier(v, &id) {
        v.push(id);
        assert(no_duplicate_ids(pre) ==> no_duplicate_ids(v@)) by {
            if no_duplicate_ids(pre) {
                assert forall|i: int, j: int| 0 <= i < j < v@.len() implies v@[i]@ != v@[j]@ by {
                    if j < pre.len() {
                        assert(pre[i]@ != pre[j]@);
                    } else {
                        assert(!contains_id(pre, v@[j]@));
                    }
                }
            }
        }
    }
}

pub open spec fn has_rule(s: Seq<(String, (usize, usize))>, id: Seq<char>) -> bool {
    exists|i: int| 0 <= i < s.len() && s[i].0@ == id
}

pub open spec fn unique_rule_keys(s: Seq<(String, (usize, usize))>) -> bool {
    forall|i: int, j: int| 0 <= i < j < s.len() ==> s[i].0@ != s[j].0@
}

/// The (monitor, workspace) target of an identifier; meaningful only when
/// `has_rule` holds and keys are unique.
pub open spec fn rule_target(s: Seq<(String, (usize, usize))>, id: Seq<char>) -> (usize, usize) {
    s[choose|i: int| 0 <= i < s.len() && s[i].0@ == id].1
}

/// The process-wide rule tables.
pub struct RuleTables {
    /// identifier -> (monitor index, workspace index); keys unique.
    pub workspace_rules: Vec<(String, (usize, usize))>,
    pub manage_identifiers: Vec<String>,
    pub float_identifiers: Vec<String>,
    pub border_overflow_identifiers: Vec<String>,
    pub tray_and_multi_window_identifiers: Vec<String>,
}

impl RuleTables {
    /// Every identifier list is duplicate-free and the rule keys are unique.
    pub open spec fn wf(self) -> bool {
        &&& unique_rule_keys(self.workspace_rules@)
        &&& no_duplicate_ids(self.manage_identifiers@)
        &&& no_duplicate_ids(self.float_identifiers@)
        &&& no_duplicate_ids(self.border_overflow_identifiers@)
        &&& no_duplicate_ids(self.tray_and_multi_window_identifiers@)
    }

    /// Empty tables.
    pub fn new() -> (r: RuleTables)
        ensures
            r.wf(),
            r.workspace_rules@.len() == 0,
            r.manage_identifiers@.len() == 0,
            r.float_identifiers@.len() == 0,
            r.border_overflow_identifiers@.len() == 0,
            r.tray_and_multi_window_identifiers@.len() == 0,
    {
        RuleTables {
            workspace_rules: Vec::new(),
            manage_identifiers: Vec::new(),
            float_identifiers: Vec::new(),
            border_overflow_identifiers: Vec::new(),
            tray_and_multi_window_identifiers: Vec::new(),
        }
    }

    /// Inserts or replaces the target of `id` in the workspace-rule table.
    pub fn set_workspace_rule(&mut self, id: String, monitor_idx: usize, workspace_idx: usize)
        requires
            unique_rule_keys(old(self).workspace_rules@),
        ensures
            unique_rule_keys(final(self).workspace_rules@),
            has_rule(final(self).workspace_rules@, id@),
            rule_target(final(self).workspace_rules@, id@) == (monitor_idx, workspace_idx),
            forall|k: Seq<char>|
                k != id@ ==> has_rule(final(self).workspace_rules@, k) == has_rule(
                    old(self).workspace_rules@,
                    k,
                ),
            forall|k: Seq<char>|
                k != id@ && has_rule(old(self).workspace_rules@, k) ==> rule_target(
                    final(self).workspace_rules@,
                    k,
                ) == rule_target(old(self).workspace_rules@, k),
            final(self).manage_identifiers == old(self).manage_identifiers,
            final(self).float_identifiers == old(self).float_identifiers,
            final(self).border_overflow_identifiers == old(self).border_overflow_identifiers,
            final(self).tray_and_multi_window_identifiers == old(
                self,
            ).tray_and_multi_window_identifiers,
    {
        let ghost pre = self.workspace_rules@;
        let mut i: usize = 0;
        while i < self.workspace_rules.len()
            invariant
                i <= self.workspace_rules@.len(),
                forall|j: int| 0 <= j < i ==> self.workspace_rules@[j].0@ != id@,
                *self == *old(self),
                pre == old(self).workspace_rules@,
                unique_rule_keys(pre),
            decreases self.workspace_rules@.len() - i,
        {
            if self.workspace_rules[i].0 == id {
                self.workspace_rules[i] = (id, (monitor_idx, workspace_idx));
                proof {
                    let post = self.workspace_rules@;
                    assert(post[i as int].0@ == id@);
                    assert forall|x: int, y: int| 0 <= x < y < post.len() implies post[x].0@
                        != post[y].0@ by {
                        assert(pre[x].0@ != pre[y].0@);
                    }
                    lemma_unique_rule_lookup(post, i as int, id@);
                    assert forall|k: Seq<char>| k != id@ implies has_rule(post, k) == has_rule(
                        pre,
                        k,
                    ) by {
                        if has_rule(pre, k) {
                            let w = choose|x: int| 0 <= x < pre.len() && pre[x].0@ == k;
                            assert(post[w].0@ == k);
                        }
                        if has_rule(post, k) {
                            let w = choose|x: int| 0 <= x < post.len() && post[x].0@ == k;
                            assert(pre[w].0@ == k);
                        }
                    }
                    assert forall|k: Seq<char>| k != id@ && has_rule(pre, k) implies rule_target(
                        post,
                        k,
                    ) == rule_target(pre, k) by {
                        let w = choose|x: int| 0 <= x < pre.len() && pre[x].0@ == k;
                        assert(post[w].0@ == k);
                        lemma_unique_rule_lookup(pre, w, k);
                        lemma_unique_rule_lookup(post, w, k);
                    }
                }
                return ;
            }
            i += 1;
        }
        self.workspace_rules.push((id, (monitor_idx, workspace_idx)));
        proof {
            let post = self.workspace_rules@;
            assert(!has_rule(pre, id@));
            assert(post[pre.len() as int].0@ == id@);
            assert forall|x: int, y: int| 0 <= x < y < post.len() implies post[x].0@ != post[y].0@ by {
                if y == pre.len() {
                    assert(pre[x].0@ != id@);
                } else {
                    assert(pre[x].0@ != pre[y].0@);
                }
            }
            lemma_unique_rule_lookup(post, pre.len() as int, id@);
            assert forall|k: Seq<char>| k != id@ implies has_rule(post, k) == has_rule(pre, k) by {
                if has_rule(post, k) {
                    let w = choose|x: int| 0 <= x < post.len() && post[x].0@ == k;
                    if w < pre.len() {
                        assert(pre[w].0@ == k);
                    } else {
                        assert(post[w].0@ == id@);
                    }
                }
                if has_rule(pre, k) {
                    let w = choose|x: int| 0 <= x < pre.len() && pre[x].0@ == k;
                    assert(post[w].0@ == k);
                }
            }
            assert forall|k: Seq<char>| k != id@ && has_rule(pre, k) implies rule_target(post, k)
                == rule_target(pre, k) by {
                let w = choose|x: int| 0 <= x < pre.len() && pre[x].0@ == k;
                assert(post[w].0@ == k);
                lemma_unique_rule_lookup(pre, w, k);
                lemma_unique_rule_lookup(post, w, k);
            }
        }
    }
}

/// With unique keys, the looked-up target of the key at `i` is the value
/// stored at `i`.
pub proof fn lemma_unique_rule_lookup(s: Seq<(String, (usize, usize))>, i: int, id: Seq<char>)
    requires
        unique_rule_keys(s),
        0 <= i < s.len(),
        s[i].0@ == id,
    ensures
        has_rule(s, id),
        rule_target(s, id) == s[i].1,
{
    assert(has_rule(s, id));
    let w = choose|x: int| 0 <= x < s.len() && s[x].0@ == id;
    if w < i {
        assert(s[w].0@ != s[i].0@);
    } else if i < w {
        assert(s[i].0@ != s[w].0@);
    }
}

} // verus!
