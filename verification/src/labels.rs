use vstd::prelude::*;
use crate::pattern::{Pattern, regex_match};
use crate::text::str_equal;
use crate::transform::{Transform, transform_spec};

verus! {

/// Spec-level image of a label policy: the transform and the text of the
/// exemption pattern, if any.
pub struct LabelPolicyModel {
    pub transform: Transform,
    pub except_uri: Option<Seq<char>>,
}

/// How values tagged with a label are transformed, and on which request
/// paths the transform is skipped.
#[derive(Debug)]
pub struct LabelPolicy {
    /// How this policy transforms values read from storage.
    pub transform: Transform,
    /// The policy does not apply when the request path matches this pattern.
    /// `None` is the default exemption that matches no path at all, so the
    /// transform always applies.
    pub except_uri: Option<Pattern>,
}

impl View for LabelPolicy {
    type V = LabelPolicyModel;

    open spec fn view(&self) -> LabelPolicyModel {
        LabelPolicyModel {
            transform: self.transform,
            except_uri: match self.except_uri {
                Option::None => Option::None,
                Option::Some(p) => Option::Some(p@),
            },
        }
    }
}

/// Whether a policy applies on a request path: always, unless the path
/// matches the exemption pattern.
pub open spec fn applies_spec(m: LabelPolicyModel, path: Seq<char>) -> bool {
    match m.except_uri {
        Option::None => true,
        Option::Some(pat) => !regex_match(pat, path),
    }
}

/// A policy with no exemption pattern applies on every request path.
pub proof fn lemma_no_exemption_always_applies(m: LabelPolicyModel, path: Seq<char>)
    requires
        m.except_uri is None,
    ensures
        applies_spec(m, path),
{
}

impl LabelPolicy {
    /// True unless `path` matches `except_uri`.
    pub fn applies(&self, path: &str) -> (b: bool)
        ensures
            b == applies_spec(self@, path@),
    {
        match &self.except_uri {
            None => true,
            Some(p) => !p.is_match(path),
        }
    }

    /// Transform a value under this policy.
    pub fn apply(&self, v: serde_json::Value) -> (r: serde_json::Value)
        ensures
            r == transform_spec(self.transform, v),
    {
        self.transform.apply(v)
    }
}

/// Fold the recorded label entries into a map from label name to policy; a
/// later entry for the same name overwrites the earlier one.
pub open spec fn label_map(entries: Seq<(String, LabelPolicy)>) -> Map<Seq<char>, LabelPolicyModel>
    decreases entries.len(),
{
    if entries.len() == 0 {
        Map::empty()
    } else {
        label_map(entries.drop_last()).insert(entries.last().0@, entries.last().1@)
    }
}

proof fn lemma_label_map_found(entries: Seq<(String, LabelPolicy)>, name: Seq<char>, i: int)
    requires
        0 <= i < entries.len(),
        entries[i].0@ == name,
        forall|j: int| i < j < entries.len() ==> entries[j].0@ != name,
    ensures
        label_map(entries).contains_key(name),
        label_map(entries)[name] == entries[i].1@,
    decreases entries.len(),
{
    if i == entries.len() - 1 {
    } else {
        lemma_label_map_found(entries.drop_last(), name, i);
    }
}

proof fn lemma_label_map_absent(entries: Seq<(String, LabelPolicy)>, name: Seq<char>)
    requires
        forall|j: int| 0 <= j < entries.len() ==> entries[j].0@ != name,
    ensures
        !label_map(entries).contains_key(name),
    decreases entries.len(),
{
    if entries.len() > 0 {
        lemma_label_map_absent(entries.drop_last(), name);
    }
}

/// Maps labels to their applicable policies; a later declaration of the same
/// label overwrites the earlier one (last wins, not an error).
#[derive(Debug)]
pub struct LabelPolicies {
    entries: Vec<(String, LabelPolicy)>,
}

impl View for LabelPolicies {
    type V = Map<Seq<char>, LabelPolicyModel>;

    closed spec fn view(&self) -> Map<Seq<char>, LabelPolicyModel> {
        label_map(self.entries@)
    }
}

impl Default for LabelPolicies {
    /// The empty table.
    fn default() -> (r: Self)
        ensures
            r@ == Map::<Seq<char>, LabelPolicyModel>::empty(),
    {
        LabelPolicies { entries: Vec::new() }
    }
}

impl LabelPolicies {
    /// Record the policy for a label, overwriting any earlier policy recorded
    /// under the same name.
    pub fn insert(&mut self, name: &str, policy: LabelPolicy)
        ensures
            final(self)@ == old(self)@.insert(name@, policy@),
    {
        let ghost before = self.entries@;
        let ghost entry_view = policy@;
        self.entries.push((name.to_owned(), policy));
        proof {
            assert(self.entries@.drop_last() =~= before);
            assert(self.entries@.last().0@ == name@);
            assert(self.entries@.last().1@ == entry_view);
        }
    }

    /// The policy recorded for a label, if any.
    pub fn get(&self, name: &str) -> (r: Option<&LabelPolicy>)
        ensures
            match r {
                Option::Some(p) => self@.contains_key(name@) && p@ == self@[name@],
                Option::None => !self@.contains_key(name@),
            },
    {
        let n = self.entries.len();
        let mut i: usize = n;
        while i > 0
            invariant
                i <= n,
                n == self.entries@.len(),
                forall|j: int| i <= j < n ==> self.entries@[j].0@ != name@,
            decreases i,
    {
            i -= 1;
            if str_equal(self.entries[i].0.as_str(), name) {
                proof {
                    lemma_label_map_found(self.entries@, name@, i as int);
                }
                return Some(&self.entries[i].1);
            }
        }
        proof {
            lemma_label_map_absent(self.entries@, name@);
        }
        None
    }
}

} // verus!
