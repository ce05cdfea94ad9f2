use vstd::prelude::*;
use vstd::string::*;
use crate::error::{ErrorModel, PolicyError};
use crate::path_match::{is_path_prefix, lemma_path_prefix_len, lemma_path_prefix_same_len,
    path_starts_with};
use crate::pattern::{Pattern, regex_match};
use crate::text::str_equal;

verus! {

/// One declared endpoint rule: requests whose path starts with `path`
/// (component-wise) require the username to match `users`.
#[derive(Debug)]
pub struct PathRule {
    pub path: String,
    pub users: Pattern,
}

/// Fold the declared rules into a map from path to the text of its
/// users-pattern.
pub open spec fn rules_map(rules: Seq<PathRule>) -> Map<Seq<char>, Seq<char>>
    decreases rules.len(),
{
    if rules.len() == 0 {
        Map::empty()
    } else {
        rules_map(rules.drop_last()).insert(rules.last().path@, rules.last().users@)
    }
}

proof fn lemma_rules_map_keys(rules: Seq<PathRule>, p: Seq<char>)
    ensures
        rules_map(rules).contains_key(p) <==> exists|i: int|
            0 <= i < rules.len() && rules[i].path@ == p,
    decreases rules.len(),
{
    if rules.len() > 0 {
        lemma_rules_map_keys(rules.drop_last(), p);
        if rules.last().path@ == p {
            assert(rules[rules.len() - 1].path@ == p);
        } else {
            if rules_map(rules).contains_key(p) {
                let i = choose|i: int|
                    0 <= i < rules.drop_last().len() && rules.drop_last()[i].path@ == p;
                assert(rules[i].path@ == p);
            }
            if exists|i: int| 0 <= i < rules.len() && rules[i].path@ == p {
                let i = choose|i: int| 0 <= i < rules.len() && rules[i].path@ == p;
                assert(rules.drop_last()[i].path@ == p);
            }
        }
    }
}

proof fn lemma_rules_map_at(rules: Seq<PathRule>, i: int)
    requires
        0 <= i < rules.len(),
        forall|j: int| i < j < rules.len() ==> rules[j].path@ != rules[i].path@,
    ensures
        rules_map(rules).contains_key(rules[i].path@),
        rules_map(rules)[rules[i].path@] == rules[i].users@,
    decreases rules.len(),
{
    if i < rules.len() - 1 {
        lemma_rules_map_at(rules.drop_last(), i);
    }
}

/// Some declared path is a component-wise prefix of the request path.
pub open spec fn has_matching_rule(m: Map<Seq<char>, Seq<char>>, path: Seq<char>) -> bool {
    exists|p: Seq<char>| m.contains_key(p) && is_path_prefix(p, path)
}

/// `p` is a declared component-wise prefix of the request path, and no
/// declared prefix of the request path is longer.
pub open spec fn is_longest_match(m: Map<Seq<char>, Seq<char>>, path: Seq<char>, p: Seq<char>) -> bool {
    &&& m.contains_key(p)
    &&& is_path_prefix(p, path)
    &&& forall|q: Seq<char>| m.contains_key(q) && is_path_prefix(q, path) ==> q.len() <= p.len()
}

/// The longest declared component-wise prefix of the request path.
pub open spec fn longest_matching_prefix(m: Map<Seq<char>, Seq<char>>, path: Seq<char>) -> Seq<char> {
    choose|p: Seq<char>| is_longest_match(m, path, p)
}

/// The view of an optional username: the characters, when one is present.
pub open spec fn opt_text(username: Option<String>) -> Option<Seq<char>> {
    match username {
        Option::None => Option::None,
        Option::Some(u) => Option::Some(u@),
    }
}

/// The authorization decision.  If no declared path is a component-wise
/// prefix of the request path, the request is allowed.  Otherwise a username
/// must be present and must match the pattern of the longest declared prefix;
/// a request without a username is denied.
pub open spec fn allowed_spec(
    m: Map<Seq<char>, Seq<char>>,
    username: Option<Seq<char>>,
    path: Seq<char>,
) -> bool {
    if has_matching_rule(m, path) {
        match username {
            Option::None => false,
            Option::Some(u) => regex_match(m[longest_matching_prefix(m, path)], u),
        }
    } else {
        true
    }
}

/// There is only one longest declared prefix of a given request path.
pub proof fn lemma_longest_match_unique(
    m: Map<Seq<char>, Seq<char>>,
    path: Seq<char>,
    p1: Seq<char>,
    p2: Seq<char>,
)
    requires
        is_longest_match(m, path, p1),
        is_longest_match(m, path, p2),
    ensures
        p1 == p2,
{
    assert(p1.len() <= p2.len());
    assert(p2.len() <= p1.len());
    lemma_path_prefix_same_len(p1, p2, path);
}

/// An exactly-declared path is governed by its own rule: the request is
/// allowed iff a username is present and matches that rule's pattern.
pub proof fn lemma_declared_path_governs_itself(
    m: Map<Seq<char>, Seq<char>>,
    username: Option<Seq<char>>,
    path: Seq<char>,
)
    requires
        m.contains_key(path),
    ensures
        allowed_spec(m, username, path) == (match username {
            Option::None => false,
            Option::Some(u) => regex_match(m[path], u),
        }),
{
    assert(is_path_prefix(path, path));
    assert forall|q: Seq<char>| m.contains_key(q) && is_path_prefix(q, path) implies q.len()
        <= path.len() by {
        lemma_path_prefix_len(q, path);
    }
    assert(is_longest_match(m, path, path));
    assert(has_matching_rule(m, path));
    lemma_longest_match_unique(m, path, longest_matching_prefix(m, path), path);
}

/// With no declared prefix of the request path, the request is allowed
/// regardless of username.
pub proof fn lemma_unmatched_path_allowed(
    m: Map<Seq<char>, Seq<char>>,
    username: Option<Seq<char>>,
    path: Seq<char>,
)
    requires
        forall|p: Seq<char>| m.contains_key(p) ==> !is_path_prefix(p, path),
    ensures
        allowed_spec(m, username, path),
{
    if has_matching_rule(m, path) {
        let p = choose|p: Seq<char>| m.contains_key(p) && is_path_prefix(p, path);
        assert(!is_path_prefix(p, path));
    }
}

/// Longest-prefix-wins: when a declared path is a component-wise prefix of
/// the request path and no longer declared path is, its rule decides the
/// request.
pub proof fn lemma_longest_prefix_governs(
    m: Map<Seq<char>, Seq<char>>,
    username: Option<Seq<char>>,
    path: Seq<char>,
    p: Seq<char>,
)
    requires
        m.contains_key(p),
        is_path_prefix(p, path),
        forall|q: Seq<char>| m.contains_key(q) && is_path_prefix(q, path) ==> q.len() <= p.len(),
    ensures
        allowed_spec(m, username, path) == (match username {
            Option::None => false,
            Option::Some(u) => regex_match(m[p], u),
        }),
{
    assert(is_longest_match(m, path, p));
    assert(has_matching_rule(m, path));
    lemma_longest_match_unique(m, path, longest_matching_prefix(m, path), p);
}

/// Fail closed: once any declared path covers the request path, a request
/// without a username is denied.
pub proof fn lemma_no_username_denied(m: Map<Seq<char>, Seq<char>>, path: Seq<char>)
    requires
        has_matching_rule(m, path),
    ensures
        !allowed_spec(m, Option::None, path),
{
}

/// The path authorization table: a user is authorized to access a path if the
/// username matches the pattern of the longest declared path prefix.
#[derive(Debug)]
pub struct UserAuthorization {
    paths: Vec<PathRule>,
}

impl View for UserAuthorization {
    type V = Map<Seq<char>, Seq<char>>;

    closed spec fn view(&self) -> Map<Seq<char>, Seq<char>> {
        rules_map(self.paths@)
    }
}

impl UserAuthorization {
    /// No path is declared twice.
    #[verifier::type_invariant]
    spec fn wf(&self) -> bool {
        forall|i: int, j: int| 0 <= i < j < self.paths@.len() ==> self.paths@[i].path@
            != self.paths@[j].path@
    }
}

impl Default for UserAuthorization {
    /// The empty table: no path is restricted.
    fn default() -> (r: Self)
        ensures
            r@ == Map::<Seq<char>, Seq<char>>::empty(),
    {
        UserAuthorization { paths: Vec::new() }
    }
}

impl UserAuthorization {
    /// Authorizes users matching `users` to execute any endpoint under this
    /// path; longer declared paths override this one.  Error if this same
    /// path has already been added.
    pub fn add(&mut self, path: &str, users: Pattern) -> (r: Result<(), PolicyError>)
        ensures
            !old(self)@.contains_key(path@) ==> r is Ok && final(self)@ == old(self)@.insert(
                path@,
                users@,
            ),
            old(self)@.contains_key(path@) ==> final(self)@ == old(self)@ && (r matches Err(e)
                && e@ == (ErrorModel::DuplicatePath { path: path@ })),
    {
        proof {
            use_type_invariant(&*self);
        }
        let n = self.paths.len();
        let mut i: usize = 0;
        while i < n
            invariant
                n == self.paths@.len(),
                i <= n,
                forall|j: int| 0 <= j < i ==> self.paths@[j].path@ != path@,
            decreases n - i,
        {
            if str_equal(self.paths[i].path.as_str(), path) {
                proof {
                    lemma_rules_map_keys(self.paths@, path@);
                }
                return Err(PolicyError::DuplicatePath { path: path.to_owned() });
            }
            i += 1;
        }
        proof {
            lemma_rules_map_keys(self.paths@, path@);
        }
        let ghost before = self.paths@;
        let ghost users_view = users@;
        let mut paths: Vec<PathRule> = Vec::new();
        core::mem::swap(&mut self.paths, &mut paths);
        paths.push(PathRule { path: path.to_owned(), users });
        core::mem::swap(&mut self.paths, &mut paths);
        proof {
            assert(self.paths@.drop_last() =~= before);
            assert(self.paths@.last().path@ == path@);
            assert(self.paths@.last().users@ == users_view);
            assert forall|a: int, b: int|
                0 <= a < b < self.paths@.len() implies self.paths@[a].path@
                != self.paths@[b].path@ by {
                assert(self.paths@[a] == before[a]);
                if b < self.paths@.len() - 1 {
                    assert(self.paths@[b] == before[b]);
                }
            }
        }
        Ok(())
    }

    /// Is this username allowed to execute the endpoint at this path?  The
    /// rule of the longest declared path prefix decides; with no declared
    /// prefix the request is allowed.
    pub fn is_allowed(&self, username: Option<String>, path: &str) -> (b: bool)
        ensures
            b == allowed_spec(self@, opt_text(username), path@),
    {
        proof {
            use_type_invariant(self);
        }
        let n = self.paths.len();
        let mut best: Option<usize> = None;
        let mut i: usize = 0;
        while i < n
            invariant
                n == self.paths@.len(),
                i <= n,
                self.wf(),
                match best {
                    Option::None => forall|j: int|
                        0 <= j < i ==> !is_path_prefix(self.paths@[j].path@, path@),
                    Option::Some(b) => b < i && is_path_prefix(self.paths@[b as int].path@, path@)
                        && forall|j: int|
                        0 <= j < i && is_path_prefix(self.paths@[j].path@, path@)
                            ==> self.paths@[j].path@.len() <= self.paths@[b as int].path@.len(),
                },
            decreases n - i,
        {
            if path_starts_with(self.paths[i].path.as_str(), path) {
                best = match best {
                    None => Some(i),
                    Some(b) => {
                        if self.paths[i].path.as_str().unicode_len() > self.paths[
                            b
                        ].path.as_str().unicode_len() {
                            Some(i)
                        } else {
                            Some(b)
                        }
                    },
                };
            }
            i += 1;
        }
        match best {
            None => {
                proof {
                    if has_matching_rule(self@, path@) {
                        let p = choose|p: Seq<char>|
                            self@.contains_key(p) && is_path_prefix(p, path@);
                        lemma_rules_map_keys(self.paths@, p);
                        let j = choose|j: int|
                            0 <= j < self.paths@.len() && self.paths@[j].path@ == p;
                        assert(!is_path_prefix(self.paths@[j].path@, path@));
                    }
                }
                true
            },
            Some(b) => {
                proof {
                    let bp = self.paths@[b as int].path@;
                    lemma_rules_map_keys(self.paths@, bp);
                    assert(self.paths@[b as int].path@ == bp);
                    assert(self@.contains_key(bp));
                    assert forall|q: Seq<char>|
                        self@.contains_key(q) && is_path_prefix(q, path@) implies q.len()
                        <= bp.len() by {
                        lemma_rules_map_keys(self.paths@, q);
                        let j = choose|j: int|
                            0 <= j < self.paths@.len() && self.paths@[j].path@ == q;
                        assert(is_path_prefix(self.paths@[j].path@, path@));
                    }
                    assert(is_longest_match(self@, path@, bp));
                    assert(has_matching_rule(self@, path@));
                    lemma_longest_match_unique(
                        self@,
                        path@,
                        longest_matching_prefix(self@, path@),
                        bp,
                    );
                    lemma_rules_map_at(self.paths@, b as int);
                }
                match username {
                    None => false,
                    Some(u) => self.paths[b].users.is_match(u.as_str()),
                }
            },
        }
    }
}

} // verus!
