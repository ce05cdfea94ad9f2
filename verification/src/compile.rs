use vstd::prelude::*;
use crate::authorization::{UserAuthorization, allowed_spec, opt_text};
use crate::document::{EndpointDecl, LabelDecl, Section};
use crate::error::{ErrorModel, PolicyError};
use crate::labels::{LabelPolicies, LabelPolicy, LabelPolicyModel};
use crate::pattern::{Pattern, regex_valid};
use crate::transform::Transform;

verus! {

/// The outcome of compiling one label declaration into the label table: a
/// declaration without a string name is an error; one without a transform is
/// recorded but adds no policy; an unknown transform name or an invalid
/// exemption pattern aborts; otherwise the policy is inserted, overwriting
/// any earlier policy for the same label.
pub open spec fn label_step(m: Map<Seq<char>, LabelPolicyModel>, d: LabelDecl) -> Result<
    Map<Seq<char>, LabelPolicyModel>,
    ErrorModel,
> {
    match d.name {
        Option::None => Err(ErrorModel::MissingLabelName),
        Option::Some(name) => match d.transform {
            Option::None => Ok(m),
            Option::Some(t) => if t@ != "anonymize"@ {
                Err(ErrorModel::UnknownTransform { label: name@, transform: t@ })
            } else {
                match d.except_uri {
                    Option::None => Ok(
                        m.insert(
                            name@,
                            LabelPolicyModel {
                                transform: Transform::Anonymize,
                                except_uri: Option::None,
                            },
                        ),
                    ),
                    Option::Some(pat) => if regex_valid(pat@) {
                        Ok(
                            m.insert(
                                name@,
                                LabelPolicyModel {
                                    transform: Transform::Anonymize,
                                    except_uri: Option::Some(pat@),
                                },
                            ),
                        )
                    } else {
                        Err(ErrorModel::InvalidPattern { pattern: pat@ })
                    },
                }
            },
        },
    }
}

/// Compiling a list of label declarations, front to back, stopping at the
/// first error.
pub open spec fn labels_steps(m: Map<Seq<char>, LabelPolicyModel>, decls: Seq<LabelDecl>) -> Result<
    Map<Seq<char>, LabelPolicyModel>,
    ErrorModel,
>
    decreases decls.len(),
{
    if decls.len() == 0 {
        Ok(m)
    } else {
        match label_step(m, decls.first()) {
            Ok(m2) => labels_steps(m2, decls.drop_first()),
            Err(e) => Err(e),
        }
    }
}

/// The outcome of compiling one endpoint declaration: one missing a string
/// `path` or `users` declares no restriction and is skipped; an invalid
/// users pattern or a path declared twice aborts; otherwise the rule is
/// inserted.
pub open spec fn endpoint_step(m: Map<Seq<char>, Seq<char>>, d: EndpointDecl) -> Result<
    Map<Seq<char>, Seq<char>>,
    ErrorModel,
> {
    match d.path {
        Option::Some(path) => match d.users {
            Option::Some(users) => if !regex_valid(users@) {
                Err(ErrorModel::InvalidPattern { pattern: users@ })
            } else if m.contains_key(path@) {
                Err(ErrorModel::DuplicatePath { path: path@ })
            } else {
                Ok(m.insert(path@, users@))
            },
            Option::None => Ok(m),
        },
        Option::None => Ok(m),
    }
}

/// Compiling a list of endpoint declarations, front to back, stopping at the
/// first error.
pub open spec fn endpoints_steps(m: Map<Seq<char>, Seq<char>>, decls: Seq<EndpointDecl>) -> Result<
    Map<Seq<char>, Seq<char>>,
    ErrorModel,
>
    decreases decls.len(),
{
    if decls.len() == 0 {
        Ok(m)
    } else {
        match endpoint_step(m, decls.first()) {
            Ok(m2) => endpoints_steps(m2, decls.drop_first()),
            Err(e) => Err(e),
        }
    }
}

/// Compiling the sections of a document, front to back: in each section the
/// label declarations are compiled first, then the endpoint declarations;
/// the first error aborts the whole compilation.
pub open spec fn sections_steps(
    labels: Map<Seq<char>, LabelPolicyModel>,
    auth: Map<Seq<char>, Seq<char>>,
    sections: Seq<Section>,
) -> Result<(Map<Seq<char>, LabelPolicyModel>, Map<Seq<char>, Seq<char>>), ErrorModel>
    decreases sections.len(),
{
    if sections.len() == 0 {
        Ok((labels, auth))
    } else {
        match labels_steps(labels, sections.first().labels@) {
            Err(e) => Err(e),
            Ok(l2) => match endpoints_steps(auth, sections.first().endpoints@) {
                Err(e) => Err(e),
                Ok(a2) => sections_steps(l2, a2, sections.drop_first()),
            },
        }
    }
}

/// The compilation of a whole document, starting from empty tables.
pub open spec fn compile_spec(sections: Seq<Section>) -> Result<
    (Map<Seq<char>, LabelPolicyModel>, Map<Seq<char>, Seq<char>>),
    ErrorModel,
> {
    sections_steps(Map::empty(), Map::empty(), sections)
}

fn compile_labels(table: &mut LabelPolicies, decls: &Vec<LabelDecl>) -> (r: Result<
    (),
    PolicyError,
>)
    ensures
        labels_steps(old(table)@, decls@) matches Ok(m) ==> r is Ok && final(table)@ == m,
        labels_steps(old(table)@, decls@) matches Err(e) ==> (r matches Err(pe) && pe@ == e),
{
    proof {
        assert(decls@.skip(0) =~= decls@);
    }
    let mut i: usize = 0;
    while i < decls.len()
        invariant
            i <= decls@.len(),
            labels_steps(table@, decls@.skip(i as int)) == labels_steps(old(table)@, decls@),
        decreases decls@.len() - i,
    {
        proof {
            assert(decls@.skip(i as int).first() == decls@[i as int]);
            assert(decls@.skip(i as int).drop_first() =~= decls@.skip(i as int + 1));
        }
        let d = &decls[i];
        match &d.name {
            None => {
                return Err(PolicyError::MissingLabelName);
            },
            Some(name) => {
                match &d.transform {
                    None => {},
                    Some(t) => {
                        match Transform::resolve(t.as_str()) {
                            None => {
                                return Err(
                                    PolicyError::UnknownTransform {
                                        label: name.clone(),
                                        transform: t.clone(),
                                    },
                                );
                            },
                            Some(tr) => {
                                match &d.except_uri {
                                    None => {
                                        table.insert(
                                            name.as_str(),
                                            LabelPolicy { transform: tr, except_uri: None },
                                        );
                                    },
                                    Some(pat) => {
                                        match Pattern::compile(pat.as_str()) {
                                            Ok(p) => {
                                                table.insert(
                                                    name.as_str(),
                                                    LabelPolicy {
                                                        transform: tr,
                                                        except_uri: Some(p),
                                                    },
                                                );
                                            },
                                            Err(_) => {
                                                return Err(
                                                    PolicyError::InvalidPattern {
                                                        pattern: pat.clone(),
                                                    },
                                                );
                                            },
                                        }
                                    },
                                }
                            },
                        }
                    },
                }
            },
        }
        i += 1;
    }
    Ok(())
}

fn compile_endpoints(auth: &mut UserAuthorization, decls: &Vec<EndpointDecl>) -> (r: Result<
    (),
    PolicyError,
>)
    ensures
        endpoints_steps(old(auth)@, decls@) matches Ok(m) ==> r is Ok && final(auth)@ == m,
        endpoints_steps(old(auth)@, decls@) matches Err(e) ==> (r matches Err(pe) && pe@ == e),
{
    proof {
        assert(decls@.skip(0) =~= decls@);
    }
    let mut i: usize = 0;
    while i < decls.len()
        invariant
            i <= decls@.len(),
            endpoints_steps(auth@, decls@.skip(i as int)) == endpoints_steps(old(auth)@, decls@),
        decreases decls@.len() - i,
    {
        proof {
            assert(decls@.skip(i as int).first() == decls@[i as int]);
            assert(decls@.skip(i as int).drop_first() =~= decls@.skip(i as int + 1));
        }
        let d = &decls[i];
        match (&d.path, &d.users) {
            (Some(path), Some(users)) => {
                match Pattern::compile(users.as_str()) {
                    Err(_) => {
                        return Err(PolicyError::InvalidPattern { pattern: users.clone() });
                    },
                    Ok(p) => {
                        match auth.add(path.as_str(), p) {
                            Ok(()) => {},
                            Err(e) => {
                                return Err(e);
                            },
                        }
                    },
                }
            },
            _ => {},
        }
        i += 1;
    }
    Ok(())
}

/// The compiled policy set: the label transform table and the path
/// authorization table, built once from a configuration document and
/// read-only afterwards.
#[derive(Debug)]
pub struct Policies {
    pub labels: LabelPolicies,
    pub user_authorization: UserAuthorization,
}

impl Default for Policies {
    /// The empty policy set: no label policies, no restricted paths.
    fn default() -> (r: Self)
        ensures
            r.labels@ == Map::<Seq<char>, LabelPolicyModel>::empty(),
            r.user_authorization@ == Map::<Seq<char>, Seq<char>>::empty(),
    {
        Policies {
            labels: LabelPolicies::default(),
            user_authorization: UserAuthorization::default(),
        }
    }
}

impl Policies {
    /// Compile a configuration document into a policy set.  Compilation is
    /// all-or-nothing: the first error aborts it and nothing is returned.
    pub fn compile(sections: &Vec<Section>) -> (r: Result<Policies, PolicyError>)
        ensures
            compile_spec(sections@) matches Ok(t) ==> (r matches Ok(p) && p.labels@ == t.0
                && p.user_authorization@ == t.1),
            compile_spec(sections@) matches Err(e) ==> (r matches Err(pe) && pe@ == e),
    {
        let mut labels = LabelPolicies::default();
        let mut user_authorization = UserAuthorization::default();
        proof {
            assert(sections@.skip(0) =~= sections@);
        }
        let mut i: usize = 0;
        while i < sections.len()
            invariant
                i <= sections@.len(),
                sections_steps(labels@, user_authorization@, sections@.skip(i as int))
                    == compile_spec(sections@),
            decreases sections@.len() - i,
        {
            proof {
                assert(sections@.skip(i as int).first() == sections@[i as int]);
                assert(sections@.skip(i as int).drop_first() =~= sections@.skip(i as int + 1));
            }
            let section = &sections[i];
            match compile_labels(&mut labels, &section.labels) {
                Ok(()) => {},
                Err(e) => {
                    return Err(e);
                },
            }
            match compile_endpoints(&mut user_authorization, &section.endpoints) {
                Ok(()) => {},
                Err(e) => {
                    return Err(e);
                },
            }
            i += 1;
        }
        Ok(Policies { labels, user_authorization })
    }

    /// Is this username allowed to execute the endpoint at this path?
    pub fn is_allowed(&self, username: Option<String>, path: &str) -> (b: bool)
        ensures
            b == allowed_spec(self.user_authorization@, opt_text(username), path@),
    {
        self.user_authorization.is_allowed(username, path)
    }

    /// The policy attached to a label, if any.
    pub fn label_policy(&self, name: &str) -> (r: Option<&LabelPolicy>)
        ensures
            match r {
                Option::Some(p) => self.labels@.contains_key(name@) && p@ == self.labels@[name@],
                Option::None => !self.labels@.contains_key(name@),
            },
    {
        self.labels.get(name)
    }
}

} // verus!
