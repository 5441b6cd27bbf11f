//! The parsed form of a command line: a verb applied to one resource kind,
//! a name-or-pattern string, and a namespace.

use vstd::prelude::*;

verus! {

/// The name-or-pattern argument of a command: a resource name, or a regular
/// expression that resource names are filtered by.
#[derive(Debug)]
pub struct DetailedResource {
    pub resource_name: String,
}

impl Clone for DetailedResource {
    fn clone(&self) -> (r: Self)
        ensures
            r == *self,
    {
        DetailedResource { resource_name: self.resource_name.clone() }
    }
}

/// The resource kind as the user wrote it. `pod`/`pods` both stand for pods,
/// `service`/`svc` both stand for services.
#[derive(Debug)]
pub enum Resource {
    Pod(DetailedResource),
    Pods(DetailedResource),
    Service(DetailedResource),
    Svc(DetailedResource),
}

impl Resource {
    /// The name-or-pattern argument carried by any of the variants.
    pub open spec fn detail_spec(self) -> DetailedResource {
        match self {
            Resource::Pod(d) => d,
            Resource::Pods(d) => d,
            Resource::Service(d) => d,
            Resource::Svc(d) => d,
        }
    }

    /// The kind token handed to the underlying CLI: both pod aliases map to
    /// `pod`, both service aliases map to `svc`.
    pub open spec fn kind_spec(self) -> Seq<char> {
        match self {
            Resource::Pod(_) | Resource::Pods(_) => "pod"@,
            _ => "svc"@,
        }
    }

    pub fn unwrap(&self) -> (r: &DetailedResource)
        ensures
            *r == self.detail_spec(),
    {
        match self {
            Resource::Pod(d) => d,
            Resource::Pods(d) => d,
            Resource::Service(d) => d,
            Resource::Svc(d) => d,
        }
    }

    pub fn kind_token(&self) -> (r: String)
        ensures
            r@ == self.kind_spec(),
    {
        match self {
            Resource::Pod(_) | Resource::Pods(_) => String::from_str("pod"),
            _ => String::from_str("svc"),
        }
    }
}

/// The verb: list matching resources, or delete them.
#[derive(Debug)]
pub enum Action {
    Get(Resource),
    Delete(Resource),
}

impl Action {
    /// The resource argument carried by either verb.
    pub open spec fn resource_spec(self) -> Resource {
        match self {
            Action::Get(r) => r,
            Action::Delete(r) => r,
        }
    }

    /// The verb token handed to the underlying CLI.
    pub open spec fn verb_spec(self) -> Seq<char> {
        match self {
            Action::Get(_) => "get"@,
            Action::Delete(_) => "delete"@,
        }
    }

    pub fn unwrap(&self) -> (r: &Resource)
        ensures
            *r == self.resource_spec(),
    {
        match self {
            Action::Get(r) => r,
            Action::Delete(r) => r,
        }
    }

    pub fn verb_token(&self) -> (r: String)
        ensures
            r@ == self.verb_spec(),
    {
        match self {
            Action::Get(_) => String::from_str("get"),
            Action::Delete(_) => String::from_str("delete"),
        }
    }
}

/// A whole command line once parsed: the verb with its resource argument,
/// and the namespace it applies in.
#[derive(Debug)]
pub struct RawCommand {
    pub action: Action,
    pub namespace: String,
}

/// Whether a token introduces the namespace option.
pub open spec fn flag_token(t: Seq<char>) -> bool {
    t == "-n"@ || t == "--namespace"@
}

/// Whether a token is one of the two verbs.
pub open spec fn verb_token_ok(t: Seq<char>) -> bool {
    t == "get"@ || t == "delete"@
}

/// Whether a token is one of the accepted resource-kind aliases.
pub open spec fn kind_token_ok(t: Seq<char>) -> bool {
    t == "pod"@ || t == "pods"@ || t == "service"@ || t == "svc"@
}

/// Separate the namespace option from the positional tokens. `None` when
/// the option list is malformed: a namespace flag without a value after it,
/// or the flag given twice. Otherwise the positional tokens in order, and
/// the namespace value if one was given.
pub open spec fn scan_args(args: Seq<Seq<char>>) -> Option<(Seq<Seq<char>>, Option<Seq<char>>)>
    decreases args.len(),
{
    if args.len() == 0 {
        Some((Seq::empty(), None))
    } else if flag_token(args[0]) {
        if args.len() == 1 {
            None
        } else {
            match scan_args(args.skip(2)) {
                Option::None => None,
                Option::Some((pos, ns)) => if ns is Some {
                    None
                } else {
                    Some((pos, Some(args[1])))
                },
            }
        }
    } else {
        match scan_args(args.drop_first()) {
            Option::None => None,
            Option::Some((pos, ns)) => Some((seq![args[0]] + pos, ns)),
        }
    }
}

/// Whether a whole argument list parses: well-formed options, exactly three
/// positional tokens, and the first two a verb and a resource kind.
pub open spec fn args_valid(args: Seq<Seq<char>>) -> bool {
    match scan_args(args) {
        Option::None => false,
        Option::Some((pos, ns)) => pos.len() == 3 && verb_token_ok(pos[0]) && kind_token_ok(
            pos[1],
        ),
    }
}

/// The usage line reported when an argument list does not parse.
pub open spec fn usage_spec() -> Seq<char> {
    "usage: rkctl <get|delete> <pod|pods|service|svc> <name-or-pattern> [-n|--namespace <namespace>]"@
}

impl RawCommand {
    /// Whether this command is the one that the tokens of a parsed argument
    /// list describe: the verb from the first positional token, the resource
    /// kind from the second, the name-or-pattern from the third, and the
    /// namespace from the option, or `default` when none was given.
    pub open spec fn corresponds(self, pos: Seq<Seq<char>>, ns: Option<Seq<char>>) -> bool {
        &&& (self.action is Get <==> pos[0] == "get"@)
        &&& (self.action is Delete <==> pos[0] == "delete"@)
        &&& (pos[1] == "pod"@ ==> self.action.resource_spec() is Pod)
        &&& (pos[1] == "pods"@ ==> self.action.resource_spec() is Pods)
        &&& (pos[1] == "service"@ ==> self.action.resource_spec() is Service)
        &&& (pos[1] == "svc"@ ==> self.action.resource_spec() is Svc)
        &&& self.action.resource_spec().detail_spec().resource_name@ == pos[2]
        &&& self.namespace@ == match ns {
            Option::Some(n) => n,
            Option::None => "default"@,
        }
    }

    /// Parse an argument list (without the program name) into a command, or
    /// report the usage line when it does not parse.
    pub fn new(args: &Vec<String>) -> (r: Result<RawCommand, String>)
        ensures
            r is Ok <==> args_valid(args.deep_view()),
            r matches Ok(c) ==> scan_args(args.deep_view()) matches Some((pos, ns))
                && c.corresponds(pos, ns),
            r matches Err(e) ==> e@ == usage_spec(),
    {
        proof {
            assert(args.deep_view().skip(0) =~= args.deep_view());
        }
        let scanned = scan_tokens(args, 0);
        match scanned {
            Option::None => Err(usage_string()),
            Option::Some((pos, ns)) => {
                if pos.len() != 3 {
                    return Err(usage_string());
                }
                proof {
                    assert(pos.deep_view()[0] == pos@[0]@);
                    assert(pos.deep_view()[1] == pos@[1]@);
                    assert(pos.deep_view()[2] == pos@[2]@);
                    reveal_strlit("get");
                    reveal_strlit("delete");
                    reveal_strlit("pod");
                    reveal_strlit("pods");
                    reveal_strlit("service");
                    reveal_strlit("svc");
                    assert("pod"@ != "svc"@) by {
                        assert("pod"@[0] == 'p' && "svc"@[0] == 's');
                    }
                    assert("pods"@ != "svc"@) by {
                        assert("pods"@.len() != "svc"@.len());
                    }
                    assert("pod"@ != "pods"@ && "pod"@ != "service"@ && "pods"@ != "service"@
                        && "service"@ != "svc"@) by {
                        assert("pod"@.len() == 3 && "pods"@.len() == 4 && "service"@.len() == 7
                            && "svc"@.len() == 3);
                    }
                    assert("get"@ != "delete"@) by {
                        assert("get"@.len() != "delete"@.len());
                    }
                }
                let name = pos[2].clone();
                let d = DetailedResource { resource_name: name };
                let kind = &pos[1];
                let resource: Resource;
                if *kind == String::from_str("pod") {
                    resource = Resource::Pod(d);
                } else if *kind == String::from_str("pods") {
                    resource = Resource::Pods(d);
                } else if *kind == String::from_str("service") {
                    resource = Resource::Service(d);
                } else if *kind == String::from_str("svc") {
                    resource = Resource::Svc(d);
                } else {
                    return Err(usage_string());
                }
                let verb = &pos[0];
                let act: Action;
                if *verb == String::from_str("get") {
                    act = Action::Get(resource);
                } else if *verb == String::from_str("delete") {
                    act = Action::Delete(resource);
                } else {
                    return Err(usage_string());
                }
                let namespace: String = match ns {
                    Option::Some(n) => n,
                    Option::None => String::from_str("default"),
                };
                Ok(RawCommand { action: act, namespace })
            },
        }
    }
}

/// The usage line as an owned string.
fn usage_string() -> (r: String)
    ensures
        r@ == usage_spec(),
{
    String::from_str(
        "usage: rkctl <get|delete> <pod|pods|service|svc> <name-or-pattern> [-n|--namespace <namespace>]",
    )
}

/// Scan the argument tokens from position `i` on, separating the namespace
/// option from the positional tokens as `scan_args` describes.
fn scan_tokens(args: &Vec<String>, i: usize) -> (r: Option<(Vec<String>, Option<String>)>)
    requires
        i <= args.len(),
    ensures
        ({
            let sp = scan_args(args.deep_view().skip(i as int));
            match r {
                Option::None => sp is None,
                Option::Some((pos, ns)) => {
                    &&& sp matches Some((spos, sns))
                    &&& pos.deep_view() == spos
                    &&& (ns is Some <==> sns is Some)
                    &&& (ns matches Some(v) ==> sns == Option::Some(v@))
                },
            }
        }),
    decreases args.len() - i,
{
    let ghost whole = args.deep_view().skip(i as int);
    if i == args.len() {
        let empty: Vec<String> = Vec::new();
        proof {
            assert(whole =~= Seq::<Seq<char>>::empty());
            assert(empty.deep_view() =~= Seq::<Seq<char>>::empty());
        }
        Some((empty, None))
    } else {
        let a = &args[i];
        proof {
            assert(whole[0] == args.deep_view()[i as int]);
        }
        if *a == String::from_str("-n") || *a == String::from_str("--namespace") {
            if i + 1 == args.len() {
                assert(whole.len() == 1);
                None
            } else {
                proof {
                    assert(args.deep_view().skip(i + 2) =~= whole.skip(2));
                }
                match scan_tokens(args, i + 2) {
                    Option::None => None,
                    Option::Some((pos, ns)) => match ns {
                        Option::Some(_) => None,
                        Option::None => {
                            let value = args[i + 1].clone();
                            proof {
                                assert(whole[1] == args.deep_view()[i + 1]);
                            }
                            Some((pos, Some(value)))
                        },
                    },
                }
            }
        } else {
            proof {
                assert(args.deep_view().skip(i + 1) =~= whole.drop_first());
            }
            match scan_tokens(args, i + 1) {
                Option::None => None,
                Option::Some((mut pos, ns)) => {
                    let ghost rest_dv = pos.deep_view();
                    pos.insert(0, a.clone());
                    proof {
                        assert(pos.deep_view() =~= seq![whole[0]] + rest_dv);
                    }
                    Some((pos, ns))
                },
            }
        }
    }
}

} // verus!
