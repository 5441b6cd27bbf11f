//! The destructive-action gate and the executor plan. A `get` lists its
//! matches and does nothing more. A `delete` asks for confirmation: an
//! answer that starts with `y` or `Y` yields exactly one delete invocation
//! per matched name, in listing order; any other answer, the empty one
//! included, yields no invocation at all.

use vstd::prelude::*;

use crate::command::Action;
use crate::flow::ParsedCommand;

verus! {

/// Whether a confirmation answer authorises the destructive action: it
/// must start with `y` or `Y`.
pub open spec fn confirmation_accepts(s: Seq<char>) -> bool {
    s.len() > 0 && (s[0] == 'y' || s[0] == 'Y')
}

/// Test a confirmation answer as `confirmation_accepts` describes.
pub fn accepts_confirmation(input: &str) -> (r: bool)
    ensures
        r == confirmation_accepts(input@),
{
    let len = input.unicode_len();
    if len == 0 {
        false
    } else {
        let c = input.get_char(0);
        c == 'y' || c == 'Y'
    }
}

/// The arguments of one invocation that carries the verb out against one
/// matched resource.
pub open spec fn exec_args_spec(
    verb: Seq<char>,
    kind: Seq<char>,
    name: Seq<char>,
    ns: Seq<char>,
) -> Seq<Seq<char>> {
    seq![verb, kind, name, "-n"@, ns]
}

/// One invocation per name, in the order the names stand in.
pub open spec fn exec_plan_spec(
    verb: Seq<char>,
    kind: Seq<char>,
    names: Seq<Seq<char>>,
    ns: Seq<char>,
) -> Seq<Seq<Seq<char>>> {
    names.map_values(|n: Seq<char>| exec_args_spec(verb, kind, n, ns))
}

/// The progress line echoed to the user before one executor invocation.
pub open spec fn echo_line_spec(
    verb: Seq<char>,
    kind: Seq<char>,
    name: Seq<char>,
    ns: Seq<char>,
) -> Seq<char> {
    "executing command kubectl "@ + verb + " "@ + kind + " "@ + name + " -n "@ + ns + " now"@
}

/// What follows the match step: a listing verb is done once its matches are
/// shown; a destructive verb either aborts, executing nothing, or executes
/// its plan, one invocation per matched name in listing order.
pub enum Decision {
    Listed,
    Aborted,
    Execute(Vec<Vec<String>>),
}

impl ParsedCommand {
    /// Build the progress line echoed before the invocation against `name`.
    pub fn echo_line(&self, name: &String) -> (r: String)
        ensures
            r@ == echo_line_spec(self.verb(), self.kind(), name@, self.namespace()),
    {
        let mut s = String::from_str("executing command kubectl ");
        let verb = self.raw_command.action.verb_token();
        s.append(verb.as_str());
        s.append(" ");
        let kind = self.raw_command.action.unwrap().kind_token();
        s.append(kind.as_str());
        s.append(" ");
        s.append(name.as_str());
        s.append(" -n ");
        s.append(self.raw_command.namespace.as_str());
        s.append(" now");
        s
    }

    /// Gate the verb behind the confirmation answer and plan the
    /// invocations. `get` never executes anything; `delete` executes
    /// exactly one invocation per matched name when the answer starts with
    /// `y` or `Y`, and none otherwise.
    pub fn decide(&self, names: &Vec<String>, confirmation: &Option<String>) -> (r: Decision)
        requires
            self.raw_command.action is Delete ==> confirmation is Some,
        ensures
            self.raw_command.action is Get ==> r is Listed,
            self.raw_command.action is Delete && !confirmation_accepts(confirmation->Some_0@)
                ==> r is Aborted,
            self.raw_command.action is Delete && confirmation_accepts(confirmation->Some_0@) ==> (
            r matches Decision::Execute(plan) && plan.deep_view() == exec_plan_spec(
                self.verb(),
                self.kind(),
                names.deep_view(),
                self.namespace(),
            )),
    {
        match &self.raw_command.action {
            Action::Get(_) => Decision::Listed,
            Action::Delete(_) => {
                let input = confirmation.as_ref().unwrap();
                if accepts_confirmation(input.as_str()) {
                    let ghost names_dv = names.deep_view();
                    let mut plan: Vec<Vec<String>> = Vec::new();
                    let mut i: usize = 0;
                    proof {
                        assert(names_dv.take(0) =~= Seq::<Seq<char>>::empty());
                        assert(plan.deep_view() =~= exec_plan_spec(
                            self.verb(),
                            self.kind(),
                            names_dv.take(0),
                            self.namespace(),
                        ));
                    }
                    while i < names.len()
                        invariant
                            i <= names.len(),
                            names_dv == names.deep_view(),
                            plan.deep_view() == exec_plan_spec(
                                self.verb(),
                                self.kind(),
                                names_dv.take(i as int),
                                self.namespace(),
                            ),
                        decreases names.len() - i,
                    {
                        let ghost prev = plan.deep_view();
                        let mut args: Vec<String> = Vec::new();
                        args.push(self.raw_command.action.verb_token());
                        args.push(self.raw_command.action.unwrap().kind_token());
                        args.push(names[i].clone());
                        args.push(String::from_str("-n"));
                        args.push(self.raw_command.namespace.clone());
                        proof {
                            assert(names_dv[i as int] == names@[i as int]@);
                            assert(args.deep_view() =~= exec_args_spec(
                                self.verb(),
                                self.kind(),
                                names_dv[i as int],
                                self.namespace(),
                            ));
                        }
                        plan.push(args);
                        proof {
                            let f = |n: Seq<char>| exec_args_spec(
                                self.verb(),
                                self.kind(),
                                n,
                                self.namespace(),
                            );
                            assert(plan.deep_view() =~= prev.push(args.deep_view()));
                            let newp = exec_plan_spec(
                                self.verb(),
                                self.kind(),
                                names_dv.take(i + 1),
                                self.namespace(),
                            );
                            assert forall|j: int| 0 <= j < newp.len() implies #[trigger] newp[j]
                                == plan.deep_view()[j] by {
                                assert(newp[j] == f(names_dv.take(i + 1)[j]));
                                if j < i {
                                    assert(names_dv.take(i + 1)[j] == names_dv.take(i as int)[j]);
                                    assert(prev[j] == f(names_dv.take(i as int)[j]));
                                } else {
                                    assert(names_dv.take(i + 1)[j] == names_dv[i as int]);
                                }
                            }
                            assert(plan.deep_view() =~= newp);
                        }
                        i = i + 1;
                    }
                    proof {
                        assert(names_dv.take(i as int) =~= names_dv);
                    }
                    Decision::Execute(plan)
                } else {
                    Decision::Aborted
                }
            },
        }
    }
}

} // verus!
