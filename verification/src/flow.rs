//! The match-and-act flow: a parsed command caches its compiled pattern,
//! decides which listing invocation to run, and filters the listing that
//! came back. The header line is echoed unchanged; each later line gives up
//! its first column as a candidate name, and the names the pattern matches
//! are kept in listing order. When the pattern does not compile, the
//! pattern string is taken as a literal resource name and exactly that one
//! resource is queried.

use vstd::prelude::*;

use crate::command::{DetailedResource, RawCommand};
use crate::pattern::{pattern_valid, regex_matches, CompiledPattern};
use crate::text::{line_name, split_at};
use crate::text;

verus! {

/// A command together with its compiled pattern, once compilation has been
/// tried. The pattern is compiled at most once and kept for the rest of
/// the run.
pub struct ParsedCommand {
    pub raw_command: RawCommand,
    pub regex: Option<CompiledPattern>,
}

impl RawCommand {
    /// Wrap a freshly parsed command; no pattern compilation has been tried.
    pub fn into_parsed(self) -> (r: ParsedCommand)
        ensures
            r.raw_command == self,
            r.regex is None,
    {
        ParsedCommand { raw_command: self, regex: None }
    }
}

/// The arguments of the listing invocation when a pattern is present:
/// list every resource of the kind in the namespace.
pub open spec fn listing_args_spec(kind: Seq<char>, ns: Seq<char>) -> Seq<Seq<char>> {
    seq!["get"@, kind, "-n"@, ns]
}

/// The arguments of the single direct query when no pattern is present:
/// list the one literal name. The query is always a `get`, whatever the
/// command's verb; a destructive verb is carried out only by the gated
/// executor, after confirmation.
pub open spec fn direct_args_spec(kind: Seq<char>, ns: Seq<char>, name: Seq<char>) -> Seq<
    Seq<char>,
> {
    seq!["get"@, kind, "-n"@, ns, name]
}

/// What to run to obtain the candidate resources: a capture-and-filter
/// listing when a pattern is present, otherwise one direct query whose
/// candidate set is exactly the one literal name.
pub enum ListingPlan {
    Filtered(Vec<String>),
    Direct(Vec<String>, String),
}

/// The data lines whose first-column name the pattern matches, in listing
/// order.
pub open spec fn matched_lines_of(lines: Seq<Seq<char>>, pat: Seq<char>) -> Seq<Seq<char>> {
    lines.filter(|l: Seq<char>| regex_matches(pat, line_name(l)))
}

/// The first-column names of the matched lines, in listing order: exactly
/// the names the pattern matches, taken from the lines in order.
pub open spec fn matched_names_of(lines: Seq<Seq<char>>, pat: Seq<char>) -> Seq<Seq<char>> {
    matched_lines_of(lines, pat).map_values(|l: Seq<char>| line_name(l))
}

/// The matched names are exactly the first-column names that the pattern
/// matches, taken over all the data lines: a name stands among the matched
/// names if and only if some line carries it as its first column and the
/// pattern matches it. Relative listing order is preserved by construction,
/// since `matched_names_of` filters the lines in order.
pub proof fn lemma_matched_names_exact(lines: Seq<Seq<char>>, pat: Seq<char>)
    ensures
        forall|n: Seq<char>|
            #[trigger] matched_names_of(lines, pat).contains(n) <==> exists|i: int|
                0 <= i < lines.len() && #[trigger] line_name(lines[i]) == n && regex_matches(
                    pat,
                    n,
                ),
{
    let pred = |l: Seq<char>| regex_matches(pat, line_name(l));
    let f = |l: Seq<char>| line_name(l);
    let ml = matched_lines_of(lines, pat);
    let mn = matched_names_of(lines, pat);
    assert forall|n: Seq<char>| #[trigger] mn.contains(n) implies exists|i: int|
        0 <= i < lines.len() && #[trigger] line_name(lines[i]) == n && regex_matches(pat, n) by {
        let j = choose|j: int| 0 <= j < mn.len() && mn[j] == n;
        assert(mn[j] == f(ml[j]));
        lines.lemma_filter_pred(pred, j);
        assert(ml.contains(ml[j]));
        lines.lemma_filter_contains_rev(pred, ml[j]);
        let i = choose|i: int| 0 <= i < lines.len() && lines[i] == ml[j];
        assert(line_name(lines[i]) == n && regex_matches(pat, n));
    }
    assert forall|n: Seq<char>|
        (exists|i: int|
            0 <= i < lines.len() && #[trigger] line_name(lines[i]) == n && regex_matches(
                pat,
                n,
            )) implies #[trigger] mn.contains(n) by {
        let i = choose|i: int|
            0 <= i < lines.len() && #[trigger] line_name(lines[i]) == n && regex_matches(pat, n);
        assert(pred(lines[i]));
        lines.lemma_filter_contains(pred, i);
        let j = choose|j: int| 0 <= j < ml.len() && ml[j] == lines[i];
        assert(mn[j] == f(ml[j]));
        assert(mn[j] == n);
    }
}

/// What the filter step hands back: the header line unchanged, and the
/// matched lines with their names.
pub struct FilterOutcome {
    pub header: String,
    pub matched_lines: Vec<String>,
    pub matched_names: Vec<String>,
}

impl ParsedCommand {
    /// The verb token of this command.
    pub open spec fn verb(self) -> Seq<char> {
        self.raw_command.action.verb_spec()
    }

    /// The kind token of this command.
    pub open spec fn kind(self) -> Seq<char> {
        self.raw_command.action.resource_spec().kind_spec()
    }

    /// The name-or-pattern argument of this command.
    pub open spec fn target(self) -> Seq<char> {
        self.raw_command.action.resource_spec().detail_spec().resource_name@
    }

    /// The namespace of this command.
    pub open spec fn namespace(self) -> Seq<char> {
        self.raw_command.namespace@
    }

    /// Try to compile the name-or-pattern string, once: an already cached
    /// pattern is kept, a valid pattern is compiled and cached, and an
    /// invalid one leaves the cache empty, which later selects the literal
    /// fallback.
    pub fn check_regex(&mut self, d: &DetailedResource)
        ensures
            final(self).raw_command == old(self).raw_command,
            old(self).regex is Some ==> final(self).regex == old(self).regex,
            old(self).regex is None && pattern_valid(d.resource_name@) ==> (final(self)
                .regex matches Some(p) && p.src() == d.resource_name@),
            old(self).regex is None && !pattern_valid(d.resource_name@) ==> final(self).regex
                is None,
    {
        if self.regex.is_none() {
            match CompiledPattern::new(&d.resource_name) {
                Option::Some(p) => {
                    self.regex = Some(p);
                },
                Option::None => {},
            }
        }
    }

    /// Decide the listing invocation from the cached compilation outcome.
    pub fn listing_plan(&self) -> (r: ListingPlan)
        ensures
            self.regex is Some ==> (r matches ListingPlan::Filtered(args) && args.deep_view()
                == listing_args_spec(self.kind(), self.namespace())),
            self.regex is None ==> (r matches ListingPlan::Direct(args, name) && args.deep_view()
                == direct_args_spec(self.kind(), self.namespace(), self.target())
                && name@ == self.target()),
    {
        let resource = self.raw_command.action.unwrap();
        let kind = resource.kind_token();
        let ns = self.raw_command.namespace.clone();
        if self.regex.is_some() {
            let mut args: Vec<String> = Vec::new();
            args.push(String::from_str("get"));
            args.push(kind);
            args.push(String::from_str("-n"));
            args.push(ns);
            proof {
                assert(args.deep_view() =~= listing_args_spec(self.kind(), self.namespace()));
            }
            ListingPlan::Filtered(args)
        } else {
            let name = resource.unwrap().resource_name.clone();
            let mut args: Vec<String> = Vec::new();
            args.push(String::from_str("get"));
            args.push(kind);
            args.push(String::from_str("-n"));
            args.push(ns);
            args.push(name);
            let name_again = resource.unwrap().resource_name.clone();
            proof {
                assert(args.deep_view() =~= direct_args_spec(
                    self.kind(),
                    self.namespace(),
                    self.target(),
                ));
            }
            ListingPlan::Direct(args, name_again)
        }
    }

    /// Compile the pattern if that has not been tried, then decide the
    /// listing invocation. An invalid pattern falls back to querying the
    /// pattern string itself as a literal name: the direct query lists
    /// exactly that one resource, and executes nothing.
    pub fn prepare(&mut self) -> (r: ListingPlan)
        ensures
            final(self).raw_command == old(self).raw_command,
            old(self).regex is Some ==> final(self).regex == old(self).regex,
            old(self).regex is None && pattern_valid(old(self).target()) ==> (final(self)
                .regex matches Some(p) && p.src() == old(self).target()),
            old(self).regex is None && !pattern_valid(old(self).target()) ==> final(self).regex
                is None,
            final(self).regex is Some ==> (r matches ListingPlan::Filtered(args)
                && args.deep_view() == listing_args_spec(old(self).kind(), old(self).namespace())),
            final(self).regex is None ==> (r matches ListingPlan::Direct(args, name)
                && args.deep_view() == direct_args_spec(
                old(self).kind(),
                old(self).namespace(),
                old(self).target(),
            ) && name@ == old(self).target()),
    {
        let d = self.raw_command.action.unwrap().unwrap().clone();
        self.check_regex(&d);
        self.listing_plan()
    }

    /// Filter a captured listing by the compiled pattern: echo the header
    /// line unchanged, and keep exactly the data lines whose first-column
    /// name the pattern matches, in listing order.
    pub fn filter_listing(&self, listing: &str) -> (r: FilterOutcome)
        requires
            self.regex is Some,
        ensures
            ({
                let pat = self.regex->Some_0.src();
                let pieces = split_at(listing@, '\n');
                &&& r.header@ == pieces[0]
                &&& r.matched_lines.deep_view() == matched_lines_of(pieces.drop_first(), pat)
                &&& r.matched_names.deep_view() == matched_names_of(pieces.drop_first(), pat)
            }),
    {
        let pat = self.regex.as_ref().unwrap();
        let ghost patv = pat.src();
        let lines = text::split_str(listing, '\n');
        let ghost pieces = split_at(listing@, '\n');
        let ghost data = pieces.drop_first();
        proof {
            assert(pieces.len() >= 1);
            assert(lines.deep_view()[0] == lines@[0]@);
        }
        let header = lines[0].clone();
        let mut matched_lines: Vec<String> = Vec::new();
        let mut matched_names: Vec<String> = Vec::new();
        let mut i: usize = 1;
        proof {
            assert(data.take(0) =~= Seq::<Seq<char>>::empty());
            reveal(Seq::filter);
            assert(matched_lines.deep_view() =~= matched_lines_of(data.take(0), patv));
            assert(matched_names.deep_view() =~= matched_names_of(data.take(0), patv));
        }
        while i < lines.len()
            invariant
                1 <= i <= lines.len(),
                self.regex is Some,
                patv == self.regex->Some_0.src(),
                *pat == self.regex->Some_0,
                lines.deep_view() == pieces,
                data == pieces.drop_first(),
                matched_lines.deep_view() == matched_lines_of(data.take(i - 1), patv),
                matched_names.deep_view() == matched_names_of(data.take(i - 1), patv),
            decreases lines.len() - i,
        {
            let line = &lines[i];
            proof {
                assert(lines.deep_view()[i as int] == lines@[i as int]@);
                assert(data[i - 1] == pieces[i as int]);
            }
            let name = text::name_of_line(line.as_str());
            let ghost prev_lines = matched_lines.deep_view();
            let ghost prev_names = matched_names.deep_view();
            if pat.is_match(&name) {
                matched_lines.push(line.clone());
                matched_names.push(name);
            }
            proof {
                let pred = |l: Seq<char>| regex_matches(patv, line_name(l));
                assert(data.take(i as int).drop_last() =~= data.take(i - 1));
                assert(data.take(i as int).last() == data[i - 1]);
                reveal(Seq::filter);
                if pred(data[i - 1]) {
                    assert(matched_lines_of(data.take(i as int), patv) == matched_lines_of(
                        data.take(i - 1),
                        patv,
                    ).push(data[i - 1]));
                    assert(matched_lines.deep_view() =~= prev_lines.push(data[i - 1]));
                    assert(matched_names.deep_view() =~= prev_names.push(line_name(data[i - 1])));
                    let oldf = matched_lines_of(data.take(i - 1), patv);
                    let newf = matched_lines_of(data.take(i as int), patv);
                    assert forall|j: int| 0 <= j < newf.len() implies #[trigger] matched_names_of(
                        data.take(i as int),
                        patv,
                    )[j] == matched_names.deep_view()[j] by {
                        assert(matched_names_of(data.take(i as int), patv)[j] == line_name(
                            newf[j],
                        ));
                        if j < oldf.len() {
                            assert(newf[j] == oldf[j]);
                            assert(prev_names[j] == line_name(oldf[j]));
                        } else {
                            assert(newf[j] == data[i - 1]);
                        }
                    }
                    assert(matched_names.deep_view() =~= matched_names_of(
                        data.take(i as int),
                        patv,
                    ));
                } else {
                    assert(matched_lines_of(data.take(i as int), patv) == matched_lines_of(
                        data.take(i - 1),
                        patv,
                    ));
                    assert(matched_names.deep_view() =~= matched_names_of(
                        data.take(i as int),
                        patv,
                    ));
                }
                assert(matched_lines.deep_view() == matched_lines_of(data.take(i as int), patv));
            }
            i = i + 1;
        }
        proof {
            assert(data.take(i - 1) =~= data);
        }
        FilterOutcome { header, matched_lines, matched_names }
    }
}

} // verus!
