//! A small experiment runner: parses experiment descriptions into numbers
//! and evaluates them, reporting failures through the library's own report
//! trees.

use vstd::prelude::*;

use crate::context::{Context, ContextV};
use crate::report::{NodeV, Report};
use crate::text::{
    all_digits, append_debug_escaped, dec_str, dec_val, debug_escape, digit_val, is_dec_digit,
    num_digits, parse_u64, parses_to_u64, str_views, u64_to_string, u64_value,
};

verus! {

/// Failure case: one experiment description could not be parsed.
#[derive(Clone, Copy, PartialEq, Eq, Structural, Debug)]
pub struct ParseExperimentError;

impl ParseExperimentError {
    /// The display message of this failure.
    pub open spec fn message_spec(self) -> Seq<char> {
        "invalid experiment description"@
    }

    /// The human-readable display text of this failure.
    pub fn message(&self) -> (r: String)
        ensures
            r@ == self.message_spec(),
    {
        String::from_str("invalid experiment description")
    }
}

/// Failure case: the experiment set could not be run.
#[derive(Clone, Copy, PartialEq, Eq, Structural, Debug)]
pub struct ExperimentError;

impl ExperimentError {
    /// The display message of this failure.
    pub open spec fn message_spec(self) -> Seq<char> {
        "experiment error: could not run experiment"@
    }

    /// The human-readable display text of this failure.
    pub fn message(&self) -> (r: String)
        ensures
            r@ == self.message_spec(),
    {
        String::from_str("experiment error: could not run experiment")
    }
}

/// Parse one experiment description: the experiment's value and its double.
pub fn parse_experiment(description: &str) -> (r: Result<(u64, u64), Report<Context>>)
    requires
        parses_to_u64(description@) ==> 2 * u64_value(description@) <= u64::MAX,
    ensures
        (r is Ok <==> parses_to_u64(description@)),
        (r matches Ok(p) ==> p.0 as nat == u64_value(description@) && p.1 == 2 * p.0),
        (r matches Err(rep) ==> rep@ == parse_experiment_error(description@)),
{
    match parse_u64(description) {
        Some(v) => Ok((v, 2 * v)),
        None => {
            let mut msg = String::from_str("\"");
            append_debug_escaped(&mut msg, description);
            msg.append("\" could not be parsed as experiment");
            let rep = Report::new(Context::ParseExperiment(ParseExperimentError)).attach(
                msg.as_str(),
            );
            proof {
                assert(rep@.attachments =~= seq![
                    "\""@ + debug_escape(description@)
                        + "\" could not be parsed as experiment"@,
                ]);
                assert(rep@ =~= parse_experiment_error(description@));
            }
            Err(rep)
        },
    }
}

/// The report `parse_experiment` returns for a rejected description: the
/// offending text is quoted with its quotes, backslashes and control
/// characters escaped, as Debug formatting writes it.
pub open spec fn parse_experiment_error(d: Seq<char>) -> NodeV {
    NodeV {
        context: ContextV::ParseExperiment(ParseExperimentError),
        attachments: seq!["\""@ + debug_escape(d) + "\" could not be parsed as experiment"@],
        children: Seq::<NodeV>::empty(),
    }
}

/// Whether the experiment at position `i` can be set up: its id names a
/// description and the description parses.
pub open spec fn exp_ok(ids: Seq<usize>, descs: Seq<Seq<char>>, i: int) -> bool {
    (ids[i] as int) < descs.len() && parses_to_u64(descs[ids[i] as int])
}

/// The result of the experiment at position `i`: its value times its double.
pub open spec fn exp_result(ids: Seq<usize>, descs: Seq<Seq<char>>, i: int) -> nat {
    u64_value(descs[ids[i] as int]) * (2 * u64_value(descs[ids[i] as int]))
}

/// The report `start_experiments` returns when the experiment at position
/// `i` is the first that cannot be set up.
pub open spec fn experiments_error(ids: Seq<usize>, descs: Seq<Seq<char>>, i: int) -> NodeV {
    if (ids[i] as int) >= descs.len() {
        NodeV {
            context: ContextV::Experiment(ExperimentError),
            attachments: seq![
                "experiment "@ + dec_str(ids[i] as nat) + " has no valid description"@,
                "unable to set up experiments"@,
            ],
            children: Seq::<NodeV>::empty(),
        }
    } else {
        NodeV {
            context: ContextV::Experiment(ExperimentError),
            attachments: seq!["unable to set up experiments"@],
            children: seq![
                NodeV {
                    context: ContextV::ParseExperiment(ParseExperimentError),
                    attachments: seq![
                        "\""@ + debug_escape(descs[ids[i] as int])
                            + "\" could not be parsed as experiment"@,
                        "experiment "@ + dec_str(ids[i] as nat) + " could not be parsed"@,
                    ],
                    children: Seq::<NodeV>::empty(),
                },
            ],
        }
    }
}

/// Set up and run every experiment named by `experiment_ids`: each id picks
/// a description, the description parses to a value, and the experiment
/// yields the product of the value and its double. The first experiment
/// that cannot be set up aborts the whole run with a report.
pub fn start_experiments(experiment_ids: &Vec<usize>, experiment_descriptions: &Vec<&str>) -> (r:
    Result<Vec<u64>, Report<Context>>)
    requires
        forall|j: int|
            0 <= j < experiment_ids@.len() && exp_ok(
                experiment_ids@,
                str_views(experiment_descriptions@),
                j,
            ) ==> 2 * u64_value(
                str_views(experiment_descriptions@)[experiment_ids@[j] as int],
            ) * u64_value(
                str_views(experiment_descriptions@)[experiment_ids@[j] as int],
            ) <= u64::MAX,
    ensures
        (r is Ok <==> (forall|j: int|
            0 <= j < experiment_ids@.len() ==> exp_ok(
                experiment_ids@,
                str_views(experiment_descriptions@),
                j,
            ))),
        (r matches Ok(v) ==> v@.len() == experiment_ids@.len() && (forall|j: int|
            0 <= j < experiment_ids@.len() ==> v@[j] as nat == exp_result(
                experiment_ids@,
                str_views(experiment_descriptions@),
                j,
            ))),
        (r matches Err(rep) ==> rep@.context == ContextV::Experiment(ExperimentError)),
        (r matches Err(rep) ==> (exists|i: int|
            0 <= i < experiment_ids@.len() && !exp_ok(
                experiment_ids@,
                str_views(experiment_descriptions@),
                i,
            ) && (forall|j: int|
                0 <= j < i ==> exp_ok(experiment_ids@, str_views(experiment_descriptions@), j))
                && rep@ == experiments_error(
                experiment_ids@,
                str_views(experiment_descriptions@),
                i,
            ))),
{
    let ghost ids = experiment_ids@;
    let ghost descs = str_views(experiment_descriptions@);
    let mut results: Vec<u64> = Vec::new();
    let mut i: usize = 0;
    while i < experiment_ids.len()
        invariant
            0 <= i <= ids.len(),
            ids == experiment_ids@,
            descs == str_views(experiment_descriptions@),
            results@.len() == i,
            forall|j: int| 0 <= j < i ==> exp_ok(ids, descs, j),
            forall|j: int| 0 <= j < i ==> #[trigger] results@[j] as nat == exp_result(ids, descs, j),
            forall|j: int|
                0 <= j < ids.len() && exp_ok(ids, descs, j) ==> 2 * u64_value(
                    descs[ids[j] as int],
                ) * u64_value(descs[ids[j] as int]) <= u64::MAX,
        decreases experiment_ids.len() - i,
    {
        let exp_id = experiment_ids[i];
        if exp_id >= experiment_descriptions.len() {
            let msg = String::from_str("experiment ").concat(
                u64_to_string(exp_id as u64).as_str(),
            ).concat(" has no valid description");
            let rep = Report::new(Context::Experiment(ExperimentError)).attach(msg.as_str()).attach(
                "unable to set up experiments",
            );
            proof {
                assert(!exp_ok(ids, descs, i as int));
                assert(rep@.attachments =~= experiments_error(ids, descs, i as int).attachments);
                assert(rep@ =~= experiments_error(ids, descs, i as int));
            }
            return Err(rep);
        }
        let description = experiment_descriptions[exp_id];
        proof {
            assert(descs[exp_id as int] == description@);
            if parses_to_u64(description@) {
                assert(exp_ok(ids, descs, i as int));
                assert(2 * u64_value(descs[ids[i as int] as int]) * u64_value(
                    descs[ids[i as int] as int],
                ) <= u64::MAX);
                assert(u64_value(description@) >= 1 ==> 2 * u64_value(description@) <= 2
                    * u64_value(description@) * u64_value(description@)) by (nonlinear_arith);
            }
        }
        match parse_experiment(description) {
            Ok((value, doubled)) => {
                proof {
                    assert(2 * u64_value(description@) * u64_value(description@) <= u64::MAX);
                    assert(value * doubled == 2 * u64_value(description@) * u64_value(
                        description@,
                    ))
                        by (nonlinear_arith)
                        requires
                            value as nat == u64_value(description@),
                            doubled == 2 * value,
                    ;
                }
                let product = value * doubled;
                results.push(product);
                proof {
                    assert(results@[i as int] as nat == exp_result(ids, descs, i as int));
                }
            },
            Err(inner) => {
                let msg = String::from_str("experiment ").concat(
                    u64_to_string(exp_id as u64).as_str(),
                ).concat(" could not be parsed");
                let annotated = inner.attach(msg.as_str());
                let rep = Report::new(Context::Experiment(ExperimentError)).with_child(
                    annotated,
                ).attach("unable to set up experiments");
                proof {
                    assert(!exp_ok(ids, descs, i as int));
                    assert(annotated@.attachments =~= experiments_error(
                        ids,
                        descs,
                        i as int,
                    ).children[0].attachments);
                    assert(annotated@ =~= experiments_error(ids, descs, i as int).children[0]);
                    assert(rep@.children =~= experiments_error(ids, descs, i as int).children);
                    assert(rep@.attachments =~= experiments_error(ids, descs, i as int).attachments);
                    assert(rep@ =~= experiments_error(ids, descs, i as int));
                }
                return Err(rep);
            },
        }
        i = i + 1;
    }
    Ok(results)
}

/// Run the demonstration experiment set: two experiment ids, the second of
/// which names a description that cannot be parsed, so the run reports
/// exactly the first-failure report for that experiment. The run hands the
/// report back; rendering or printing the outcome stays with the caller.
pub fn run() -> (r: Result<Vec<u64>, Report<Context>>)
    ensures
        r matches Err(rep) && rep@ == experiments_error(
            seq![0usize, 2usize],
            seq!["10"@, "20"@, "oejwofaewjifoaweijafoeijo"@],
            1,
        ),
{
    let mut experiment_ids: Vec<usize> = Vec::new();
    experiment_ids.push(0);
    experiment_ids.push(2);
    let mut experiment_descriptions: Vec<&str> = Vec::new();
    experiment_descriptions.push("10");
    experiment_descriptions.push("20");
    experiment_descriptions.push("oejwofaewjifoaweijafoeijo");
    proof {
        reveal_strlit("10");
        reveal_strlit("oejwofaewjifoaweijafoeijo");
        let ids = experiment_ids@;
        let descs = str_views(experiment_descriptions@);
        assert(ids.len() == 2 && ids[0] == 0usize && ids[1] == 2usize);
        assert(descs.len() == 3);
        assert(descs[0] == "10"@ && descs[2] == "oejwofaewjifoaweijafoeijo"@);
        assert(num_digits("10"@) =~= "10"@);
        assert(num_digits("oejwofaewjifoaweijafoeijo"@) =~= "oejwofaewjifoaweijafoeijo"@);
        assert("10"@.drop_last() =~= seq!['1']);
        assert(seq!['1'].drop_last() =~= Seq::<char>::empty());
        assert(dec_val(Seq::<char>::empty()) == 0);
        assert(seq!['1'].len() == 1 && seq!['1'].last() == '1');
        assert(dec_val(seq!['1']) == dec_val(seq!['1'].drop_last()) * 10 + digit_val(
            seq!['1'].last(),
        ));
        assert(dec_val(seq!['1']) == digit_val('1'));
        assert("10"@.last() == '0');
        assert(dec_val("10"@) == dec_val("10"@.drop_last()) * 10 + digit_val("10"@.last()));
        assert(dec_val("10"@) == dec_val(seq!['1']) * 10 + digit_val('0'));
        assert(dec_val("10"@) == 10);
        assert(!is_dec_digit("oejwofaewjifoaweijafoeijo"@[0]));
        assert(!parses_to_u64(descs[2]));
        assert(u64_value("10"@) == 10);
        assert(!exp_ok(ids, descs, 1));
        assert forall|j: int|
            0 <= j < ids.len() && exp_ok(ids, descs, j) implies 2 * u64_value(
            descs[ids[j] as int],
        ) * u64_value(descs[ids[j] as int]) <= u64::MAX by {
            if j == 0 {
                assert(u64_value(descs[0]) == 10);
            } else {
                assert(!exp_ok(ids, descs, j));
            }
        }
    }
    let r = start_experiments(&experiment_ids, &experiment_descriptions);
    proof {
        let ids = experiment_ids@;
        let descs = str_views(experiment_descriptions@);
        assert(ids =~= seq![0usize, 2usize]);
        assert(descs =~= seq!["10"@, "20"@, "oejwofaewjifoaweijafoeijo"@]);
        if r is Ok {
            assert(exp_ok(ids, descs, 1));
        }
        assert(all_digits("10"@)) by {
            assert forall|k: int| 0 <= k < "10"@.len() implies is_dec_digit(
                #[trigger] "10"@[k],
            ) by {
                if k == 0 {
                    assert("10"@[0] == '1');
                } else {
                    assert("10"@[1] == '0');
                }
            }
        }
        assert(exp_ok(ids, descs, 0));
        assert(2 * u64_value(descs[0]) * u64_value(descs[0]) <= u64::MAX);
        let rep = r->Err_0;
        let i = choose|i: int|
            0 <= i < ids.len() && !exp_ok(ids, descs, i) && (forall|j: int|
                0 <= j < i ==> exp_ok(ids, descs, j)) && rep@ == experiments_error(
                ids,
                descs,
                i,
            );
        assert(i == 1);
        assert(rep@ == experiments_error(
            seq![0usize, 2usize],
            seq!["10"@, "20"@, "oejwofaewjifoaweijafoeijo"@],
            1,
        ));
    }
    r
}

} // verus!
