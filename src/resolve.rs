//! Detector resolution: which registered detectors a route sends to the
//! orchestrator, in which role, and under which key.

use crate::api::{OrchestratorDetector, ParamMap};
use crate::config::{contains_name, names_of, DetectorConfig};
use vstd::prelude::*;

verus! {

/// Whether `d` is sent for a route that lists `names`, in the given role: the
/// route names it, it has parameters, and it applies to that role.
pub open spec fn contributes(names: Seq<Seq<char>>, d: DetectorConfig, input: bool) -> bool {
    names.contains(d.name@) && d.detector_params is Some && d.applies(input)
}

/// The parameters sent for one role: each contributing detector, in the order
/// of `ds`, sets its parameters under its server key; a later detector with the
/// same key replaces an earlier one.
pub open spec fn role_params(names: Seq<Seq<char>>, ds: Seq<DetectorConfig>, input: bool) -> Map<
    Seq<char>,
    serde_json::Value,
>
    decreases ds.len(),
{
    if ds.len() == 0 {
        Map::empty()
    } else {
        let prev = role_params(names, ds.drop_last(), input);
        let d = ds.last();
        if contributes(names, d, input) {
            prev.insert(d.server_key(), d.detector_params->0)
        } else {
            prev
        }
    }
}

/// Builds the detector selection for a route that lists `detectors`, from the
/// registered `detector_config`.
pub fn get_orchestrator_detectors(detectors: Vec<String>, detector_config: Vec<DetectorConfig>) -> (r:
    OrchestratorDetector)
    ensures
        r.input.wf(),
        r.output.wf(),
        r.input.view() == role_params(names_of(detectors@), detector_config@, true),
        r.output.view() == role_params(names_of(detectors@), detector_config@, false),
{
    let ghost names = names_of(detectors@);
    let mut input = ParamMap::new();
    let mut output = ParamMap::new();
    let mut i: usize = 0;
    while i < detector_config.len()
        invariant
            0 <= i <= detector_config@.len(),
            names == names_of(detectors@),
            input.wf(),
            output.wf(),
            input.view() == role_params(names, detector_config@.subrange(0, i as int), true),
            output.view() == role_params(names, detector_config@.subrange(0, i as int), false),
        decreases detector_config@.len() - i,
    {
        let d = &detector_config[i];
        proof {
            let prefix = detector_config@.subrange(0, i + 1);
            assert(prefix.drop_last() =~= detector_config@.subrange(0, i as int));
            assert(prefix.last() == d);
        }
        if contains_name(&detectors, &d.name) {
            if let Some(params) = &d.detector_params {
                let key = d.server_key_string();
                if d.input {
                    input.insert(key.clone(), params.clone());
                }
                if d.output {
                    output.insert(key, params.clone());
                }
            }
        }
        i += 1;
    }
    assert(detector_config@.subrange(0, detector_config@.len() as int) =~= detector_config@);
    OrchestratorDetector { input, output }
}

/// Whether `d` is sent under `key` in the given role.
pub open spec fn sent_under(names: Seq<Seq<char>>, d: DetectorConfig, input: bool, key: Seq<char>) -> bool {
    contributes(names, d, input) && d.server_key() == key
}

/// Resolution keeps exactly the detectors that the route names, that have
/// parameters and that apply to the role: a key is present if and only if
/// such a detector has it as server key, and it then holds the parameters of
/// the last such detector.
pub proof fn lemma_selection_contents(names: Seq<Seq<char>>, ds: Seq<DetectorConfig>, input: bool, key: Seq<char>)
    ensures
        role_params(names, ds, input).contains_key(key) <==> exists|i: int|
            0 <= i < ds.len() && #[trigger] sent_under(names, ds[i], input, key),
        forall|i: int|
            0 <= i < ds.len() && #[trigger] sent_under(names, ds[i], input, key) && (forall|j: int|
                i < j < ds.len() ==> !#[trigger] sent_under(names, ds[j], input, key))
                ==> role_params(names, ds, input)[key] == ds[i].detector_params->0,
{
    lemma_selection_domain(names, ds, input, key);
    lemma_selection_value(names, ds, input, key);
}

proof fn lemma_selection_domain(names: Seq<Seq<char>>, ds: Seq<DetectorConfig>, input: bool, key: Seq<char>)
    ensures
        role_params(names, ds, input).contains_key(key) <==> exists|i: int|
            0 <= i < ds.len() && #[trigger] sent_under(names, ds[i], input, key),
    decreases ds.len(),
{
    if ds.len() > 0 {
        let rest = ds.drop_last();
        let n = ds.len() - 1;
        lemma_selection_domain(names, rest, input, key);
        assert(ds.last() == ds[n]);
        if sent_under(names, ds[n], input, key) {
            assert(role_params(names, ds, input).contains_key(key));
        }
        if exists|i: int| 0 <= i < rest.len() && #[trigger] sent_under(names, rest[i], input, key) {
            let i = choose|i: int| 0 <= i < rest.len() && #[trigger] sent_under(names, rest[i], input, key);
            assert(sent_under(names, ds[i], input, key));
        }
        if exists|i: int| 0 <= i < ds.len() && #[trigger] sent_under(names, ds[i], input, key) {
            let i = choose|i: int| 0 <= i < ds.len() && #[trigger] sent_under(names, ds[i], input, key);
            if i < n {
                assert(sent_under(names, rest[i], input, key));
            }
        }
    }
}

proof fn lemma_selection_value(names: Seq<Seq<char>>, ds: Seq<DetectorConfig>, input: bool, key: Seq<char>)
    ensures
        forall|i: int|
            0 <= i < ds.len() && #[trigger] sent_under(names, ds[i], input, key) && (forall|j: int|
                i < j < ds.len() ==> !#[trigger] sent_under(names, ds[j], input, key))
                ==> role_params(names, ds, input)[key] == ds[i].detector_params->0,
    decreases ds.len(),
{
    if ds.len() > 0 {
        let rest = ds.drop_last();
        let n = ds.len() - 1;
        lemma_selection_value(names, rest, input, key);
        assert forall|i: int|
            0 <= i < ds.len() && #[trigger] sent_under(names, ds[i], input, key) && (forall|j: int|
                i < j < ds.len() ==> !#[trigger] sent_under(names, ds[j], input, key))
                implies role_params(names, ds, input)[key] == ds[i].detector_params->0 by {
            if i < n {
                assert(!sent_under(names, ds[n], input, key));
                assert(rest[i] == ds[i]);
                assert forall|j: int| i < j < rest.len() implies !#[trigger] sent_under(
                    names,
                    rest[j],
                    input,
                    key,
                ) by {
                    assert(rest[j] == ds[j]);
                }
            }
        }
    }
}

} // verus!
