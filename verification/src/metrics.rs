//! The metric samples the probe emits, and the metric collector's address.

use vstd::prelude::*;

verus! {

/// One named observation for the metrics collaborator: a histogram-style
/// sample with a name, a string value and a fixed environment tag.
#[derive(Debug, Clone, PartialEq, Eq)]
pub struct MetricSample {
    pub name: String,
    pub value: String,
    pub tag: String,
}

/// Mathematical view of a [`MetricSample`]: its three texts as character
/// sequences.
#[verifier::ext_equal]
pub struct MetricSampleV {
    pub name: Seq<char>,
    pub value: Seq<char>,
    pub tag: Seq<char>,
}

impl View for MetricSample {
    type V = MetricSampleV;

    open spec fn view(&self) -> MetricSampleV {
        MetricSampleV { name: self.name@, value: self.value@, tag: self.tag@ }
    }
}

/// The sample the failure check emits for a failed task: `task_failed`,
/// carrying the task's error message, under the fixed environment tag.
pub open spec fn failure_sample(error_message: Seq<char>) -> MetricSampleV {
    MetricSampleV { name: "task_failed"@, value: error_message, tag: "env:production"@ }
}

/// The sample the staleness check emits for an old task: `task_old`, with an
/// empty value, under the fixed environment tag.
pub open spec fn staleness_sample() -> MetricSampleV {
    MetricSampleV { name: "task_old"@, value: ""@, tag: "env:production"@ }
}

/// View of a list of samples, in emission order.
pub open spec fn samples_view(samples: Seq<MetricSample>) -> Seq<MetricSampleV> {
    samples.map_values(|s: MetricSample| s@)
}

/// Address of the metric collector the emitting process should talk to.
pub fn get_address() -> (r: String)
    ensures
        r@ == "localhost:7700"@,
{
    "localhost:7700".to_owned()
}

} // verus!
