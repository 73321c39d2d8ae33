//! Schemas of the structured payload formats.

use crate::text::same_text;
use vstd::prelude::*;

verus! {

/// The message schemas that the structured compressor knows.
#[derive(Debug, Clone, Copy, PartialEq, Eq, Structural)]
pub enum ProtoSchema {
    OtlpMetrics,
    OtlpTraces,
    Otap,
    Tpch,
    OtlpMetricsDict,
}

/// The schema that a compressor name selects, if any.
pub open spec fn spec_from_compressor_name(name: Seq<char>) -> Option<ProtoSchema> {
    if name == "otlp_metrics"@ {
        Some(ProtoSchema::OtlpMetrics)
    } else if name == "otlp_traces"@ {
        Some(ProtoSchema::OtlpTraces)
    } else if name == "otlpmetricsdict"@ {
        Some(ProtoSchema::OtlpMetricsDict)
    } else if name == "otap"@ || name == "otapnodict"@ || name == "otapdictperfile"@ {
        Some(ProtoSchema::Otap)
    } else if name == "tpch_proto"@ {
        Some(ProtoSchema::Tpch)
    } else {
        None
    }
}

impl ProtoSchema {
    /// Looks a schema up by compressor name.
    pub fn from_compressor_name(name: &str) -> (r: Option<Self>)
        ensures
            r == spec_from_compressor_name(name@),
    {
        if same_text(name, "otlp_metrics") {
            Some(ProtoSchema::OtlpMetrics)
        } else if same_text(name, "otlp_traces") {
            Some(ProtoSchema::OtlpTraces)
        } else if same_text(name, "otlpmetricsdict") {
            Some(ProtoSchema::OtlpMetricsDict)
        } else if same_text(name, "otap") || same_text(name, "otapnodict") || same_text(
            name,
            "otapdictperfile",
        ) {
            Some(ProtoSchema::Otap)
        } else if same_text(name, "tpch_proto") {
            Some(ProtoSchema::Tpch)
        } else {
            None
        }
    }
}

} // verus!
