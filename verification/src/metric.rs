//! Prometheus metrics and their text exposition format.

use vstd::prelude::*;

use crate::text::{hundredths_text, push_hundredths};

verus! {

/// The kind of a Prometheus metric.
#[derive(Clone, Copy, PartialEq, Eq, Structural)]
pub enum MetricType {
    Counter,
    Gauge,
    Histogram,
    Summary,
}

impl MetricType {
    /// The metric type's name in the exposition format.
    pub open spec fn name(&self) -> Seq<char> {
        match self {
            MetricType::Counter => "counter"@,
            MetricType::Gauge => "gauge"@,
            MetricType::Histogram => "histogram"@,
            MetricType::Summary => "summary"@,
        }
    }

    /// The metric type's name in the exposition format.
    pub fn as_str(&self) -> (s: &'static str)
        ensures
            s@ == self.name(),
    {
        match self {
            MetricType::Counter => "counter",
            MetricType::Gauge => "gauge",
            MetricType::Histogram => "histogram",
            MetricType::Summary => "summary",
        }
    }
}

/// A metric: a sample and its description.
pub enum Metric {
    /// A numeric sample, held in hundredths: `hundredths` stands for the
    /// value `hundredths / 100`.
    Float { hundredths: i64, metric_type: MetricType, help: String },
}

/// What a metric holds, in mathematical terms.
pub struct MetricView {
    /// The sample, in hundredths.
    pub hundredths: int,
    /// The metric's type.
    pub metric_type: MetricType,
    /// The description.
    pub help: Seq<char>,
}

impl View for Metric {
    type V = MetricView;

    open spec fn view(&self) -> MetricView {
        match self {
            Metric::Float { hundredths, metric_type, help } => MetricView {
                hundredths: *hundredths as int,
                metric_type: *metric_type,
                help: help@,
            },
        }
    }
}

/// The exposition of a metric under `key`: a `# HELP` line, a `# TYPE`
/// line, and the sample line `key{} value`, each ending in a newline.
pub open spec fn metric_text(key: Seq<char>, m: MetricView) -> Seq<char> {
    "# HELP "@ + key + " "@ + m.help + "\n"@ + "# TYPE "@ + key + " "@ + m.metric_type.name()
        + "\n"@ + key + "{} "@ + hundredths_text(m.hundredths) + "\n"@
}

impl Metric {
    /// A gauge with the given sample (in hundredths) and description.
    pub fn gauge(hundredths: i64, help: String) -> (m: Metric)
        ensures
            m@ == (MetricView { hundredths: hundredths as int, metric_type: MetricType::Gauge, help: help@ }),
    {
        Metric::Float { hundredths, metric_type: MetricType::Gauge, help }
    }

    /// The metric in the exposition format, under the name `key`.
    pub fn format(&self, key: &str) -> (formatted: String)
        ensures
            formatted@ == metric_text(key@, self@),
    {
        match self {
            Metric::Float { hundredths, metric_type, help } => {
                let mut formatted = "# HELP ".to_owned();
                formatted.append(key);
                formatted.append(" ");
                formatted.append(help.as_str());
                formatted.append("\n");
                formatted.append("# TYPE ");
                formatted.append(key);
                formatted.append(" ");
                formatted.append(metric_type.as_str());
                formatted.append("\n");
                formatted.append(key);
                formatted.append("{} ");
                push_hundredths(&mut formatted, *hundredths);
                formatted.append("\n");
                formatted
            },
        }
    }
}

} // verus!
