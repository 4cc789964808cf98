use vstd::prelude::*;
use crate::types::ROS2TopicMetric;

verus! {

/// The topics that the application collector watches.
pub open spec fn watched_topics() -> Seq<Seq<char>> {
    seq!["/camera/image_raw"@, "/scan"@, "/odom"@]
}

/// Collector of application topic metrics. It names the topics of interest
/// and has no introspection backend yet, so every sample is empty.
pub struct ROS2Collector {
    topics: Vec<String>,
}

impl ROS2Collector {
    /// The watched topic names.
    pub closed spec fn topic_names(&self) -> Seq<Seq<char>> {
        self.topics@.map_values(|t: String| t@)
    }

    pub fn new() -> (c: Self)
        ensures
            c.topic_names() == watched_topics(),
    {
        let mut topics: Vec<String> = Vec::new();
        topics.push("/camera/image_raw".to_string());
        topics.push("/scan".to_string());
        topics.push("/odom".to_string());
        let c = ROS2Collector { topics };
        assert(c.topic_names() =~= watched_topics());
        c
    }

    /// The number of watched topics.
    pub fn topic_count(&self) -> (n: usize)
        ensures
            n == self.topic_names().len(),
    {
        self.topics.len()
    }

    /// Samples the watched topics: always empty.
    pub fn collect(&mut self) -> (r: Vec<ROS2TopicMetric>)
        ensures
            r@.len() == 0,
            final(self).topic_names() == old(self).topic_names(),
    {
        Vec::new()
    }
}

} // verus!
