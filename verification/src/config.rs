//! Configuration of the runtime trace.
use std::time::Duration;
use vstd::prelude::*;

verus! {

/// Configuration for the runtime trace.
#[derive(Default, Debug, Clone)]
pub struct Config {
    pub(crate) consumer_thread_sleep_duration: Option<Duration>,
    pub(crate) num_shard: Option<usize>,
}

impl Config {
    /// How long the consumer thread sleeps between collections, if set.
    pub closed spec fn spec_sleep_duration(&self) -> Option<Duration> {
        self.consumer_thread_sleep_duration
    }

    /// The number of span queue shards, if set.
    pub closed spec fn spec_num_shard(&self) -> Option<usize> {
        self.num_shard
    }

    /// Create a new configuration with the default values.
    pub fn new() -> (res: Self)
        ensures
            res.spec_sleep_duration() is None,
            res.spec_num_shard() is None,
    {
        Config { consumer_thread_sleep_duration: None, num_shard: None }
    }

    /// Set the consumer thread sleep duration.
    pub fn consumer_thread_sleep_duration(&mut self, duration: Duration) -> (res: &mut Self)
        ensures
            res.spec_sleep_duration() == Some(duration),
            res.spec_num_shard() == old(self).spec_num_shard(),
            *final(self) == *final(res),
    {
        self.consumer_thread_sleep_duration = Some(duration);
        self
    }

    /// The number of span queue shards, if set.
    pub fn num_shard(&self) -> (res: Option<usize>)
        ensures
            res == self.spec_num_shard(),
    {
        self.num_shard
    }

    /// How long the consumer thread sleeps between collections, if set.
    pub fn sleep_duration(&self) -> (res: Option<Duration>)
        ensures
            res == self.spec_sleep_duration(),
    {
        self.consumer_thread_sleep_duration
    }
}

} // verus!
