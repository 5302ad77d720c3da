//! A plain consumer description: where to connect, which channel, and
//! which queue to read. Opening the connection and the receive loop
//! are the caller's transport concern.

use vstd::prelude::*;

verus! {

/// The settings of one queue consumer.
pub struct Consumer<'a> {
    pub url: &'a str,
    pub channel_id: Option<u16>,
    pub queue_name: &'a str,
}

impl Consumer<'_> {
    /// Describes a consumer of `queue_name` at `url`.
    pub fn create<'a>(url: &'a str, channel_id: Option<u16>, queue_name: &'a str) -> (r: Consumer<
        'a>)
        ensures
            r.url@ == url@,
            r.channel_id == channel_id,
            r.queue_name@ == queue_name@,
    {
        Consumer { url, channel_id, queue_name }
    }
}

} // verus!
