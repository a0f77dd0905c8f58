//! The respond stage: one instance per joined channel. Every instance sees
//! every broadcast response and forwards exactly those whose metadata names
//! its own channel; everything else is discarded. The filter is the
//! correctness-critical step: an instance never emits a message for another
//! channel's response.

use vstd::prelude::*;

use crate::msg::Metadata;
use crate::msg::Response;

verus! {

/// One channel's respond stage.
pub struct RespondHandler {
    channel: String,
}

impl RespondHandler {
    /// The channel this instance speaks for.
    pub closed spec fn spec_channel(&self) -> Seq<char> {
        self.channel@
    }

    /// A respond stage for `channel`.
    pub fn new(channel: String) -> (r: Self)
        ensures
            r.spec_channel() == channel@,
    {
        RespondHandler { channel }
    }

    /// Turn one broadcast response into the messages to send: the response's
    /// text addressed to this channel when the metadata names it, and nothing
    /// at all otherwise.
    pub fn process(&self, response: Response, meta: &Metadata) -> (r: Vec<(String, String)>)
        ensures
            meta@.channel == self.spec_channel() ==> r@.len() == 1 && r@[0].0@
                == self.spec_channel() && r@[0].1@ == (match response@ {
                crate::msg::ResponseModel::Say { message } => message,
            }),
            meta@.channel != self.spec_channel() ==> r@.len() == 0,
    {
        if crate::text::str_eq(meta.channel.as_str(), self.channel.as_str()) {
            match response {
                Response::Say { message } => {
                    let target = self.channel.clone();
                    vec![(target, message)]
                },
            }
        } else {
            Vec::new()
        }
    }
}

} // verus!
