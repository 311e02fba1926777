//! Logged pomodoro intervals.
use vstd::prelude::*;
use crate::timestamp::Timestamp;
use crate::text::copy_text_opt;

verus! {

/// A logged pomodoro interval. The identifier and the two record timestamps
/// are assigned by the server.
#[derive(Clone, Debug)]
pub struct Pomo {
    pub uuid: Option<u128>,
    pub created_at: Option<Timestamp>,
    pub updated_at: Option<Timestamp>,
    pub description: Option<String>,
    pub started_at: Option<Timestamp>,
    pub ended_at: Option<Timestamp>,
    pub length: Option<u64>,
    pub abandoned: Option<bool>,
    pub manual: Option<bool>,
}

impl Pomo {
    /// The payload of a creation: the record itself.
    pub fn create_payload(&self) -> (r: Pomo)
        ensures
            r == *self,
    {
        Pomo {
            uuid: self.uuid,
            created_at: self.created_at,
            updated_at: self.updated_at,
            description: copy_text_opt(&self.description),
            started_at: self.started_at,
            ended_at: self.ended_at,
            length: self.length,
            abandoned: self.abandoned,
            manual: self.manual,
        }
    }
}

} // verus!
