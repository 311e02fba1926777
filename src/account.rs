//! The authenticated user.
use vstd::prelude::*;
use crate::timestamp::Timestamp;
use crate::text::copy_text_opt;

verus! {

/// A read-only snapshot of the authenticated user.
#[derive(Clone, Debug)]
pub struct Account {
    pub uuid: u128,
    pub name: String,
    pub description: Option<String>,
    pub avatar_url: Option<String>,
    pub encoded_avatar: Option<String>,
    pub pro_expires_at: Option<Timestamp>,
}

impl Account {
    /// An identical copy of the snapshot.
    pub fn copy(&self) -> (r: Account)
        ensures
            r == *self,
    {
        Account {
            uuid: self.uuid,
            name: self.name.clone(),
            description: copy_text_opt(&self.description),
            avatar_url: copy_text_opt(&self.avatar_url),
            encoded_avatar: copy_text_opt(&self.encoded_avatar),
            pro_expires_at: self.pro_expires_at,
        }
    }
}

} // verus!
