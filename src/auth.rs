//! Account authorization.
use crate::client::{reply_outcome, session_after, B2Client, HttpReply};
use crate::errors::{B2Error, Result};
use crate::models::Authorization;
use vstd::prelude::*;

verus! {

impl B2Client {
    /// Takes the reply to [`B2Client::authorize_request`] and installs the
    /// record it carries; see [`B2Client::authorize`].
    pub fn authorize_account(&mut self, reply: HttpReply<Authorization>) -> (r: Result<()>)
        ensures
            final(self).configuration() == old(self).configuration(),
            final(self).session() == session_after(old(self).session(), reply),
            r is Ok <==> reply_outcome(reply) is Ok,
            reply_outcome(reply) matches Err(e) ==> r == Err::<(), B2Error>(e),
    {
        self.authorize(reply)
    }
}

} // verus!
