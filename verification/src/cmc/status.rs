//! The status block that heads every answer of the remote catalogue.

use vstd::prelude::*;
use crate::error::{coded_message, Error, ErrorView};
use crate::sql::Timestamp;

verus! {

/// What the remote says of one call. A code of zero means that the call
/// succeeded; any other code is a failure.
#[derive(Clone, Debug, PartialEq, Eq)]
pub struct Status {
    pub error_code: i32,
    pub error_message: Option<String>,
    pub credit_count: i32,
    pub timestamp: Timestamp,
    /// How long the remote worked on the call, in milliseconds.
    pub elapsed: u64,
    pub notice: Option<String>,
}

impl Status {
    /// The message that the remote sent, or the empty text where it sent
    /// none.
    pub open spec fn message_text(self) -> Seq<char> {
        match self.error_message {
            Some(message) => message@,
            None => Seq::empty(),
        }
    }

    /// The failure that a status with a code other than zero stands for:
    /// the remote's message followed by its code.
    pub open spec fn failure(self) -> ErrorView {
        ErrorView::Error(coded_message(self.message_text(), self.error_code as int))
    }

    /// Succeeds where the remote reported no error; otherwise fails with
    /// the remote's message and code.
    pub fn check(&self) -> (r: Result<(), Error>)
        ensures
            r is Ok <==> self.error_code == 0,
            r is Err ==> r->Err_0@ == self.failure(),
    {
        if self.error_code == 0 {
            Ok(())
        } else {
            match &self.error_message {
                Some(message) => Err(Error::new_with_code(message.as_str(), self.error_code)),
                None => {
                    let r = Error::new_with_code("", self.error_code);
                    proof {
                        reveal_strlit("");
                        assert(""@ =~= Seq::<char>::empty());
                    }
                    Err(r)
                },
            }
        }
    }
}

} // verus!
