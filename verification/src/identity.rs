//! Reading the product id and revision.
use crate::protocol::{Command, Progress, Reply};
use crate::register::{PRODUCT_ID, PRODUCT_REVISION};
use crate::types::{Id, SensorError};
use vstd::prelude::*;

verus! {

/// Reads PRODUCT_ID, then PRODUCT_REVISION, and finishes with both.
pub struct IdQuery {
    product_id: Option<u8>,
}

impl IdQuery {
    /// The product id once it has been read.
    pub closed spec fn product_id(&self) -> Option<u8> {
        self.product_id
    }

    /// The command that the machine waits on the reply to.
    pub open spec fn pending(&self) -> Command {
        match self.product_id() {
            None => Command::Read { register: PRODUCT_ID },
            Some(_) => Command::Read { register: PRODUCT_REVISION },
        }
    }

    pub fn start() -> (progress: Progress<IdQuery, Id>)
        ensures
            progress matches Progress::Continue(m, command) && m.product_id() is None && command
                == (Command::Read { register: PRODUCT_ID }),
    {
        Progress::Continue(IdQuery { product_id: None }, Command::Read { register: PRODUCT_ID })
    }

    pub fn resume(self, reply: Reply) -> (progress: Progress<IdQuery, Id>)
        requires
            reply.answers(self.pending()),
        ensures
            match reply {
                Reply::Failed(kind) => progress == Progress::<IdQuery, Id>::Finish(
                    Err(SensorError::Spi(kind)),
                ),
                Reply::Byte(value) => match self.product_id() {
                    None => progress matches Progress::Continue(m, command) && m.product_id()
                        == Some(value) && command == (Command::Read { register: PRODUCT_REVISION }),
                    Some(product_id) => progress == Progress::<IdQuery, Id>::Finish(
                        Ok(Id { product_id, revision: value }),
                    ),
                },
                _ => false,
            },
    {
        match reply {
            Reply::Byte(value) => match self.product_id {
                None => Progress::Continue(
                    IdQuery { product_id: Some(value) },
                    Command::Read { register: PRODUCT_REVISION },
                ),
                Some(product_id) => Progress::Finish(Ok(Id { product_id, revision: value })),
            },
            Reply::Failed(kind) => Progress::Finish(Err(SensorError::Spi(kind))),
            _ => vstd::pervasive::unreached(),
        }
    }
}

} // verus!
