//! A row of the `files` table.

use vstd::prelude::*;
use crate::model::{FileId, Timestamp};

verus! {

/// A stored file's record; its contents live in the storage back end.
#[derive(Clone, Debug, PartialEq)]
pub struct Model {
    pub id: FileId,
    /// xxhash3 hash of the contents, stored as the `i64` with the same bits.
    pub hash: i64,
    pub name: String,
    /// The machine that last wrote to this file.
    pub last_updated_from: String,
    pub updated_at: Timestamp,
    pub deleted_at: Option<Timestamp>,
    pub user_id: i64,
}

} // verus!
