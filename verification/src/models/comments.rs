//! The `comments` table. A reply names its parent by id; the thread is
//! never held as a tree.

use vstd::prelude::*;
use crate::active::ActiveValue;
use crate::clock::Timestamp;
use crate::identity::UserId;

verus! {

/// One stored comment.
#[derive(Clone, Debug, PartialEq, Eq)]
pub struct Model {
    pub created_at: Timestamp,
    pub updated_at: Timestamp,
    pub id: i32,
    pub content: Option<String>,
    pub post_id: Option<i32>,
    pub user_id: UserId,
    pub parent_id: Option<i32>,
}

/// A write to one comment, column by column.
#[derive(Clone, Debug, PartialEq, Eq)]
pub struct ActiveModel {
    pub created_at: ActiveValue<Timestamp>,
    pub updated_at: ActiveValue<Timestamp>,
    pub id: ActiveValue<i32>,
    pub content: ActiveValue<Option<String>>,
    pub post_id: ActiveValue<Option<i32>>,
    pub user_id: ActiveValue<UserId>,
    pub parent_id: ActiveValue<Option<i32>>,
}

impl Model {
    /// The write that changes nothing of this row.
    pub open spec fn kept(self) -> ActiveModel {
        ActiveModel {
            created_at: ActiveValue::Keep(self.created_at),
            updated_at: ActiveValue::Keep(self.updated_at),
            id: ActiveValue::Keep(self.id),
            content: ActiveValue::Keep(self.content),
            post_id: ActiveValue::Keep(self.post_id),
            user_id: ActiveValue::Keep(self.user_id),
            parent_id: ActiveValue::Keep(self.parent_id),
        }
    }

    /// Opens the row for writing: every column is kept until one is
    /// assigned.
    pub fn into_active_model(self) -> (item: ActiveModel)
        ensures
            item == self.kept(),
    {
        ActiveModel {
            created_at: ActiveValue::Keep(self.created_at),
            updated_at: ActiveValue::Keep(self.updated_at),
            id: ActiveValue::Keep(self.id),
            content: ActiveValue::Keep(self.content),
            post_id: ActiveValue::Keep(self.post_id),
            user_id: ActiveValue::Keep(self.user_id),
            parent_id: ActiveValue::Keep(self.parent_id),
        }
    }

    /// Whether `caller` owns this comment: the stored owner is exactly the
    /// caller.
    pub open spec fn owned_by(self, caller: UserId) -> bool {
        self.user_id == caller
    }

    /// The ownership check. No role overrides it.
    pub fn is_owned_by(&self, caller: UserId) -> (b: bool)
        ensures
            b == self.owned_by(caller),
    {
        self.user_id.0 == caller.0
    }
}

impl ActiveModel {
    /// The write that names no column: the start of a new row.
    pub open spec fn blank() -> ActiveModel {
        ActiveModel {
            created_at: ActiveValue::Omit,
            updated_at: ActiveValue::Omit,
            id: ActiveValue::Omit,
            content: ActiveValue::Omit,
            post_id: ActiveValue::Omit,
            user_id: ActiveValue::Omit,
            parent_id: ActiveValue::Omit,
        }
    }

    /// The row after this write, column by column, where the table held
    /// `stored` before. For a new row `stored` is what the datastore fills
    /// in: the generated id, its timestamps, and null elsewhere.
    pub open spec fn over(self, stored: Model) -> Model {
        Model {
            created_at: self.created_at.over(stored.created_at),
            updated_at: self.updated_at.over(stored.updated_at),
            id: self.id.over(stored.id),
            content: self.content.over(stored.content),
            post_id: self.post_id.over(stored.post_id),
            user_id: self.user_id.over(stored.user_id),
            parent_id: self.parent_id.over(stored.parent_id),
        }
    }

    /// Carries out the write on `stored`.
    pub fn write_over(self, stored: Model) -> (row: Model)
        ensures
            row == self.over(stored),
    {
        Model {
            created_at: self.created_at.write_over(stored.created_at),
            updated_at: self.updated_at.write_over(stored.updated_at),
            id: self.id.write_over(stored.id),
            content: self.content.write_over(stored.content),
            post_id: self.post_id.write_over(stored.post_id),
            user_id: self.user_id.write_over(stored.user_id),
            parent_id: self.parent_id.write_over(stored.parent_id),
        }
    }
}

impl Default for ActiveModel {
    fn default() -> (item: ActiveModel)
        ensures
            item == ActiveModel::blank(),
    {
        ActiveModel {
            created_at: ActiveValue::Omit,
            updated_at: ActiveValue::Omit,
            id: ActiveValue::Omit,
            content: ActiveValue::Omit,
            post_id: ActiveValue::Omit,
            user_id: ActiveValue::Omit,
            parent_id: ActiveValue::Omit,
        }
    }
}

} // verus!
