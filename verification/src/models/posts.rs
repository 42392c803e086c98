//! The `posts` table.

use vstd::prelude::*;
use crate::active::ActiveValue;
use crate::clock::Timestamp;
use crate::identity::UserId;

verus! {

/// One stored post.
#[derive(Clone, Debug, PartialEq, Eq)]
pub struct Model {
    pub created_at: Timestamp,
    pub updated_at: Timestamp,
    pub id: i32,
    pub title: Option<String>,
    pub content: Option<String>,
    pub summary: Option<String>,
    pub published: Option<bool>,
    pub slug: Option<String>,
    pub published_at: Option<Timestamp>,
    pub user_id: Option<UserId>,
}

/// A write to one post, column by column.
#[derive(Clone, Debug, PartialEq, Eq)]
pub struct ActiveModel {
    pub created_at: ActiveValue<Timestamp>,
    pub updated_at: ActiveValue<Timestamp>,
    pub id: ActiveValue<i32>,
    pub title: ActiveValue<Option<String>>,
    pub content: ActiveValue<Option<String>>,
    pub summary: ActiveValue<Option<String>>,
    pub published: ActiveValue<Option<bool>>,
    pub slug: ActiveValue<Option<String>>,
    pub published_at: ActiveValue<Option<Timestamp>>,
    pub user_id: ActiveValue<Option<UserId>>,
}

impl Model {
    /// The write that changes nothing of this row.
    pub open spec fn kept(self) -> ActiveModel {
        ActiveModel {
            created_at: ActiveValue::Keep(self.created_at),
            updated_at: ActiveValue::Keep(self.updated_at),
            id: ActiveValue::Keep(self.id),
            title: ActiveValue::Keep(self.title),
            content: ActiveValue::Keep(self.content),
            summary: ActiveValue::Keep(self.summary),
            published: ActiveValue::Keep(self.published),
            slug: ActiveValue::Keep(self.slug),
            published_at: ActiveValue::Keep(self.published_at),
            user_id: ActiveValue::Keep(self.user_id),
        }
    }

    /// Opens the row for writing: every column is kept until one is
    /// assigned.
    pub fn into_active_model(self) -> (item: ActiveModel)
        ensures
            item == self.kept(),
    {
        ActiveModel {
            created_at: ActiveValue::Keep(self.created_at),
            updated_at: ActiveValue::Keep(self.updated_at),
            id: ActiveValue::Keep(self.id),
            title: ActiveValue::Keep(self.title),
            content: ActiveValue::Keep(self.content),
            summary: ActiveValue::Keep(self.summary),
            published: ActiveValue::Keep(self.published),
            slug: ActiveValue::Keep(self.slug),
            published_at: ActiveValue::Keep(self.published_at),
            user_id: ActiveValue::Keep(self.user_id),
        }
    }
}

impl ActiveModel {
    /// The write that names no column: the start of a new row.
    pub open spec fn blank() -> ActiveModel {
        ActiveModel {
            created_at: ActiveValue::Omit,
            updated_at: ActiveValue::Omit,
            id: ActiveValue::Omit,
            title: ActiveValue::Omit,
            content: ActiveValue::Omit,
            summary: ActiveValue::Omit,
            published: ActiveValue::Omit,
            slug: ActiveValue::Omit,
            published_at: ActiveValue::Omit,
            user_id: ActiveValue::Omit,
        }
    }

    /// The row after this write, column by column, where the table held
    /// `stored` before. For a new row `stored` is what the datastore fills
    /// in: the generated id, its timestamps, and null elsewhere.
    pub open spec fn over(self, stored: Model) -> Model {
        Model {
            created_at: self.created_at.over(stored.created_at),
            updated_at: self.updated_at.over(stored.updated_at),
            id: self.id.over(stored.id),
            title: self.title.over(stored.title),
            content: self.content.over(stored.content),
            summary: self.summary.over(stored.summary),
            published: self.published.over(stored.published),
            slug: self.slug.over(stored.slug),
            published_at: self.published_at.over(stored.published_at),
            user_id: self.user_id.over(stored.user_id),
        }
    }

    /// Carries out the write on `stored`.
    pub fn write_over(self, stored: Model) -> (row: Model)
        ensures
            row == self.over(stored),
    {
        Model {
            created_at: self.created_at.write_over(stored.created_at),
            updated_at: self.updated_at.write_over(stored.updated_at),
            id: self.id.write_over(stored.id),
            title: self.title.write_over(stored.title),
            content: self.content.write_over(stored.content),
            summary: self.summary.write_over(stored.summary),
            published: self.published.write_over(stored.published),
            slug: self.slug.write_over(stored.slug),
            published_at: self.published_at.write_over(stored.published_at),
            user_id: self.user_id.write_over(stored.user_id),
        }
    }
}

impl Default for ActiveModel {
    fn default() -> (item: ActiveModel)
        ensures
            item == ActiveModel::blank(),
    {
        ActiveModel {
            created_at: ActiveValue::Omit,
            updated_at: ActiveValue::Omit,
            id: ActiveValue::Omit,
            title: ActiveValue::Omit,
            content: ActiveValue::Omit,
            summary: ActiveValue::Omit,
            published: ActiveValue::Omit,
            slug: ActiveValue::Omit,
            published_at: ActiveValue::Omit,
            user_id: ActiveValue::Omit,
        }
    }
}

} // verus!
