//! The comment manager: create, read, list by post, update and delete.
//!
//! Each operation is the step between two calls to the datastore. Where it
//! starts from a stored row it takes what the lookup by id found, `None`
//! for no such row. A comment has one owner, and only the owner may change
//! or delete it.

use vstd::prelude::*;
use crate::active::ActiveValue;
use crate::error::{sought, ApiError};
use crate::identity::UserId;
use crate::models::comments::{ActiveModel, Model};

verus! {

/// The fields of a comment as an operation receives them. Each may be
/// absent. Clients cannot set `user_id`: create overwrites it with the
/// caller.
#[derive(Clone, Debug, PartialEq, Eq)]
pub struct Params {
    pub content: Option<String>,
    pub post_id: Option<i32>,
    pub user_id: Option<UserId>,
    pub parent_id: Option<i32>,
}

/// The query string of a listing: the post whose comments are asked for.
#[derive(Clone, Copy, Debug, PartialEq, Eq, Structural)]
pub struct QueryPostParams {
    pub post_id: u64,
}

impl Params {
    /// `item` with the payload assigned: content, post and parent always,
    /// an absent one as null; the owner only where the payload names one.
    /// Id and row timestamps stay as `item` has them.
    pub open spec fn patch(self, item: ActiveModel) -> ActiveModel {
        ActiveModel {
            content: ActiveValue::Assign(self.content),
            post_id: ActiveValue::Assign(self.post_id),
            user_id: match self.user_id {
                Some(owner) => ActiveValue::Assign(owner),
                None => item.user_id,
            },
            parent_id: ActiveValue::Assign(self.parent_id),
            ..item
        }
    }

    /// Writes the payload into `item`.
    pub fn update(&self, item: &mut ActiveModel)
        ensures
            *final(item) == self.patch(*old(item)),
    {
        item.content = ActiveValue::Assign(self.content.clone());
        item.post_id = ActiveValue::Assign(self.post_id);
        if let Some(owner) = self.user_id {
            item.user_id = ActiveValue::Assign(owner);
        }
        item.parent_id = ActiveValue::Assign(self.parent_id);
    }
}

/// Settles a lookup by id: the row that was found, or `NotFound`.
pub fn load_item(found: Option<Model>) -> (r: Result<Model, ApiError>)
    ensures
        r == sought(found),
{
    match found {
        Some(row) => Ok(row),
        None => Err(ApiError::NotFound),
    }
}

/// What a stored comment comes to for `caller`: the row where the caller
/// owns it, `Unauthorized` where another does.
pub open spec fn owned(row: Model, caller: UserId) -> Result<Model, ApiError> {
    if row.owned_by(caller) {
        Ok(row)
    } else {
        Err(ApiError::Unauthorized)
    }
}

/// What a lookup comes to for `caller`: `NotFound` where there is no row,
/// `Unauthorized` where the row is another's, and else the row.
pub open spec fn sought_by(found: Option<Model>, caller: UserId) -> Result<Model, ApiError> {
    match found {
        Some(row) => owned(row, caller),
        None => Err(ApiError::NotFound),
    }
}

/// Settles a lookup for a caller who wants to change the row.
fn load_owned(found: Option<Model>, caller: UserId) -> (r: Result<Model, ApiError>)
    ensures
        r == sought_by(found, caller),
{
    let row = match load_item(found) {
        Ok(row) => row,
        Err(e) => { return Err(e); },
    };
    if !row.is_owned_by(caller) {
        return Err(ApiError::Unauthorized);
    }
    Ok(row)
}

/// What a listing asks of the datastore: the comments on one post, in
/// whatever order the datastore keeps them.
#[derive(Clone, Copy, Debug, PartialEq, Eq, Structural)]
pub struct CommentQuery {
    pub post_id: u64,
}

impl CommentQuery {
    /// Whether the query takes `row`: the row names the post.
    pub open spec fn selects(self, row: Model) -> bool {
        row.post_id matches Some(post) && post as int == self.post_id as int
    }

    /// Decides whether the query takes `row`.
    pub fn matches(&self, row: &Model) -> (b: bool)
        ensures
            b == self.selects(*row),
    {
        match row.post_id {
            Some(post) => post >= 0 && post as u64 == self.post_id,
            None => false,
        }
    }
}

/// List by post: gives the query for all comments on the post that
/// `params` names.
pub fn list(params: &QueryPostParams) -> (q: CommentQuery)
    ensures
        q.post_id == params.post_id,
        forall|row: Model|
            q.selects(row) <==> (row.post_id matches Some(post) && post as int
                == params.post_id as int),
{
    CommentQuery { post_id: params.post_id }
}

/// The write that creates a comment from `params` for `caller`: content,
/// post and parent from the payload, the owner the caller whatever the
/// payload says, and id and row timestamps left to the datastore.
pub open spec fn created(params: Params, caller: UserId) -> ActiveModel {
    ActiveModel {
        content: ActiveValue::Assign(params.content),
        post_id: ActiveValue::Assign(params.post_id),
        user_id: ActiveValue::Assign(caller),
        parent_id: ActiveValue::Assign(params.parent_id),
        ..ActiveModel::blank()
    }
}

/// Create: gives the row to insert. The owner is always the caller.
pub fn add(params: Params, caller: UserId) -> (item: ActiveModel)
    ensures
        item == created(params, caller),
        item.user_id == ActiveValue::Assign(caller),
{
    let mut params = params;
    params.user_id = Some(caller);
    let mut item = ActiveModel::default();
    params.update(&mut item);
    item
}

/// The write that updates `row` from `params`: content, post and parent
/// are assigned, an absent one as null; the owner is assigned where the
/// payload names one and kept where it does not; id and row timestamps
/// are kept.
pub open spec fn updated(row: Model, params: Params) -> ActiveModel {
    params.patch(row.kept())
}

/// Update: gives the write to carry out. Fails with `NotFound` where the
/// lookup found no row, and with `Unauthorized` where the row is not the
/// caller's, whatever the payload holds.
pub fn update(found: Option<Model>, params: &Params, caller: UserId) -> (r: Result<
    ActiveModel,
    ApiError,
>)
    ensures
        r == match sought_by(found, caller) {
            Ok(row) => Ok::<ActiveModel, ApiError>(updated(row, *params)),
            Err(e) => Err::<ActiveModel, ApiError>(e),
        },
        found is None <==> r == Err::<ActiveModel, ApiError>(ApiError::NotFound),
        (found matches Some(row) && row.user_id != caller) <==> r == Err::<ActiveModel, ApiError>(
            ApiError::Unauthorized,
        ),
{
    let row = match load_owned(found, caller) {
        Ok(row) => row,
        Err(e) => { return Err(e); },
    };
    let mut item = row.into_active_model();
    params.update(&mut item);
    Ok(item)
}

/// Delete: gives the row to remove. Fails with `NotFound` where the lookup
/// found no row, and with `Unauthorized` where the row is not the
/// caller's.
pub fn remove(found: Option<Model>, caller: UserId) -> (r: Result<Model, ApiError>)
    ensures
        r == sought_by(found, caller),
        found is None <==> r == Err::<Model, ApiError>(ApiError::NotFound),
        (found matches Some(row) && row.user_id != caller) <==> r == Err::<Model, ApiError>(
            ApiError::Unauthorized,
        ),
{
    load_owned(found, caller)
}

/// Get: gives the row to answer with, or `NotFound` where the lookup found
/// none. Any caller may read any comment.
pub fn get_one(found: Option<Model>) -> (r: Result<Model, ApiError>)
    ensures
        r == sought(found),
{
    load_item(found)
}

/// A comment that was just created belongs to the caller, whatever owner
/// the payload names, and the listing of its post takes it.
pub proof fn lemma_created_is_owned_and_listed(
    params: Params,
    caller: UserId,
    post: i32,
    fresh: Model,
)
    requires
        params.post_id == Some(post),
        post >= 0,
    ensures
        created(params, caller).over(fresh).user_id == caller,
        (CommentQuery { post_id: post as u64 }).selects(created(params, caller).over(fresh)),
        forall|other: u64|
            other != post ==> !(CommentQuery { post_id: other }).selects(
                created(params, caller).over(fresh),
            ),
{
}

/// Only the owner changes or deletes a comment: for any other caller the
/// lookup of a stored comment comes to `Unauthorized`, and for the owner
/// to the row.
pub proof fn lemma_only_the_owner_passes(row: Model, caller: UserId)
    ensures
        row.user_id != caller ==> sought_by(Some(row), caller) == Err::<Model, ApiError>(
            ApiError::Unauthorized,
        ),
        row.user_id == caller ==> sought_by(Some(row), caller) == Ok::<Model, ApiError>(row),
{
}

/// An update leaves the owner where the payload names none, and id and row
/// timestamps always.
pub proof fn lemma_update_keeps_owner(row: Model, params: Params)
    ensures
        updated(row, params).over(row).user_id == match params.user_id {
            Some(owner) => owner,
            None => row.user_id,
        },
        updated(row, params).over(row).id == row.id,
        updated(row, params).over(row).created_at == row.created_at,
{
}

} // verus!
