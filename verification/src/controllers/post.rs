//! The post manager: create, read, list, update, publish and delete.
//!
//! Each operation is the step between two calls to the datastore. Where it
//! starts from a stored row it takes what the lookup by id found, `None`
//! for no such row, and it gives back the write or the row that the
//! datastore is to act on next.

use vstd::prelude::*;
use crate::active::ActiveValue;
use crate::clock::{now, Timestamp};
use crate::error::{sought, ApiError};
use crate::identity::UserId;
use crate::models::posts::{ActiveModel, Model};

verus! {

/// The fields that a client may send for a post. Each may be absent.
#[derive(Clone, Debug, PartialEq, Eq)]
pub struct Params {
    pub title: Option<String>,
    pub content: Option<String>,
    pub summary: Option<String>,
    pub published: Option<bool>,
    pub slug: Option<String>,
    pub user_id: Option<UserId>,
    pub published_at: Option<Timestamp>,
}

/// The publish time that goes with a publish flag set at `now`: `now` for a
/// post that is published, none for one that is not.
pub open spec fn coupled(published: bool, now: Timestamp) -> Option<Timestamp> {
    if published {
        Some(now)
    } else {
        None
    }
}

impl Params {
    /// The publish time that these fields ask for at `now`: coupled to the
    /// flag where the flag is sent, and the time sent along where it is
    /// not.
    pub open spec fn stamp(self, now: Timestamp) -> Option<Timestamp> {
        match self.published {
            Some(flag) => coupled(flag, now),
            None => self.published_at,
        }
    }

    /// `item` with every field of the payload assigned, the publish time as
    /// `stamp` gives it; id and row timestamps stay as `item` has them.
    pub open spec fn patch(self, item: ActiveModel, now: Timestamp) -> ActiveModel {
        ActiveModel {
            title: ActiveValue::Assign(self.title),
            content: ActiveValue::Assign(self.content),
            summary: ActiveValue::Assign(self.summary),
            published: ActiveValue::Assign(self.published),
            slug: ActiveValue::Assign(self.slug),
            user_id: ActiveValue::Assign(self.user_id),
            published_at: ActiveValue::Assign(self.stamp(now)),
            ..item
        }
    }

    /// Assigns the payload's fields with a publish time already decided.
    fn assign(&self, item: &mut ActiveModel, published_at: Option<Timestamp>)
        ensures
            *final(item) == (ActiveModel {
                title: ActiveValue::Assign(self.title),
                content: ActiveValue::Assign(self.content),
                summary: ActiveValue::Assign(self.summary),
                published: ActiveValue::Assign(self.published),
                slug: ActiveValue::Assign(self.slug),
                user_id: ActiveValue::Assign(self.user_id),
                published_at: ActiveValue::Assign(published_at),
                ..*old(item)
            }),
    {
        item.title = ActiveValue::Assign(self.title.clone());
        item.content = ActiveValue::Assign(self.content.clone());
        item.summary = ActiveValue::Assign(self.summary.clone());
        item.published = ActiveValue::Assign(self.published);
        item.slug = ActiveValue::Assign(self.slug.clone());
        item.user_id = ActiveValue::Assign(self.user_id);
        item.published_at = ActiveValue::Assign(published_at);
    }

    /// Writes the payload into `item` as of the instant `now`.
    pub fn update_at(&self, item: &mut ActiveModel, now: Timestamp)
        ensures
            *final(item) == self.patch(*old(item), now),
    {
        let published_at = match self.published {
            Some(true) => Some(now),
            Some(false) => None,
            None => self.published_at,
        };
        self.assign(item, published_at);
    }

    /// Writes the payload into `item`, reading the clock where the payload
    /// publishes the post.
    ///
    /// The outcome is that of `update_at` at some instant in UTC.
    pub fn update(&self, item: &mut ActiveModel)
        ensures
            exists|at: Timestamp|
                at.offset == 0 && *final(item) == #[trigger] self.patch(*old(item), at),
    {
        let published_at = match self.published {
            Some(true) => {
                let at = now();
                assert(self.stamp(at) == Some(at));
                Some(at)
            },
            Some(false) => None,
            None => self.published_at,
        };
        self.assign(item, published_at);
        proof {
            let at = match published_at {
                Some(t) if self.published == Some(true) => t,
                _ => Timestamp { secs: 0, nanos: 0, offset: 0 },
            };
            assert(self.patch(*old(item), at) == *item);
        }
    }
}

/// The body of a publish request.
#[derive(Clone, Copy, Debug, PartialEq, Eq, Structural)]
pub struct PublishParams {
    pub published: bool,
}

/// Settles a lookup by id: the row that was found, or `NotFound`.
pub fn load_item(found: Option<Model>) -> (r: Result<Model, ApiError>)
    ensures
        r == sought(found),
{
    match found {
        Some(row) => Ok(row),
        None => Err(ApiError::NotFound),
    }
}

/// The write that creates a post from `params` for `caller` at `now`: the
/// payload's fields, the owner forced to the caller, and id and row
/// timestamps left to the datastore.
pub open spec fn created(params: Params, caller: UserId, now: Timestamp) -> ActiveModel {
    ActiveModel {
        user_id: ActiveValue::Assign(Some(caller)),
        ..params.patch(ActiveModel::blank(), now)
    }
}

/// Create, as of the instant `now`: gives the row to insert.
pub fn add_at(params: &Params, caller: UserId, now: Timestamp) -> (item: ActiveModel)
    ensures
        item == created(*params, caller, now),
{
    let mut item = ActiveModel::default();
    params.update_at(&mut item, now);
    item.user_id = ActiveValue::Assign(Some(caller));
    item
}

/// Create: gives the row to insert, stamped by the clock where the payload
/// publishes the post.
///
/// The outcome is that of `add_at` at some instant in UTC.
pub fn add(params: &Params, caller: UserId) -> (item: ActiveModel)
    ensures
        exists|at: Timestamp| at.offset == 0 && item == #[trigger] created(*params, caller, at),
{
    let mut item = ActiveModel::default();
    params.update(&mut item);
    let ghost at = choose|at: Timestamp|
        at.offset == 0 && #[trigger] params.patch(ActiveModel::blank(), at) == item;
    item.user_id = ActiveValue::Assign(Some(caller));
    assert(created(*params, caller, at) == item);
    item
}

/// The payload with the owner of `row` filled in where it names none.
pub open spec fn with_owner_of(params: Params, row: Model) -> Params {
    Params {
        user_id: if params.user_id is None {
            row.user_id
        } else {
            params.user_id
        },
        ..params
    }
}

/// The write that updates `row` from `params` at `now`: every field of the
/// payload is assigned, an absent one as null; the owner stays where the
/// payload names none; id and row timestamps are kept.
pub open spec fn updated(row: Model, params: Params, now: Timestamp) -> ActiveModel {
    with_owner_of(params, row).patch(row.kept(), now)
}

/// Update, as of the instant `now`: gives the write to carry out, or
/// `NotFound` where the lookup found no row. Any caller may update any
/// post.
pub fn update_at(found: Option<Model>, params: Params, now: Timestamp) -> (r: Result<
    ActiveModel,
    ApiError,
>)
    ensures
        r == match found {
            Some(row) => Ok::<ActiveModel, ApiError>(updated(row, params, now)),
            None => Err::<ActiveModel, ApiError>(ApiError::NotFound),
        },
{
    let row = match load_item(found) {
        Ok(row) => row,
        Err(e) => { return Err(e); },
    };
    let mut params = params;
    if params.user_id.is_none() {
        params.user_id = row.user_id;
    }
    let mut item = row.into_active_model();
    params.update_at(&mut item, now);
    Ok(item)
}

/// Update: gives the write to carry out, stamped by the clock where the
/// payload publishes the post, or `NotFound` where the lookup found no
/// row. Any caller may update any post.
///
/// On a row the outcome is that of `update_at` at some instant in UTC.
pub fn update(found: Option<Model>, params: Params) -> (r: Result<ActiveModel, ApiError>)
    ensures
        found is None ==> r == Err::<ActiveModel, ApiError>(ApiError::NotFound),
        found matches Some(row) ==> exists|at: Timestamp|
            at.offset == 0 && r == Ok::<ActiveModel, ApiError>(#[trigger] updated(row, params, at)),
{
    let row = match load_item(found) {
        Ok(row) => row,
        Err(e) => { return Err(e); },
    };
    let ghost asked = params;
    let mut params = params;
    if params.user_id.is_none() {
        params.user_id = row.user_id;
    }
    assert(params == with_owner_of(asked, row));
    let mut item = row.into_active_model();
    params.update(&mut item);
    let ghost at = choose|at: Timestamp|
        at.offset == 0 && #[trigger] params.patch(row.kept(), at) == item;
    assert(updated(row, asked, at) == item);
    Ok(item)
}

/// The write that sets the publish flag of `row` to `flag` at `now`: the
/// flag and the publish time coupled to it are assigned, every other
/// column is kept.
pub open spec fn published(row: Model, flag: bool, now: Timestamp) -> ActiveModel {
    ActiveModel {
        published: ActiveValue::Assign(Some(flag)),
        published_at: ActiveValue::Assign(coupled(flag, now)),
        ..row.kept()
    }
}

/// Publish or unpublish, as of the instant `now`: gives the write to carry
/// out, or `NotFound` where the lookup found no row.
pub fn publish_at(found: Option<Model>, params: &PublishParams, now: Timestamp) -> (r: Result<
    ActiveModel,
    ApiError,
>)
    ensures
        r == match found {
            Some(row) => Ok::<ActiveModel, ApiError>(published(row, params.published, now)),
            None => Err::<ActiveModel, ApiError>(ApiError::NotFound),
        },
{
    let row = match load_item(found) {
        Ok(row) => row,
        Err(e) => { return Err(e); },
    };
    let mut item = row.into_active_model();
    item.published = ActiveValue::Assign(Some(params.published));
    if params.published {
        item.published_at = ActiveValue::Assign(Some(now));
    } else {
        item.published_at = ActiveValue::Assign(None);
    }
    Ok(item)
}

/// Publish or unpublish: gives the write to carry out, stamped by the
/// clock where the post is published, or `NotFound` where the lookup found
/// no row.
///
/// On a row the outcome is that of `publish_at` at some instant in UTC.
pub fn publish(found: Option<Model>, params: &PublishParams) -> (r: Result<ActiveModel, ApiError>)
    ensures
        found is None ==> r == Err::<ActiveModel, ApiError>(ApiError::NotFound),
        found matches Some(row) ==> exists|at: Timestamp|
            at.offset == 0 && r == Ok::<ActiveModel, ApiError>(
                #[trigger] published(row, params.published, at),
            ),
{
    let row = match load_item(found) {
        Ok(row) => row,
        Err(e) => { return Err(e); },
    };
    let mut item = row.into_active_model();
    item.published = ActiveValue::Assign(Some(params.published));
    if params.published {
        let at = now();
        item.published_at = ActiveValue::Assign(Some(at));
        assert(published(row, params.published, at) == item);
    } else {
        item.published_at = ActiveValue::Assign(None);
        assert(published(row, params.published, Timestamp { secs: 0, nanos: 0, offset: 0 })
            == item);
    }
    Ok(item)
}

/// Delete: gives the row to remove, or `NotFound` where the lookup found
/// none. Any caller may delete any post.
pub fn remove(found: Option<Model>) -> (r: Result<Model, ApiError>)
    ensures
        r == sought(found),
{
    load_item(found)
}

/// Get: gives the row to answer with, or `NotFound` where the lookup found
/// none.
pub fn get_one(found: Option<Model>) -> (r: Result<Model, ApiError>)
    ensures
        r == sought(found),
{
    load_item(found)
}

/// The page that a listing is asked for. Pages count from one.
#[derive(Clone, Copy, Debug, PartialEq, Eq, Structural)]
pub struct PaginationParams {
    pub page: u64,
    pub page_size: u64,
}

/// The page shown where the request names none.
pub fn default_page() -> (page: u64)
    ensures
        page == 1,
{
    1
}

/// The number of rows on a page where the request names none.
pub fn default_page_size() -> (page_size: u64)
    ensures
        page_size == 10,
{
    10
}

/// `n`, raised to one where it is below.
pub open spec fn at_least_one(n: u64) -> u64 {
    if n < 1 {
        1
    } else {
        n
    }
}

/// The number of pages that `total` rows fill at `page_size` rows a page:
/// `total / page_size` rounded up, that is the full pages and one more
/// where rows are left over.
pub open spec fn page_count(total: nat, page_size: nat) -> nat
    recommends
        page_size > 0,
{
    if total % page_size == 0 {
        total / page_size
    } else {
        total / page_size + 1
    }
}

/// The order in which a listing's rows come.
#[derive(Clone, Copy, Debug, PartialEq, Eq, Structural)]
pub enum Sort {
    /// Latest publish time first. Where rows without one come is the
    /// datastore's choice.
    PublishedAtDesc,
}

/// What a listing asks of the datastore: which rows, in what order, and
/// which slice of them.
#[derive(Clone, Copy, Debug, PartialEq, Eq, Structural)]
pub struct PostQuery {
    /// Only rows of this owner; `None` for the rows of all.
    pub owner: Option<UserId>,
    pub order: Sort,
    /// The slice to fetch, counted from zero.
    pub page: u64,
    /// The length of a slice.
    pub page_size: u64,
}

/// The query for the page that `params` asks for, over the rows of `owner`
/// or of all: both numbers raised to one where they are below, and the
/// page counted from zero.
pub open spec fn listing(params: PaginationParams, owner: Option<UserId>) -> PostQuery {
    PostQuery {
        owner,
        order: Sort::PublishedAtDesc,
        page: (at_least_one(params.page) - 1) as u64,
        page_size: at_least_one(params.page_size),
    }
}

impl PostQuery {
    /// Whether the query takes `row`.
    pub open spec fn selects(self, row: Model) -> bool {
        self.owner matches Some(owner) ==> row.user_id == Some(owner)
    }

    /// Decides whether the query takes `row`.
    pub fn matches(&self, row: &Model) -> (b: bool)
        ensures
            b == self.selects(*row),
    {
        match self.owner {
            None => true,
            Some(owner) => match row.user_id {
                Some(user) => user.0 == owner.0,
                None => false,
            },
        }
    }
}

/// Builds the query for `params` over the rows of `owner` or of all.
fn query(params: &PaginationParams, owner: Option<UserId>) -> (q: PostQuery)
    ensures
        q == listing(*params, owner),
{
    let page: u64 = if params.page < 1 { 1 } else { params.page };
    let page_size: u64 = if params.page_size < 1 { 1 } else { params.page_size };
    PostQuery { owner, order: Sort::PublishedAtDesc, page: page - 1, page_size }
}

/// List: gives the query for one page of all posts, latest publish time
/// first. A page number or a page size of zero is raised to one before the
/// datastore is asked.
pub fn list(params: &PaginationParams) -> (q: PostQuery)
    ensures
        q == listing(*params, None),
        q.page_size >= 1,
        params.page <= 0 ==> q.page + 1 == 1,
        params.page_size <= 0 ==> q.page_size == 1,
        forall|row: Model| q.selects(row),
{
    query(params, None)
}

/// List mine: gives the query for one page of the caller's posts, latest
/// publish time first. A page number or a page size of zero is raised to
/// one before the datastore is asked.
pub fn my_posts(params: &PaginationParams, caller: UserId) -> (q: PostQuery)
    ensures
        q == listing(*params, Some(caller)),
        q.page_size >= 1,
        params.page <= 0 ==> q.page + 1 == 1,
        params.page_size <= 0 ==> q.page_size == 1,
        forall|row: Model| q.selects(row) <==> row.user_id == Some(caller),
{
    query(params, Some(caller))
}

/// One page of a listing, with the counts that place it.
#[derive(Clone, Debug, PartialEq, Eq)]
pub struct PaginatedResponse<T> {
    pub items: Vec<T>,
    pub total: u64,
    pub page: u64,
    pub page_size: u64,
    pub total_pages: u64,
}

/// A post as listings show it: the row without its body.
#[derive(Clone, Debug, PartialEq, Eq)]
pub struct PostListItem {
    pub id: i32,
    pub title: Option<String>,
    pub summary: Option<String>,
    pub published: Option<bool>,
    pub slug: Option<String>,
    pub user_id: Option<UserId>,
    pub published_at: Option<Timestamp>,
    pub created_at: Timestamp,
    pub updated_at: Timestamp,
}

impl From<Model> for PostListItem {
    fn from(model: Model) -> (item: PostListItem) {
        PostListItem {
            id: model.id,
            title: model.title,
            summary: model.summary,
            published: model.published,
            slug: model.slug,
            user_id: model.user_id,
            published_at: model.published_at,
            created_at: model.created_at,
            updated_at: model.updated_at,
        }
    }
}

impl vstd::std_specs::convert::FromSpecImpl<Model> for PostListItem {
    open spec fn obeys_from_spec() -> bool {
        true
    }

    open spec fn from_spec(model: Model) -> PostListItem {
        summary_of(model)
    }
}

/// A row as a listing shows it: every column but the body.
pub open spec fn summary_of(row: Model) -> PostListItem {
    PostListItem {
        id: row.id,
        title: row.title,
        summary: row.summary,
        published: row.published,
        slug: row.slug,
        user_id: row.user_id,
        published_at: row.published_at,
        created_at: row.created_at,
        updated_at: row.updated_at,
    }
}

/// The rows of a page as a listing shows them, in the same order.
pub open spec fn summaries(rows: Seq<Model>) -> Seq<PostListItem> {
    rows.map_values(|row: Model| summary_of(row))
}

/// Counts the pages that `total` rows fill at `page_size` rows a page, a
/// page size of zero taken as one.
pub fn total_pages(total: u64, page_size: u64) -> (pages: u64)
    ensures
        pages == page_count(total as nat, at_least_one(page_size) as nat),
{
    let page_size: u64 = if page_size < 1 { 1 } else { page_size };
    let full: u64 = total / page_size;
    let rest: u64 = total % page_size;
    if rest == 0 {
        full
    } else {
        proof {
            lemma_page_count_is_ceiling(total as nat, page_size as nat);
        }
        full + 1
    }
}

/// `page_count` is the ceiling of `total / page_size`: the pages hold all
/// the rows, and one page fewer would not. No rows fill no page.
pub proof fn lemma_page_count_is_ceiling(total: nat, page_size: nat)
    requires
        page_size > 0,
    ensures
        page_count(total, page_size) * page_size >= total,
        total > 0 ==> (page_count(total, page_size) - 1) * page_size < total,
        total == 0 ==> page_count(total, page_size) == 0,
        page_count(total, page_size) <= total,
        page_count(total, page_size) == (total + page_size - 1) / (page_size as int),
{
    let d = page_size as int;
    let q = total as int / d;
    let r = total as int % d;
    assert(total as int == d * q + r && 0 <= r < d && 0 <= q <= total) by (nonlinear_arith)
        requires
            q == total as int / d,
            r == total as int % d,
            d > 0,
            total >= 0,
    ;
    if r == 0 {
        assert(q * d == d * q && (q - 1) * d == d * q - d) by (nonlinear_arith);
        assert((d * q + d - 1) / d == q) by (nonlinear_arith)
            requires
                d > 0,
        ;
    } else {
        assert((q + 1) * d == d * q + d && q * d == d * q && d * q >= q) by (nonlinear_arith)
            requires
                d >= 1,
                q >= 0,
        ;
        assert((d * q + r + d - 1) / d == q + 1) by (nonlinear_arith)
            requires
                d > 0,
                0 < r < d,
        ;
    }
}

/// The answer to a listing: the rows that the datastore gave for the page,
/// each without its body and in the order given, the number of rows that
/// the query takes in all, the page and page size that were asked for,
/// raised to one where they were below, and the number of pages that all
/// the rows fill.
pub fn paginated(params: &PaginationParams, total: u64, rows: Vec<Model>) -> (r: PaginatedResponse<
    PostListItem,
>)
    ensures
        r.items@ == summaries(rows@),
        r.total == total,
        r.page == at_least_one(params.page),
        r.page_size == at_least_one(params.page_size),
        r.total_pages == page_count(total as nat, at_least_one(params.page_size) as nat),
{
    let page: u64 = if params.page < 1 { 1 } else { params.page };
    let page_size: u64 = if params.page_size < 1 { 1 } else { params.page_size };
    let ghost all = rows@;
    let mut items: Vec<PostListItem> = Vec::new();
    for row in it: rows
        invariant
            it.seq() == all,
            items@.len() == it.index(),
            forall|j: int| 0 <= j < items@.len() ==> items@[j] == summary_of(all[j]),
    {
        items.push(PostListItem::from(row));
    }
    assert(items@ =~= summaries(all));
    PaginatedResponse {
        items,
        total,
        page,
        page_size,
        total_pages: total_pages(total, page_size),
    }
}

/// A post that was just created has a publish time exactly where the
/// payload published it, whatever the datastore filled in.
///
/// This leaves out the payloads that send a publish time and no flag:
/// create stores the time they send.
pub proof fn lemma_created_publish_time(
    params: Params,
    caller: UserId,
    now: Timestamp,
    fresh: Model,
)
    requires
        params.published is Some || params.published_at is None,
    ensures
        created(params, caller, now).over(fresh).published_at is Some <==> params.published
            == Some(true),
{
}

/// A post that was just created belongs to the caller, whatever owner the
/// payload names, and the caller's listing takes it.
pub proof fn lemma_created_belongs_to_caller(
    params: Params,
    caller: UserId,
    now: Timestamp,
    fresh: Model,
    page: PaginationParams,
)
    ensures
        created(params, caller, now).over(fresh).user_id == Some(caller),
        listing(page, Some(caller)).selects(created(params, caller, now).over(fresh)),
{
}

/// Publish changes the flag and the publish time and no other column: the
/// time is `now` for a post that is published and none for one that is
/// not.
pub proof fn lemma_publish_touches_only_the_flag(row: Model, flag: bool, now: Timestamp)
    ensures
        published(row, flag, now).over(row) == (Model {
            published: Some(flag),
            published_at: coupled(flag, now),
            ..row
        }),
        published(row, flag, now).over(row).published_at is Some <==> flag,
{
}

/// Publishing a post and then unpublishing it leaves it unpublished and
/// without a publish time, and as it was in every other column.
pub proof fn lemma_publish_then_unpublish(row: Model, first: Timestamp, second: Timestamp)
    ensures
        ({
            let live = published(row, true, first).over(row);
            let hidden = published(live, false, second).over(live);
            &&& hidden.published == Some(false)
            &&& hidden.published_at is None
            &&& hidden == Model { published: Some(false), published_at: None, ..row }
        }),
{
}

/// An update that sends the publish flag couples the publish time to it,
/// as create and publish do.
pub proof fn lemma_update_couples_publish_time(
    row: Model,
    params: Params,
    flag: bool,
    now: Timestamp,
)
    requires
        params.published == Some(flag),
    ensures
        updated(row, params, now).over(row).published == Some(flag),
        updated(row, params, now).over(row).published_at == coupled(flag, now),
{
}

/// An update never orphans a post: the owner is the one that the payload
/// names, and the stored one where it names none.
pub proof fn lemma_update_keeps_owner(row: Model, params: Params, now: Timestamp)
    ensures
        updated(row, params, now).over(row).user_id == if params.user_id is Some {
            params.user_id
        } else {
            row.user_id
        },
        row.user_id is Some ==> updated(row, params, now).over(row).user_id is Some,
        updated(row, params, now).over(row).id == row.id,
{
}

/// A listing never asks for an empty page or for a page before the first:
/// a page number or a page size of zero reaches the datastore as one.
pub proof fn lemma_listing_is_clamped(params: PaginationParams, owner: Option<UserId>)
    ensures
        listing(params, owner).page_size >= 1,
        listing(params, owner).page + 1 >= 1,
        params.page <= 0 ==> listing(params, owner).page + 1 == 1,
        params.page_size <= 0 ==> listing(params, owner).page_size == 1,
        params.page >= 1 ==> listing(params, owner).page + 1 == params.page,
        params.page_size >= 1 ==> listing(params, owner).page_size == params.page_size,
{
}

} // verus!
