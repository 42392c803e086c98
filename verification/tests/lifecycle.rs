use blog_core::active::ActiveValue;
use blog_core::clock::Timestamp;
use blog_core::controllers::{comments, post};
use blog_core::error::ApiError;
use blog_core::identity::{caller_id, UserId};
use blog_core::models::{comments as comment_rows, posts as post_rows};

const U1: &str = "11111111-1111-1111-1111-111111111111";
const U2: &str = "22222222-2222-2222-2222-222222222222";

fn at(secs: i64) -> Timestamp {
    Timestamp { secs, nanos: 0, offset: 0 }
}

fn no_post_fields() -> post::Params {
    post::Params {
        title: None,
        content: None,
        summary: None,
        published: None,
        slug: None,
        user_id: None,
        published_at: None,
    }
}

/// What the datastore fills in for a new post with this id.
fn fresh_post(id: i32) -> post_rows::Model {
    post_rows::Model {
        created_at: at(1000),
        updated_at: at(1000),
        id,
        title: None,
        content: None,
        summary: None,
        published: None,
        slug: None,
        published_at: None,
        user_id: None,
    }
}

/// What the datastore fills in for a new comment with this id.
fn fresh_comment(id: i32) -> comment_rows::Model {
    comment_rows::Model {
        created_at: at(1000),
        updated_at: at(1000),
        id,
        content: None,
        post_id: None,
        user_id: UserId(0),
        parent_id: None,
    }
}

fn find_post(table: &[post_rows::Model], id: i32) -> Option<post_rows::Model> {
    table.iter().find(|row| row.id == id).cloned()
}

#[test]
fn a_post_created_as_published_has_a_publish_time() {
    let caller = caller_id(U1).unwrap();
    let params = post::Params {
        title: Some("A".to_string()),
        published: Some(true),
        ..no_post_fields()
    };
    let created = post::add(&params, caller).write_over(fresh_post(1));
    assert!(created.published_at.is_some());
    assert_eq!(created.published, Some(true));
    assert_eq!(created.title, Some("A".to_string()));
    assert_eq!(created.user_id, Some(caller));
    assert_eq!(created.id, 1);
}

#[test]
fn a_created_post_has_a_publish_time_only_if_created_as_published() {
    let caller = UserId(1);
    for (flag, stamped) in [(Some(true), true), (Some(false), false), (None, false)] {
        let params = post::Params { published: flag, ..no_post_fields() };
        let created = post::add(&params, caller).write_over(fresh_post(1));
        assert_eq!(created.published_at.is_some(), stamped);
    }
    let sent_time = post::Params { published: Some(false), published_at: Some(at(5)), ..no_post_fields() };
    let created = post::add(&sent_time, caller).write_over(fresh_post(1));
    assert_eq!(created.published_at, None);
}

#[test]
fn publish_then_unpublish_leaves_no_publish_time() {
    let row = Some(post::add_at(&no_post_fields(), UserId(1), at(10)).write_over(fresh_post(3)));
    let live = post::publish_at(row.clone(), &post::PublishParams { published: true }, at(20))
        .unwrap()
        .write_over(row.clone().unwrap());
    assert_eq!(live.published, Some(true));
    assert_eq!(live.published_at, Some(at(20)));
    let hidden = post::publish_at(Some(live.clone()), &post::PublishParams { published: false }, at(30))
        .unwrap()
        .write_over(live);
    assert_eq!(hidden.published, Some(false));
    assert_eq!(hidden.published_at, None);
    assert_eq!(
        hidden,
        post_rows::Model { published: Some(false), published_at: None, ..row.unwrap() }
    );
}

#[test]
fn publish_then_unpublish_by_the_clock_leaves_no_publish_time() {
    let row = post_rows::Model { title: Some("kept".to_string()), ..fresh_post(3) };
    let live = post::publish(Some(row.clone()), &post::PublishParams { published: true })
        .unwrap()
        .write_over(row);
    assert!(live.published_at.is_some());
    let hidden = post::publish(Some(live.clone()), &post::PublishParams { published: false })
        .unwrap()
        .write_over(live);
    assert_eq!(hidden.published, Some(false));
    assert_eq!(hidden.published_at, None);
    assert_eq!(hidden.title, Some("kept".to_string()));
}

#[test]
fn a_comment_created_on_a_post_is_the_one_listed_for_it() {
    let u1 = caller_id(U1).unwrap();
    let u2 = caller_id(U2).unwrap();
    let mut table: Vec<comment_rows::Model> = Vec::new();
    let elsewhere = comments::Params {
        content: Some("on another post".to_string()),
        post_id: Some(8),
        user_id: None,
        parent_id: None,
    };
    table.push(comments::add(elsewhere, u2).write_over(fresh_comment(1)));
    let payload = comments::Params {
        content: Some("hello".to_string()),
        post_id: Some(7),
        user_id: Some(u2),
        parent_id: None,
    };
    let created = comments::add(payload, u1).write_over(fresh_comment(2));
    table.push(created.clone());

    let query = comments::list(&comments::QueryPostParams { post_id: 7 });
    let listed: Vec<comment_rows::Model> =
        table.iter().filter(|row| query.matches(row)).cloned().collect();
    assert_eq!(listed, vec![created]);
    assert_eq!(listed[0].user_id, u1);
    assert_eq!(listed[0].post_id, Some(7));
    assert_eq!(listed[0].content, Some("hello".to_string()));
}

#[test]
fn a_comment_cannot_be_updated_by_another_user() {
    let u1 = caller_id(U1).unwrap();
    let u2 = caller_id(U2).unwrap();
    let payload = comments::Params {
        content: Some("mine".to_string()),
        post_id: Some(7),
        user_id: None,
        parent_id: None,
    };
    let row = comments::add(payload, u1).write_over(fresh_comment(1));
    let attempt = comments::Params {
        content: Some("taken over".to_string()),
        post_id: Some(7),
        user_id: Some(u2),
        parent_id: None,
    };
    assert_eq!(comments::update(Some(row.clone()), &attempt, u2), Err(ApiError::Unauthorized));
    assert_eq!(comments::remove(Some(row.clone()), u2), Err(ApiError::Unauthorized));
    assert!(comments::update(Some(row.clone()), &attempt, u1).is_ok());
    assert_eq!(comments::remove(Some(row.clone()), u1), Ok(row));
}

#[test]
fn a_deleted_post_is_not_found() {
    let mut table = vec![
        post::add_at(&no_post_fields(), UserId(1), at(10)).write_over(fresh_post(1)),
        post::add_at(&no_post_fields(), UserId(1), at(10)).write_over(fresh_post(2)),
    ];
    assert!(post::get_one(find_post(&table, 2)).is_ok());
    let doomed = post::remove(find_post(&table, 2)).unwrap();
    table.retain(|row| row.id != doomed.id);
    assert_eq!(post::get_one(find_post(&table, 2)), Err(ApiError::NotFound));
    assert_eq!(post::remove(find_post(&table, 2)), Err(ApiError::NotFound));
    assert_eq!(
        post::publish(find_post(&table, 2), &post::PublishParams { published: true }),
        Err(ApiError::NotFound)
    );
    assert_eq!(post::update(find_post(&table, 2), no_post_fields()), Err(ApiError::NotFound));
    assert_eq!(post::get_one(find_post(&table, 1)).map(|row| row.id), Ok(1));
}

#[test]
fn the_callers_listing_takes_the_posts_that_the_caller_created() {
    let u1 = caller_id(U1).unwrap();
    let u2 = caller_id(U2).unwrap();
    let names_other = post::Params { user_id: Some(u2), ..no_post_fields() };
    let table = vec![
        post::add_at(&names_other, u1, at(10)).write_over(fresh_post(1)),
        post::add_at(&no_post_fields(), u2, at(10)).write_over(fresh_post(2)),
        post::add_at(&no_post_fields(), u1, at(10)).write_over(fresh_post(3)),
    ];
    let page = post::PaginationParams { page: 0, page_size: 10 };
    let query = post::my_posts(&page, u1);
    let mine: Vec<post_rows::Model> = table.iter().filter(|row| query.matches(row)).cloned().collect();
    let answer = post::paginated(&page, mine.len() as u64, mine);
    assert_eq!(answer.items.iter().map(|item| item.id).collect::<Vec<i32>>(), vec![1, 3]);
    assert_eq!((answer.total, answer.page, answer.page_size, answer.total_pages), (2, 1, 10, 1));
}

#[test]
fn an_update_without_an_owner_keeps_the_post_owned() {
    let u1 = caller_id(U1).unwrap();
    let row = post::add_at(&no_post_fields(), u1, at(10)).write_over(fresh_post(1));
    let retitled = post::Params { title: Some("B".to_string()), ..no_post_fields() };
    let after = post::update_at(Some(row.clone()), retitled, at(20)).unwrap().write_over(row);
    assert_eq!(after.user_id, Some(u1));
    assert_eq!(after.title, Some("B".to_string()));
    assert_eq!(after.id, 1);
    assert_eq!(ActiveValue::Keep(after.id).write_over(0), 1);
}
