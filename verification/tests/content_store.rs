//! The in-memory content store behind the model routes.

use auth_core::store::{
    str_contains, BlogpostChange, BlogpostFilter, MemoryDatabase, NewBlogpost, NewUser, UserChange,
    UserFilter,
};

#[test]
fn get_blogpost_by_id() {
    let database = MemoryDatabase::with_test_data(0);
    assert_eq!(database.get_blogpost_by_id(1).unwrap().title, "Chasing Suns");
    assert_eq!(
        database.get_blogpost_by_id(2).unwrap().title,
        "How to make a website"
    );
}

#[test]
fn get_blogpost_by_url() {
    let database = MemoryDatabase::with_test_data(0);
    assert_eq!(
        database
            .get_blogpost_and_user_by_url("chasing-suns".to_string())
            .unwrap()
            .0
            .title,
        "Chasing Suns"
    );
    assert_eq!(
        database
            .get_blogpost_and_user_by_url("how-to-make-a-website".to_string())
            .unwrap()
            .0
            .title,
        "How to make a website"
    );
}

#[test]
fn insert_blogpost() {
    let mut database = MemoryDatabase::with_test_data(0);
    let bp = NewBlogpost {
        title: "Breaking Bones".to_string(),
        tags: "we,break,bones".to_string(),
        url: "breaking-bones".to_string(),
        body: "I broke some bones today".to_string(),
        author_id: 1,
    };
    let id = database.insert_blogpost(bp, 7).unwrap();
    assert_eq!(id, 3);
    assert_eq!(database.get_blogpost_by_id(id).unwrap().title, "Breaking Bones");
}

#[test]
fn update_blogpost() {
    let mut database = MemoryDatabase::with_test_data(0);
    let bp = database
        .get_blogpost_and_user_by_url("chasing-suns".to_string())
        .unwrap()
        .0;

    let id = bp.id;
    let change = BlogpostChange { title: Some("Breaking Bones".to_string()), ..Default::default() };

    database.update_blogpost(id, change).unwrap();
    assert_eq!(database.get_blogpost_by_id(id).unwrap().title, "Breaking Bones");
}

#[test]
fn delete_blogpost() {
    let mut database = MemoryDatabase::with_test_data(0);
    database.delete_blogpost(1).unwrap();
    assert!(database.get_blogpost_by_id(1).is_err())
}

#[test]
fn get_user_by_id() {
    let database = MemoryDatabase::with_test_data(0);
    assert_eq!(database.get_user_by_id(1).unwrap().name, "John Notgull");
    assert_eq!(database.get_user_by_id(2).unwrap().name, "Alan Smithee");
}

#[test]
fn get_user_by_uuid() {
    let database = MemoryDatabase::with_test_data(0);
    assert_eq!(
        database
            .get_user_by_uuid("65a7e8c5-c235-49a9-ba00-6d9c049776f4".to_string())
            .unwrap()
            .name,
        "John Notgull"
    );
    assert_eq!(
        database
            .get_user_by_uuid("995a066d-de0e-4378-92e6-407f7aa1dc19".to_string())
            .unwrap()
            .name,
        "Alan Smithee"
    );
}

#[test]
fn insert_user() {
    let mut database = MemoryDatabase::with_test_data(0);
    let bp = NewUser {
        name: "Shawn Spencer".to_string(),
        roles: 0,
        uuid: "50d36fd5-51d2-4d6a-b739-c0425de085ac".to_string(),
    };
    let id = database.insert_user(bp).unwrap();
    assert_eq!(database.get_user_by_id(id).unwrap().name, "Shawn Spencer");
}

#[test]
fn update_user() {
    let mut database = MemoryDatabase::with_test_data(0);
    let bp = database
        .get_user_by_uuid("995a066d-de0e-4378-92e6-407f7aa1dc19".to_string())
        .unwrap();

    let id = bp.id;
    let change = UserChange { name: Some("Burton Guster".to_string()), ..Default::default() };

    database.update_user(id, change).unwrap();
    assert_eq!(database.get_user_by_id(id).unwrap().name, "Burton Guster");
}

#[test]
fn delete_user() {
    let mut database = MemoryDatabase::with_test_data(0);
    database.delete_user(1).unwrap();
    assert!(database.get_user_by_id(1).is_err())
}

#[test]
fn listing_narrows_by_containment() {
    let database = MemoryDatabase::with_test_data(0);
    let all = database
        .list_blogposts(BlogpostFilter {
            title: None,
            tags: None,
            url: None,
            body: None,
            author_id: None,
        })
        .unwrap();
    assert_eq!(all.len(), 2);
    assert!(all.iter().any(|bp| bp.title == "Chasing Suns"));
    assert!(all.iter().any(|bp| bp.title == "How to make a website"));

    let some = database
        .list_blogposts(BlogpostFilter {
            title: Some("website".to_string()),
            tags: None,
            url: None,
            body: None,
            author_id: None,
        })
        .unwrap();
    assert_eq!(some.len(), 1);
    assert_eq!(some[0].title, "How to make a website");

    let none = database
        .list_blogposts(BlogpostFilter {
            title: Some("absent".to_string()),
            tags: None,
            url: None,
            body: None,
            author_id: None,
        })
        .unwrap();
    assert!(none.is_empty());

    let named = database.list_users(UserFilter { name: Some("Notgull".to_string()) }).unwrap();
    assert_eq!(named.len(), 1);
    assert_eq!(named[0].name, "John Notgull");
}

#[test]
fn containment_edges() {
    assert!(str_contains("hello world", ""));
    assert!(str_contains("hello world", "o w"));
    assert!(str_contains("hello world", "hello world"));
    assert!(!str_contains("hello world", "worlds"));
    assert!(!str_contains("", "a"));
}
