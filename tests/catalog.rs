use bookstore::auth::AuthenticatedUser;
use bookstore::author::{self, AuthorRecord, ReqAuthor};
use bookstore::book::{self, BookRecord, ReqBook};
use sea_orm::DbErr;

fn author_rec(id: i32, first: &str) -> AuthorRecord {
    AuthorRecord {
        id,
        user_id: 1,
        firstname: first.to_string(),
        lastname: "Austen".to_string(),
        bio: "bio".to_string(),
    }
}

fn book_rec(id: i32, title: &str) -> BookRecord {
    BookRecord {
        id,
        user_id: 1,
        author_id: 7,
        title: title.to_string(),
        year: "1813".to_string(),
        cover: "c.png".to_string(),
    }
}

fn fail() -> String {
    DbErr::Custom("store down".to_string()).to_string()
}

#[test]
fn author_index_lists_in_store_order_with_total() {
    let ok = author::index(Ok(vec![author_rec(2, "Jane"), author_rec(1, "Mary")])).ok().unwrap();
    assert_eq!(ok.0 .0, 200);
    assert_eq!(ok.0 .1.total, 2);
    assert_eq!(ok.0 .1.authors[0].id, 2);
    assert_eq!(ok.0 .1.authors[0].firstname, "Jane");
    assert_eq!(ok.0 .1.authors[1].id, 1);
    assert_eq!(ok.0 .1.authors[1].lastname, "Austen");
}

#[test]
fn author_index_of_empty_store() {
    let ok = author::index(Ok(Vec::new())).ok().unwrap();
    assert_eq!(ok.0 .1.total, 0);
    assert!(ok.0 .1.authors.is_empty());
}

#[test]
fn author_index_reports_store_failure() {
    let err = author::index(Err(fail())).err().unwrap();
    assert_eq!(err.0 .0, 500);
    assert_eq!(err.0 .1.message, "Custom Error: store down");
}

#[test]
fn author_create_takes_requester_and_fields() {
    let req = ReqAuthor { firstname: "A".to_string(), lastname: "B".to_string(), bio: "C".to_string() };
    let changes = author::create(&AuthenticatedUser { id: 9 }, &req);
    assert_eq!(changes.user_id, 9);
    assert_eq!(changes.firstname, "A");
    assert_eq!(changes.lastname, "B");
    assert_eq!(changes.bio, "C");
    let ok = author::created(Ok(author_rec(4, "A"))).ok().unwrap();
    assert_eq!(ok.0 .0, 201);
    assert_eq!(ok.0 .1.id, 4);
}

#[test]
fn author_show_found_and_missing() {
    let ok = author::show(Ok(Some(author_rec(3, "Jane")))).ok().unwrap();
    assert_eq!(ok.0 .0, 200);
    assert_eq!(ok.0 .1.firstname, "Jane");
    let err = author::show(Ok(None)).err().unwrap();
    assert_eq!(err.0 .0, 404);
    assert_eq!(err.0 .1.message, "Cannot find author with specified ID");
    assert_eq!(author::show(Err(fail())).err().unwrap().0 .0, 500);
}

#[test]
fn author_update_replaces_fields() {
    let req = ReqAuthor { firstname: "N".to_string(), lastname: "M".to_string(), bio: "new".to_string() };
    let next = author::update(Ok(Some(author_rec(3, "Jane"))), &req).ok().unwrap();
    assert_eq!(next.id, 3);
    assert_eq!(next.user_id, 1);
    assert_eq!(next.firstname, "N");
    assert_eq!(next.bio, "new");
    assert_eq!(author::update(Ok(None), &req).err().unwrap().0 .0, 404);
    let ok = author::updated(Ok(next)).ok().unwrap();
    assert_eq!(ok.0 .0, 200);
    assert_eq!(ok.0 .1.lastname, "M");
}

#[test]
fn author_delete_found_and_missing() {
    assert_eq!(author::delete(Ok(Some(author_rec(3, "Jane")))).ok().unwrap().id, 3);
    assert_eq!(author::delete(Ok(None)).err().unwrap().0 .0, 404);
    let ok = author::deleted(Ok(())).ok().unwrap();
    assert_eq!(ok.0 .0, 200);
    assert_eq!(ok.0 .1.message, "Author deleted");
    assert_eq!(author::deleted(Err(fail())).err().unwrap().0 .0, 500);
}

#[test]
fn book_index_lists_in_store_order_with_total() {
    let ok = book::index(Ok(vec![book_rec(5, "Emma"), book_rec(6, "Persuasion")])).ok().unwrap();
    assert_eq!(ok.0 .0, 200);
    assert_eq!(ok.0 .1.total, 2);
    assert_eq!(ok.0 .1.books[0].title, "Emma");
    assert_eq!(ok.0 .1.books[1].id, 6);
    assert_eq!(ok.0 .1.books[1].author_id, 7);
    assert_eq!(book::index(Err(fail())).err().unwrap().0 .0, 500);
}

#[test]
fn book_create_show_update_delete() {
    let req = ReqBook {
        author_id: 8,
        title: "T".to_string(),
        year: "2000".to_string(),
        cover: "x.png".to_string(),
    };
    let changes = book::create(&AuthenticatedUser { id: 2 }, &req);
    assert_eq!(changes.user_id, 2);
    assert_eq!(changes.author_id, 8);
    assert_eq!(changes.title, "T");
    assert_eq!(book::created(Ok(book_rec(1, "T"))).ok().unwrap().0 .0, 201);

    let shown = book::show(Ok(Some(book_rec(1, "Emma")))).ok().unwrap();
    assert_eq!(shown.0 .1.year, "1813");
    let err = book::show(Ok(None)).err().unwrap();
    assert_eq!(err.0 .0, 404);
    assert_eq!(err.0 .1.message, "Cannot find book with specified ID");

    let next = book::update(Ok(Some(book_rec(1, "Emma"))), &req).ok().unwrap();
    assert_eq!(next.id, 1);
    assert_eq!(next.author_id, 8);
    assert_eq!(next.cover, "x.png");
    assert_eq!(book::updated(Ok(next)).ok().unwrap().0 .1.title, "T");
    assert_eq!(book::update(Ok(None), &req).err().unwrap().0 .0, 404);

    assert_eq!(book::delete(Ok(Some(book_rec(1, "Emma")))).ok().unwrap().id, 1);
    let ok = book::deleted(Ok(())).ok().unwrap();
    assert_eq!(ok.0 .1.message, "Book deleted");
}
