//! Books: the decisions of the book routes around the store's answers.
use vstd::prelude::*;

use crate::auth::AuthenticatedUser;
use crate::response::{
    ErrorResponse, GenericResponse, Response, SuccessResponse, STATUS_CREATED,
    STATUS_INTERNAL_SERVER_ERROR, STATUS_NOT_FOUND, STATUS_OK,
};

verus! {

/// A book as the store hands it back.
pub struct BookRecord {
    pub id: i32,
    pub user_id: i32,
    pub author_id: i32,
    pub title: String,
    pub year: String,
    pub cover: String,
}

/// A book to be stored, or the new values of a stored one.
pub struct BookChanges {
    /// The account that creates the book.
    pub user_id: u32,
    pub author_id: i32,
    pub title: String,
    pub year: String,
    pub cover: String,
}

/// A book as a response shows it.
pub struct ResBook {
    pub id: i32,
    pub title: String,
    pub year: String,
    pub cover: String,
    pub author_id: i32,
}

/// Every book, with their number.
pub struct ResBookList {
    pub total: usize,
    pub books: Vec<ResBook>,
}

/// Body of a create or update request.
pub struct ReqBook {
    pub author_id: i32,
    pub title: String,
    pub year: String,
    pub cover: String,
}

/// `res` shows `rec`.
pub open spec fn shows(res: ResBook, rec: BookRecord) -> bool {
    res.id == rec.id && res.title@ == rec.title@ && res.year@ == rec.year@ && res.cover@
        == rec.cover@ && res.author_id == rec.author_id
}

pub open spec fn is_not_found(e: ErrorResponse) -> bool {
    e.status() == STATUS_NOT_FOUND && e.message() == "Cannot find book with specified ID"@
}

impl ResBook {
    pub fn from(b: &BookRecord) -> (r: ResBook)
        ensures
            shows(r, *b),
    {
        ResBook {
            id: b.id,
            title: b.title.clone(),
            year: b.year.clone(),
            cover: b.cover.clone(),
            author_id: b.author_id,
        }
    }
}

fn not_found() -> (r: ErrorResponse)
    ensures
        is_not_found(r),
{
    ErrorResponse::new(STATUS_NOT_FOUND, "Cannot find book with specified ID".to_string())
}

/// The book that a lookup by id found, or 404 where there is none (500
/// where the store failed).
fn found(lookup: Result<Option<BookRecord>, String>) -> (r: Result<BookRecord, ErrorResponse>)
    ensures
        lookup is Err ==> r is Err && r->Err_0.status() == STATUS_INTERNAL_SERVER_ERROR
            && r->Err_0.message() == lookup->Err_0@,
        lookup matches Ok(None) ==> r is Err && is_not_found(r->Err_0),
        lookup matches Ok(Some(a)) ==> r matches Ok(b) && b == a,
{
    match lookup {
        Err(e) => Err(ErrorResponse::from(e)),
        Ok(None) => Err(not_found()),
        Ok(Some(a)) => Ok(a),
    }
}

/// The list of all books, in the order the store gave them.
pub fn index(all: Result<Vec<BookRecord>, String>) -> (r: Response<ResBookList>)
    ensures
        all is Err ==> r is Err && r->Err_0.status() == STATUS_INTERNAL_SERVER_ERROR
            && r->Err_0.message() == all->Err_0@,
        all is Ok ==> r is Ok && r->Ok_0.status() == STATUS_OK && r->Ok_0.0.1.total
            == all->Ok_0@.len() && r->Ok_0.0.1.books@.len() == all->Ok_0@.len() && forall|i: int|
            0 <= i < all->Ok_0@.len() ==> shows(#[trigger] r->Ok_0.0.1.books@[i], all->Ok_0@[i]),
{
    let records = match all {
        Ok(records) => records,
        Err(e) => {
            return Err(ErrorResponse::from(e));
        },
    };
    let mut books: Vec<ResBook> = Vec::new();
    let mut i: usize = 0;
    while i < records.len()
        invariant
            i <= records@.len(),
            books@.len() == i,
            forall|k: int| 0 <= k < i ==> shows(#[trigger] books@[k], records@[k]),
        decreases records@.len() - i,
    {
        books.push(ResBook::from(&records[i]));
        i = i + 1;
    }
    Ok(SuccessResponse((STATUS_OK, ResBookList { total: books.len(), books })))
}

/// The book to store for a create request by `user`.
pub fn create(user: &AuthenticatedUser, req: &ReqBook) -> (r: BookChanges)
    ensures
        r.user_id == user.id,
        r.author_id == req.author_id,
        r.title@ == req.title@,
        r.year@ == req.year@,
        r.cover@ == req.cover@,
{
    BookChanges {
        user_id: user.id,
        author_id: req.author_id,
        title: req.title.clone(),
        year: req.year.clone(),
        cover: req.cover.clone(),
    }
}

/// The answer once the store has inserted a book: 201 with it.
pub fn created(inserted: Result<BookRecord, String>) -> (r: Response<ResBook>)
    ensures
        inserted is Err ==> r is Err && r->Err_0.status() == STATUS_INTERNAL_SERVER_ERROR
            && r->Err_0.message() == inserted->Err_0@,
        inserted matches Ok(b) ==> r is Ok && r->Ok_0.status() == STATUS_CREATED && shows(
            r->Ok_0.0.1,
            b,
        ),
{
    match inserted {
        Ok(b) => Ok(SuccessResponse((STATUS_CREATED, ResBook::from(&b)))),
        Err(e) => Err(ErrorResponse::from(e)),
    }
}

/// The book a lookup by id found, or 404.
pub fn show(lookup: Result<Option<BookRecord>, String>) -> (r: Response<ResBook>)
    ensures
        lookup is Err ==> r is Err && r->Err_0.status() == STATUS_INTERNAL_SERVER_ERROR
            && r->Err_0.message() == lookup->Err_0@,
        lookup matches Ok(None) ==> r is Err && is_not_found(r->Err_0),
        lookup matches Ok(Some(b)) ==> r is Ok && r->Ok_0.status() == STATUS_OK && shows(
            r->Ok_0.0.1,
            b,
        ),
{
    let b = found(lookup)?;
    Ok(SuccessResponse((STATUS_OK, ResBook::from(&b))))
}

/// The stored book with the request's values, or 404 where the lookup by id
/// found none.
pub fn update(lookup: Result<Option<BookRecord>, String>, req: &ReqBook) -> (r: Result<BookRecord, ErrorResponse>)
    ensures
        lookup is Err ==> r is Err && r->Err_0.status() == STATUS_INTERNAL_SERVER_ERROR
            && r->Err_0.message() == lookup->Err_0@,
        lookup matches Ok(None) ==> r is Err && is_not_found(r->Err_0),
        lookup matches Ok(Some(a)) ==> r matches Ok(b) && b.id == a.id && b.user_id == a.user_id
            && b.author_id == req.author_id && b.title@ == req.title@ && b.year@ == req.year@
            && b.cover@ == req.cover@,
{
    let a = found(lookup)?;
    Ok(
        BookRecord {
            id: a.id,
            user_id: a.user_id,
            author_id: req.author_id,
            title: req.title.clone(),
            year: req.year.clone(),
            cover: req.cover.clone(),
        },
    )
}

/// The answer once the store has saved an updated book: 200 with it.
pub fn updated(saved: Result<BookRecord, String>) -> (r: Response<ResBook>)
    ensures
        saved is Err ==> r is Err && r->Err_0.status() == STATUS_INTERNAL_SERVER_ERROR
            && r->Err_0.message() == saved->Err_0@,
        saved matches Ok(b) ==> r is Ok && r->Ok_0.status() == STATUS_OK && shows(
            r->Ok_0.0.1,
            b,
        ),
{
    match saved {
        Ok(b) => Ok(SuccessResponse((STATUS_OK, ResBook::from(&b)))),
        Err(e) => Err(ErrorResponse::from(e)),
    }
}

/// The book to delete, or 404 where the lookup by id found none.
pub fn delete(lookup: Result<Option<BookRecord>, String>) -> (r: Result<BookRecord, ErrorResponse>)
    ensures
        lookup is Err ==> r is Err && r->Err_0.status() == STATUS_INTERNAL_SERVER_ERROR
            && r->Err_0.message() == lookup->Err_0@,
        lookup matches Ok(None) ==> r is Err && is_not_found(r->Err_0),
        lookup matches Ok(Some(a)) ==> r matches Ok(b) && b == a,
{
    found(lookup)
}

/// The answer once the store has deleted a book.
pub fn deleted(done: Result<(), String>) -> (r: Response<GenericResponse>)
    ensures
        done is Err ==> r is Err && r->Err_0.status() == STATUS_INTERNAL_SERVER_ERROR
            && r->Err_0.message() == done->Err_0@,
        done is Ok ==> r is Ok && r->Ok_0.status() == STATUS_OK && r->Ok_0.0.1.message@
            == "Book deleted"@,
{
    match done {
        Ok(()) => Ok(SuccessResponse((STATUS_OK, GenericResponse { message: "Book deleted".to_string() }))),
        Err(e) => Err(ErrorResponse::from(e)),
    }
}

} // verus!
