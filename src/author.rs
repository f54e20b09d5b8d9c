//! Authors: the decisions of the author routes around the store's answers.
use vstd::prelude::*;

use crate::auth::AuthenticatedUser;
use crate::response::{
    ErrorResponse, GenericResponse, Response, SuccessResponse, STATUS_CREATED,
    STATUS_INTERNAL_SERVER_ERROR, STATUS_NOT_FOUND, STATUS_OK,
};

verus! {

/// An author as the store hands it back.
pub struct AuthorRecord {
    pub id: i32,
    pub user_id: i32,
    pub firstname: String,
    pub lastname: String,
    pub bio: String,
}

/// An author to be stored, or the new values of a stored one.
pub struct AuthorChanges {
    /// The account that creates the author.
    pub user_id: u32,
    pub firstname: String,
    pub lastname: String,
    pub bio: String,
}

/// An author as a response shows it.
pub struct ResAuthor {
    pub id: i32,
    pub firstname: String,
    pub lastname: String,
    pub bio: String,
}

/// Every author, with their number.
pub struct ResAuthorList {
    pub total: usize,
    pub authors: Vec<ResAuthor>,
}

/// Body of a create or update request.
pub struct ReqAuthor {
    pub firstname: String,
    pub lastname: String,
    pub bio: String,
}

/// `res` shows `rec`.
pub open spec fn shows(res: ResAuthor, rec: AuthorRecord) -> bool {
    res.id == rec.id && res.firstname@ == rec.firstname@ && res.lastname@ == rec.lastname@
        && res.bio@ == rec.bio@
}

pub open spec fn is_not_found(e: ErrorResponse) -> bool {
    e.status() == STATUS_NOT_FOUND && e.message() == "Cannot find author with specified ID"@
}

impl ResAuthor {
    pub fn from(rec: &AuthorRecord) -> (r: ResAuthor)
        ensures
            shows(r, *rec),
    {
        ResAuthor {
            id: rec.id,
            firstname: rec.firstname.clone(),
            lastname: rec.lastname.clone(),
            bio: rec.bio.clone(),
        }
    }
}

fn not_found() -> (r: ErrorResponse)
    ensures
        is_not_found(r),
{
    ErrorResponse::new(STATUS_NOT_FOUND, "Cannot find author with specified ID".to_string())
}

/// The author that a lookup by id found, or 404 where there is none (500
/// where the store failed).
fn found(lookup: Result<Option<AuthorRecord>, String>) -> (r: Result<AuthorRecord, ErrorResponse>)
    ensures
        lookup is Err ==> r is Err && r->Err_0.status() == STATUS_INTERNAL_SERVER_ERROR
            && r->Err_0.message() == lookup->Err_0@,
        lookup matches Ok(None) ==> r is Err && is_not_found(r->Err_0),
        lookup matches Ok(Some(a)) ==> r matches Ok(b) && b == a,
{
    match lookup {
        Err(e) => Err(ErrorResponse::from(e)),
        Ok(None) => Err(not_found()),
        Ok(Some(a)) => Ok(a),
    }
}

/// The list of all authors, in the order the store gave them.
pub fn index(all: Result<Vec<AuthorRecord>, String>) -> (r: Response<ResAuthorList>)
    ensures
        all is Err ==> r is Err && r->Err_0.status() == STATUS_INTERNAL_SERVER_ERROR
            && r->Err_0.message() == all->Err_0@,
        all is Ok ==> r is Ok && r->Ok_0.status() == STATUS_OK && r->Ok_0.0.1.total
            == all->Ok_0@.len() && r->Ok_0.0.1.authors@.len() == all->Ok_0@.len() && forall|i: int|
            0 <= i < all->Ok_0@.len() ==> shows(
            #[trigger] r->Ok_0.0.1.authors@[i],
            all->Ok_0@[i],
        ),
{
    let records = match all {
        Ok(records) => records,
        Err(e) => {
            return Err(ErrorResponse::from(e));
        },
    };
    let mut authors: Vec<ResAuthor> = Vec::new();
    let mut i: usize = 0;
    while i < records.len()
        invariant
            i <= records@.len(),
            authors@.len() == i,
            forall|k: int| 0 <= k < i ==> shows(#[trigger] authors@[k], records@[k]),
        decreases records@.len() - i,
    {
        authors.push(ResAuthor::from(&records[i]));
        i = i + 1;
    }
    Ok(SuccessResponse((STATUS_OK, ResAuthorList { total: authors.len(), authors })))
}

/// The author to store for a create request by `user`.
pub fn create(user: &AuthenticatedUser, req: &ReqAuthor) -> (r: AuthorChanges)
    ensures
        r.user_id == user.id,
        r.firstname@ == req.firstname@,
        r.lastname@ == req.lastname@,
        r.bio@ == req.bio@,
{
    AuthorChanges {
        user_id: user.id,
        firstname: req.firstname.clone(),
        lastname: req.lastname.clone(),
        bio: req.bio.clone(),
    }
}

/// The answer once the store has inserted an author: 201 with it.
pub fn created(inserted: Result<AuthorRecord, String>) -> (r: Response<ResAuthor>)
    ensures
        inserted is Err ==> r is Err && r->Err_0.status() == STATUS_INTERNAL_SERVER_ERROR
            && r->Err_0.message() == inserted->Err_0@,
        inserted matches Ok(a) ==> r is Ok && r->Ok_0.status() == STATUS_CREATED && shows(
            r->Ok_0.0.1,
            a,
        ),
{
    match inserted {
        Ok(a) => Ok(SuccessResponse((STATUS_CREATED, ResAuthor::from(&a)))),
        Err(e) => Err(ErrorResponse::from(e)),
    }
}

/// The author a lookup by id found, or 404.
pub fn show(lookup: Result<Option<AuthorRecord>, String>) -> (r: Response<ResAuthor>)
    ensures
        lookup is Err ==> r is Err && r->Err_0.status() == STATUS_INTERNAL_SERVER_ERROR
            && r->Err_0.message() == lookup->Err_0@,
        lookup matches Ok(None) ==> r is Err && is_not_found(r->Err_0),
        lookup matches Ok(Some(a)) ==> r is Ok && r->Ok_0.status() == STATUS_OK && shows(
            r->Ok_0.0.1,
            a,
        ),
{
    let a = found(lookup)?;
    Ok(SuccessResponse((STATUS_OK, ResAuthor::from(&a))))
}

/// The stored author with the request's values, or 404 where the lookup by
/// id found none.
pub fn update(lookup: Result<Option<AuthorRecord>, String>, req: &ReqAuthor) -> (r: Result<AuthorRecord, ErrorResponse>)
    ensures
        lookup is Err ==> r is Err && r->Err_0.status() == STATUS_INTERNAL_SERVER_ERROR
            && r->Err_0.message() == lookup->Err_0@,
        lookup matches Ok(None) ==> r is Err && is_not_found(r->Err_0),
        lookup matches Ok(Some(a)) ==> r matches Ok(b) && b.id == a.id && b.user_id == a.user_id
            && b.firstname@ == req.firstname@ && b.lastname@ == req.lastname@ && b.bio@
            == req.bio@,
{
    let a = found(lookup)?;
    Ok(
        AuthorRecord {
            id: a.id,
            user_id: a.user_id,
            firstname: req.firstname.clone(),
            lastname: req.lastname.clone(),
            bio: req.bio.clone(),
        },
    )
}

/// The answer once the store has saved an updated author: 200 with it.
pub fn updated(saved: Result<AuthorRecord, String>) -> (r: Response<ResAuthor>)
    ensures
        saved is Err ==> r is Err && r->Err_0.status() == STATUS_INTERNAL_SERVER_ERROR
            && r->Err_0.message() == saved->Err_0@,
        saved matches Ok(a) ==> r is Ok && r->Ok_0.status() == STATUS_OK && shows(
            r->Ok_0.0.1,
            a,
        ),
{
    match saved {
        Ok(a) => Ok(SuccessResponse((STATUS_OK, ResAuthor::from(&a)))),
        Err(e) => Err(ErrorResponse::from(e)),
    }
}

/// The author to delete, or 404 where the lookup by id found none.
pub fn delete(lookup: Result<Option<AuthorRecord>, String>) -> (r: Result<AuthorRecord, ErrorResponse>)
    ensures
        lookup is Err ==> r is Err && r->Err_0.status() == STATUS_INTERNAL_SERVER_ERROR
            && r->Err_0.message() == lookup->Err_0@,
        lookup matches Ok(None) ==> r is Err && is_not_found(r->Err_0),
        lookup matches Ok(Some(a)) ==> r matches Ok(b) && b == a,
{
    found(lookup)
}

/// The answer once the store has deleted an author.
pub fn deleted(done: Result<(), String>) -> (r: Response<GenericResponse>)
    ensures
        done is Err ==> r is Err && r->Err_0.status() == STATUS_INTERNAL_SERVER_ERROR
            && r->Err_0.message() == done->Err_0@,
        done is Ok ==> r is Ok && r->Ok_0.status() == STATUS_OK && r->Ok_0.0.1.message@
            == "Author deleted"@,
{
    match done {
        Ok(()) => Ok(SuccessResponse((STATUS_OK, GenericResponse { message: "Author deleted".to_string() }))),
        Err(e) => Err(ErrorResponse::from(e)),
    }
}

} // verus!
