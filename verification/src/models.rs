//! The data model: the rows the persistence collaborator stores and the
//! values the reading service hands back, with the pure constructors and
//! access rules that assemble them.  Timestamps that the reconciliation
//! logic computes with are plain epoch seconds; timestamps that are only
//! carried through (creation dates) stay text.

use vstd::prelude::*;

verus! {

/// A registered user, as persistence stores it.
pub struct User {
    pub id: i64,
    pub username: String,
    pub password_hash: String,
    pub created_at: String,
    pub total_reading_time: i64,
}

/// A registration request.
pub struct CreateUserRequest {
    pub username: String,
    pub password: String,
    pub invite_code: Option<String>,
}

/// The user-info view returned to a signed-in user.
pub struct UserInfoResponse {
    pub user_id: i64,
    pub username: String,
    pub total_reading_time: i64,
    pub book_count: i64,
}

/// System-wide settings.
pub struct Settings {
    pub id: i64,
    pub invite_code_required: bool,
}

/// An invite code row: `limit_times` below zero means unlimited use.
pub struct InviteCode {
    pub id: i64,
    pub code: String,
    pub limit_times: i64,
    pub used_times: i64,
    pub description: Option<String>,
    pub created_at: String,
}

/// A book row.
pub struct Book {
    pub id: i64,
    pub user_id: i64,
    pub title: String,
    pub author: Option<String>,
    pub file_path: String,
    pub is_public: bool,
    pub created_at: String,
}

/// A chapter row produced at upload time.
pub struct Chapter {
    pub id: i64,
    pub book_id: i64,
    pub title: String,
    pub position: i64,
}

/// A chapter as returned to clients.
pub struct ChapterResponse {
    pub chapter_id: i64,
    pub title: String,
    pub position: i64,
}

/// The response to a successful upload.
pub struct UploadBookResponse {
    pub book_id: i64,
    pub title: String,
    pub author: Option<String>,
    pub chapters: Vec<ChapterResponse>,
}

/// One entry of the signed-in user's book list.
pub struct BookListItem {
    pub book_id: i64,
    pub title: String,
    pub author: Option<String>,
    pub is_public: bool,
    pub created_at: String,
    pub last_read_at: Option<i64>,
    pub position: i64,
    pub reading_time: i64,
}

/// The detail view of one book.
pub struct BookDetailResponse {
    pub book_id: i64,
    pub title: String,
    pub author: Option<String>,
    pub is_public: bool,
    pub created_at: String,
    pub last_read_at: Option<i64>,
    pub position: i64,
    pub reading_time: i64,
    pub chapters: Vec<ChapterResponse>,
}

/// A slice of book content together with where the next read starts.
pub struct BookContentResponse {
    pub content: String,
    pub next_position: i64,
}

/// A request to change a book's metadata; absent fields stay unchanged.
pub struct UpdateBookRequest {
    pub title: Option<String>,
    pub author: Option<String>,
    pub is_public: Option<bool>,
}

/// Page-and-limit query parameters.
pub struct PaginationParams {
    pub page: Option<u32>,
    pub limit: Option<u32>,
}

/// Query parameters of a content read.
pub struct ContentParams {
    pub position: i64,
    pub length: Option<i64>,
}

/// Query parameters of a random pick among the public books.
pub struct RandomPublicParams {
    pub count: Option<i64>,
}

/// The stored settings, or what the admin settings view shows when none
/// were written yet: a fresh system requires invite codes.  This default
/// is the view's alone — registration's own gate reads a missing row the
/// opposite way (see `validate::invite_required_at_registration`).
pub fn settings_or_default(s: Option<Settings>) -> (r: Settings)
    ensures
        s matches Some(v) ==> r == v,
        s is None ==> r == (Settings { id: 1, invite_code_required: true }),
{
    match s {
        Some(v) => v,
        None => Settings { id: 1, invite_code_required: true },
    }
}

/// Whether `viewer` may read `book`: the owner always may, others only
/// when the book is public.
pub open spec fn can_read_spec(book: Book, viewer: i64) -> bool {
    book.user_id == viewer || book.is_public
}

impl Book {
    pub fn can_read(&self, viewer: i64) -> (r: bool)
        ensures
            r == can_read_spec(*self, viewer),
    {
        self.user_id == viewer || self.is_public
    }

    /// Only the owner may change or delete a book.
    pub fn can_modify(&self, viewer: i64) -> (r: bool)
        ensures
            r == (self.user_id == viewer),
    {
        self.user_id == viewer
    }
}

fn clone_opt_string(o: &Option<String>) -> (r: Option<String>)
    ensures
        r == *o,
{
    match o {
        Some(s) => Some(s.clone()),
        None => None,
    }
}

/// Assemble the user-info view from the stored row and the book count.
pub fn build_user_info(user: &User, book_count: i64) -> (r: UserInfoResponse)
    ensures
        r.user_id == user.id,
        r.username == user.username,
        r.total_reading_time == user.total_reading_time,
        r.book_count == book_count,
{
    UserInfoResponse {
        user_id: user.id,
        username: user.username.clone(),
        total_reading_time: user.total_reading_time,
        book_count,
    }
}

/// Assemble one book-list entry; a book without a progress row reads as
/// position zero and no time spent.
pub fn build_book_list_item(
    book: &Book,
    position: Option<i64>,
    reading_time: Option<i64>,
    last_read_at: Option<i64>,
) -> (r: BookListItem)
    ensures
        r.book_id == book.id,
        r.title == book.title,
        r.author == book.author,
        r.is_public == book.is_public,
        r.created_at == book.created_at,
        r.last_read_at == last_read_at,
        r.position == (match position {
            Some(v) => v,
            None => 0,
        }),
        r.reading_time == (match reading_time {
            Some(v) => v,
            None => 0,
        }),
{
    BookListItem {
        book_id: book.id,
        title: book.title.clone(),
        author: clone_opt_string(&book.author),
        is_public: book.is_public,
        created_at: book.created_at.clone(),
        last_read_at,
        position: match position {
            Some(v) => v,
            None => 0,
        },
        reading_time: match reading_time {
            Some(v) => v,
            None => 0,
        },
    }
}

/// Assemble the detail view of a book from its row, its chapter list and
/// the viewer's progress values.
pub fn build_book_detail(
    book: &Book,
    chapters: Vec<ChapterResponse>,
    position: i64,
    reading_time: i64,
    last_read_at: Option<i64>,
) -> (r: BookDetailResponse)
    ensures
        r.book_id == book.id,
        r.title == book.title,
        r.author == book.author,
        r.is_public == book.is_public,
        r.created_at == book.created_at,
        r.last_read_at == last_read_at,
        r.position == position,
        r.reading_time == reading_time,
        r.chapters == chapters,
{
    BookDetailResponse {
        book_id: book.id,
        title: book.title.clone(),
        author: clone_opt_string(&book.author),
        is_public: book.is_public,
        created_at: book.created_at.clone(),
        last_read_at,
        position,
        reading_time,
        chapters,
    }
}

/// Whether an update request changes anything at all.
pub fn update_has_changes(req: &UpdateBookRequest) -> (r: bool)
    ensures
        r == (req.title is Some || req.author is Some || req.is_public is Some),
{
    req.title.is_some() || req.author.is_some() || req.is_public.is_some()
}

} // verus!
