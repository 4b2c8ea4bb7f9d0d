use vstd::prelude::*;
use vstd::string::StrSliceExecFns;
use crate::error::BlogError;

verus! {

/// A picture post of the single-author gallery: `id` is `None` until the
/// post is stored.
#[derive(Debug)]
pub struct Post {
    pub id: Option<i64>,
    pub title: String,
    pub body: String,
    pub image_url: String,
}

/// A stored row of the gallery.
pub struct Row {
    pub id: i64,
    pub title: Seq<char>,
    pub body: Seq<char>,
    pub image_url: Seq<char>,
}

struct StoredPost {
    id: i64,
    title: String,
    body: String,
    image_url: String,
}

impl View for StoredPost {
    type V = Row;

    closed spec fn view(&self) -> Row {
        Row { id: self.id, title: self.title@, body: self.body@, image_url: self.image_url@ }
    }
}

impl StoredPost {
    fn to_post(&self) -> (r: Post)
        ensures
            r.id == Some(self.id),
            r.title@ == self.title@,
            r.body@ == self.body@,
            r.image_url@ == self.image_url@,
    {
        Post {
            id: Some(self.id),
            title: self.title.clone(),
            body: self.body.clone(),
            image_url: self.image_url.clone(),
        }
    }
}

impl Post {
    /// An unsaved post.
    pub fn new(title: &str, body: &str, image_url: &str) -> (r: Post)
        ensures
            r.id is None,
            r.title@ == title@,
            r.body@ == body@,
            r.image_url@ == image_url@,
    {
        Post { id: None, title: title.to_string(), body: body.to_string(), image_url: image_url.to_string() }
    }

    /// The row this post becomes when stored under `id`.
    pub open spec fn row(&self, id: i64) -> Row {
        Row { id, title: self.title@, body: self.body@, image_url: self.image_url@ }
    }

    /// The post carries the row `row`.
    pub open spec fn shows(&self, row: Row) -> bool {
        self.id == Some(row.id) && self.title@ == row.title && self.body@ == row.body && self.image_url@
            == row.image_url
    }
}

/// `p` starts `s`.
pub open spec fn has_prefix(s: Seq<char>, p: Seq<char>) -> bool {
    p.len() <= s.len() && s.subrange(0, p.len() as int) == p
}

/// An image address must be an http or https URL.
pub open spec fn valid_image_url(url: Seq<char>) -> bool {
    has_prefix(url, seq!['h', 't', 't', 'p', ':', '/', '/']) || has_prefix(
        url,
        seq!['h', 't', 't', 'p', 's', ':', '/', '/'],
    )
}

fn starts_with(s: &str, p: &str) -> (r: bool)
    ensures
        r == has_prefix(s@, p@),
{
    let n = p.unicode_len();
    if n > s.unicode_len() {
        return false;
    }
    let mut i: usize = 0;
    while i < n
        invariant
            n == p@.len(),
            n <= s@.len(),
            i <= n,
            forall|k: int| 0 <= k < i ==> s@[k] == p@[k],
        decreases n - i,
    {
        if s.get_char(i) != p.get_char(i) {
            assert(s@.subrange(0, n as int)[i as int] != p@[i as int]);
            return false;
        }
        i = i + 1;
    }
    assert(s@.subrange(0, n as int) =~= p@);
    true
}

/// Rejects a post whose image address is not an http or https URL.
pub fn validate_image_url(post: &Post) -> (r: Result<(), BlogError>)
    ensures
        r is Ok <==> valid_image_url(post.image_url@),
        r is Err ==> r == Err::<(), BlogError>(BlogError::ValidationFailed),
{
    let url = post.image_url.as_str();
    proof {
        reveal_strlit("http://");
        reveal_strlit("https://");
        assert("http://"@ =~= seq!['h', 't', 't', 'p', ':', '/', '/']);
        assert("https://"@ =~= seq!['h', 't', 't', 'p', 's', ':', '/', '/']);
    }
    if starts_with(url, "http://") || starts_with(url, "https://") {
        Ok(())
    } else {
        Err(BlogError::ValidationFailed)
    }
}

/// The gallery's table: rows in insertion order and the key the next row
/// gets. Keys count up from one and are never reused.
pub struct BlogDb {
    rows: Vec<StoredPost>,
    next_id: i64,
}

pub struct DbView {
    pub rows: Seq<Row>,
    pub next_id: i64,
}

impl DbView {
    pub open spec fn wf(self) -> bool {
        &&& 1 <= self.next_id
        &&& forall|i: int| 0 <= i < self.rows.len() ==> 1 <= #[trigger] self.rows[i].id < self.next_id
        &&& forall|i: int, j: int|
            0 <= i < j < self.rows.len() ==> #[trigger] self.rows[i].id < #[trigger] self.rows[j].id
    }

    pub open spec fn has_row(self, id: i64) -> bool {
        exists|i: int| 0 <= i < self.rows.len() && #[trigger] self.rows[i].id == id
    }
}

impl View for BlogDb {
    type V = DbView;

    closed spec fn view(&self) -> DbView {
        DbView { rows: self.rows@.map_values(|p: StoredPost| p@), next_id: self.next_id }
    }
}

impl BlogDb {
    pub open spec fn wf(&self) -> bool {
        self@.wf()
    }

    /// An empty gallery whose first key is one.
    pub fn new_temporary() -> (r: Result<BlogDb, BlogError>)
        ensures
            r is Ok,
            r->Ok_0.wf(),
            r->Ok_0@.rows.len() == 0,
            r->Ok_0@.next_id == 1,
    {
        let db = BlogDb { rows: Vec::new(), next_id: 1 };
        proof {
            assert(db@.rows.len() == 0);
        }
        Ok(db)
    }

    fn index_of(&self, id: i64) -> (r: Option<usize>)
        ensures
            match r {
                Some(i) => i < self@.rows.len() && self@.rows[i as int].id == id,
                None => !self@.has_row(id),
            },
    {
        let mut i: usize = 0;
        while i < self.rows.len()
            invariant
                i <= self.rows.len(),
                forall|k: int| 0 <= k < i ==> self@.rows[k].id != id,
            decreases self.rows.len() - i,
        {
            if self.rows[i].id == id {
                return Some(i);
            }
            i = i + 1;
        }
        None
    }

    /// Stores a post under the next key and returns that key; the post's
    /// own `id` is ignored. Fails with `Infrastructure` once the keys are
    /// used up.
    pub fn create_post(&mut self, post: &Post) -> (r: Result<i64, BlogError>)
        requires
            old(self).wf(),
        ensures
            final(self).wf(),
            old(self)@.next_id < i64::MAX ==> r == Ok::<i64, BlogError>(old(self)@.next_id) && final(self)@ == (DbView {
                rows: old(self)@.rows.push(post.row(old(self)@.next_id)),
                next_id: (old(self)@.next_id + 1) as i64,
            }),
            old(self)@.next_id == i64::MAX ==> r == Err::<i64, BlogError>(BlogError::Infrastructure)
                && final(self)@ == old(self)@,
    {
        if self.next_id == i64::MAX {
            return Err(BlogError::Infrastructure);
        }
        let id = self.next_id;
        let row = StoredPost {
            id,
            title: post.title.clone(),
            body: post.body.clone(),
            image_url: post.image_url.clone(),
        };
        let ghost pre = self@;
        self.rows.push(row);
        self.next_id = id + 1;
        proof {
            assert(self@.rows =~= pre.rows.push(post.row(id)));
        }
        Ok(id)
    }

    /// The post stored under `id`; `NotFound` where there is none.
    pub fn get_post(&self, id: i64) -> (r: Result<Post, BlogError>)
        requires
            self.wf(),
        ensures
            r is Err <==> !self@.has_row(id),
            r is Err ==> r == Err::<Post, BlogError>(BlogError::NotFound),
            r is Ok ==> exists|i: int| 0 <= i < self@.rows.len() && self@.rows[i].id == id && r->Ok_0.shows(self@.rows[i]),
    {
        match self.index_of(id) {
            Some(i) => Ok(self.rows[i].to_post()),
            None => Err(BlogError::NotFound),
        }
    }

    /// Every stored post, highest key first.
    pub fn list_posts(&self) -> (r: Result<Vec<Post>, BlogError>)
        requires
            self.wf(),
        ensures
            r is Ok,
            r->Ok_0@.len() == self@.rows.len(),
            forall|i: int| 0 <= i < self@.rows.len() ==> #[trigger] r->Ok_0@[i].shows(self@.rows[self@.rows.len() - 1 - i]),
    {
        let mut out: Vec<Post> = Vec::new();
        let n = self.rows.len();
        let mut k: usize = n;
        while k > 0
            invariant
                k <= n,
                n == self@.rows.len(),
                out@.len() == n - k,
                forall|i: int| 0 <= i < out@.len() ==> #[trigger] out@[i].shows(self@.rows[n - 1 - i]),
            decreases k,
        {
            k = k - 1;
            out.push(self.rows[k].to_post());
        }
        Ok(out)
    }

    /// Replaces the title, body and image address stored under `id`;
    /// `NotFound` where there is no such row.
    pub fn update_post(&mut self, id: i64, post: &Post) -> (r: Result<(), BlogError>)
        requires
            old(self).wf(),
        ensures
            final(self).wf(),
            r is Err <==> !old(self)@.has_row(id),
            r is Err ==> r == Err::<(), BlogError>(BlogError::NotFound) && final(self)@ == old(self)@,
            r is Ok ==> exists|i: int|
                0 <= i < old(self)@.rows.len() && old(self)@.rows[i].id == id && final(self)@ == (DbView {
                    rows: old(self)@.rows.update(i, post.row(id)),
                    ..old(self)@
                }),
    {
        let i = match self.index_of(id) {
            Some(i) => i,
            None => return Err(BlogError::NotFound),
        };
        let row = StoredPost {
            id,
            title: post.title.clone(),
            body: post.body.clone(),
            image_url: post.image_url.clone(),
        };
        let ghost pre = self@;
        self.rows.set(i, row);
        proof {
            assert(self@.rows =~= pre.rows.update(i as int, post.row(id)));
        }
        Ok(())
    }

    /// Removes the row stored under `id`; `NotFound` where there is none.
    /// Its key is not given out again.
    pub fn delete_post(&mut self, id: i64) -> (r: Result<(), BlogError>)
        requires
            old(self).wf(),
        ensures
            final(self).wf(),
            r is Err <==> !old(self)@.has_row(id),
            r is Err ==> r == Err::<(), BlogError>(BlogError::NotFound) && final(self)@ == old(self)@,
            r is Ok ==> exists|i: int|
                0 <= i < old(self)@.rows.len() && old(self)@.rows[i].id == id && final(self)@ == (DbView {
                    rows: old(self)@.rows.remove(i),
                    ..old(self)@
                }),
    {
        let i = match self.index_of(id) {
            Some(i) => i,
            None => return Err(BlogError::NotFound),
        };
        let ghost pre = self@;
        self.rows.remove(i);
        proof {
            assert(self@.rows =~= pre.rows.remove(i as int));
        }
        Ok(())
    }
}

} // verus!
