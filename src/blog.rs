use vstd::prelude::*;

verus! {

/// Outcomes of a blog lookup that are not a blog, each with its HTTP status.
#[derive(Clone, Copy, Debug, PartialEq, Eq, Structural)]
pub enum HttpStatusErrors {
    BadRequest,
    Unauthorized,
    NotFound,
    InternalServerError,
}

impl HttpStatusErrors {
    /// The HTTP status code of the outcome.
    pub fn status_code(&self) -> (r: u16)
        ensures
            r == match *self {
                HttpStatusErrors::BadRequest => 400u16,
                HttpStatusErrors::Unauthorized => 401u16,
                HttpStatusErrors::NotFound => 404u16,
                HttpStatusErrors::InternalServerError => 500u16,
            },
    {
        match *self {
            HttpStatusErrors::InternalServerError => 500,
            HttpStatusErrors::BadRequest => 400,
            HttpStatusErrors::NotFound => 404,
            HttpStatusErrors::Unauthorized => 401,
        }
    }
}

/// A blog post.
#[derive(Debug)]
pub struct Blog {
    pub name: String,
    pub body: String,
    pub id: i64,
}

impl Clone for Blog {
    fn clone(&self) -> (r: Self)
        ensures
            r == *self,
    {
        Blog { name: self.name.clone(), body: self.body.clone(), id: self.id }
    }
}

/// The name and body of the catalogue's post with id `id`, if there is one.
pub open spec fn catalogue_entry(id: i64) -> Option<(Seq<char>, Seq<char>)> {
    if id == 1 {
        Some(("getting started with rust"@, "lets get rusty"@))
    } else if id == 2 {
        Some(("paperclip is pretty cool"@, "It allows me to do lots of things"@))
    } else {
        None
    }
}

/// `b` is the catalogue's post with its id.
pub open spec fn is_catalogue_post(b: Blog) -> bool {
    catalogue_entry(b.id) == Some((b.name@, b.body@))
}

/// The fixed catalogue of posts: ids 1 and 2, in that order.
pub fn load_blogs() -> (r: Vec<Blog>)
    ensures
        r@.len() == 2,
        forall|i: int| 0 <= i < 2 ==> r@[i].id == i + 1 && is_catalogue_post(#[trigger] r@[i]),
{
    let r: Vec<Blog> = vec![
        Blog {
            name: "getting started with rust".to_owned(),
            body: "lets get rusty".to_owned(),
            id: 1,
        },
        Blog {
            name: "paperclip is pretty cool".to_owned(),
            body: "It allows me to do lots of things".to_owned(),
            id: 2,
        },
    ];
    r
}

/// The post with id `id`: `BadRequest` for an id that is not positive,
/// `NotFound` for one that the catalogue lacks.
pub fn find_blog(id: i64) -> (r: Result<Blog, HttpStatusErrors>)
    ensures
        id <= 0 ==> r == Err::<Blog, HttpStatusErrors>(HttpStatusErrors::BadRequest),
        id > 0 && catalogue_entry(id) is None ==> r == Err::<Blog, HttpStatusErrors>(
            HttpStatusErrors::NotFound,
        ),
        id > 0 && catalogue_entry(id) is Some ==> (r matches Ok(b) && b.id == id
            && is_catalogue_post(b)),
{
    if id <= 0 {
        return Err(HttpStatusErrors::BadRequest);
    }
    let blogs = load_blogs();
    let mut i: usize = 0;
    while i < blogs.len()
        invariant
            blogs@.len() == 2,
            forall|k: int| 0 <= k < 2 ==> blogs@[k].id == k + 1 && is_catalogue_post(#[trigger] blogs@[k]),
            i <= 2,
            forall|k: int| 0 <= k < i ==> blogs@[k].id != id,
        decreases 2 - i,
    {
        if blogs[i].id == id {
            return Ok(blogs[i].clone());
        }
        i = i + 1;
    }
    assert(blogs@[0].id == 1 && blogs@[1].id == 2);
    Err(HttpStatusErrors::NotFound)
}

} // verus!
