//! Data carried over the LAN protocol: library items and peer addresses.

use vstd::prelude::*;

verus! {

/// Mathematical model of a library item: every field as a plain spec value.
pub ghost struct BookModel {
    pub id: i64,
    pub title: Seq<char>,
    pub authors: Seq<char>,
    pub path: Seq<char>,
    pub cover_url: Option<Seq<char>>,
    pub formats: Seq<Seq<char>>,
    pub series: Option<Seq<char>>,
    pub series_index: Option<u64>,
    pub tags: Seq<Seq<char>>,
    pub publisher: Option<Seq<char>>,
}

/// One library item (a book): metadata plus the relative directory that
/// holds its cover and format files. Replaced wholesale when the library
/// is (re)loaded; never partially mutated.
pub struct Book {
    pub id: i64,
    pub title: String,
    /// Display string, comma-separated.
    pub authors: String,
    /// Directory of the item's files, relative to the library root.
    pub path: String,
    pub cover_url: Option<String>,
    /// Lowercase extensions known to exist for this item.
    pub formats: Vec<String>,
    pub series: Option<String>,
    pub series_index: Option<u64>,
    pub tags: Vec<String>,
    pub publisher: Option<String>,
}

impl View for Book {
    type V = BookModel;

    open spec fn view(&self) -> BookModel {
        BookModel {
            id: self.id,
            title: self.title@,
            authors: self.authors@,
            path: self.path@,
            cover_url: match self.cover_url {
                Some(s) => Some(s@),
                None => None,
            },
            formats: self.formats.deep_view(),
            series: match self.series {
                Some(s) => Some(s@),
                None => None,
            },
            series_index: self.series_index,
            tags: self.tags.deep_view(),
            publisher: match self.publisher {
                Some(s) => Some(s@),
                None => None,
            },
        }
    }
}

impl DeepView for Book {
    type V = BookModel;

    open spec fn deep_view(&self) -> BookModel {
        self@
    }
}

/// Copy every `String` of an optional field, preserving the value.
fn clone_opt_string(v: &Option<String>) -> (r: Option<String>)
    ensures
        r == *v,
{
    match v {
        Some(s) => Some(s.clone()),
        None => None,
    }
}

/// Copy a list of `String`s, preserving the contents.
fn clone_string_vec(v: &Vec<String>) -> (r: Vec<String>)
    ensures
        r.deep_view() == v.deep_view(),
        r@.len() == v@.len(),
{
    let mut out: Vec<String> = Vec::new();
    let n = v.len();
    let mut i: usize = 0;
    while i < n
        invariant
            n == v@.len(),
            i <= n,
            out@.len() == i,
            forall|j: int| 0 <= j < i ==> out@[j]@ == v@[j]@,
        decreases n - i,
    {
        out.push(v[i].clone());
        i += 1;
    }
    proof {
        assert(out.deep_view() =~= v.deep_view());
    }
    out
}

impl Book {
    /// Field-for-field copy with the same model.
    pub fn duplicate(&self) -> (r: Book)
        ensures
            r@ == self@,
    {
        let r = Book {
            id: self.id,
            title: self.title.clone(),
            authors: self.authors.clone(),
            path: self.path.clone(),
            cover_url: clone_opt_string(&self.cover_url),
            formats: clone_string_vec(&self.formats),
            series: clone_opt_string(&self.series),
            series_index: self.series_index,
            tags: clone_string_vec(&self.tags),
            publisher: clone_opt_string(&self.publisher),
        };
        proof {
            assert(r@ == self@);
        }
        r
    }
}

/// Copy a list of books, preserving every model.
pub(crate) fn clone_books(v: &Vec<Book>) -> (r: Vec<Book>)
    ensures
        r.deep_view() == v.deep_view(),
        r@.len() == v@.len(),
{
    let mut out: Vec<Book> = Vec::new();
    let n = v.len();
    let mut i: usize = 0;
    while i < n
        invariant
            n == v@.len(),
            i <= n,
            out@.len() == i,
            forall|j: int| 0 <= j < i ==> out@[j]@ == v@[j]@,
        decreases n - i,
    {
        out.push(v[i].duplicate());
        i += 1;
    }
    proof {
        assert(out.deep_view() =~= v.deep_view());
    }
    out
}

/// How to reach one host: its address, serving port and advertised name.
/// The host's own record also carries the pairing PIN for display.
pub struct ConnectionInfo {
    pub ip: String,
    pub port: u16,
    pub hostname: String,
    pub pin: Option<String>,
}

impl ConnectionInfo {
    /// Field-for-field copy; only `String` fields, so the copy is equal
    /// as a value.
    pub fn duplicate(&self) -> (r: ConnectionInfo)
        ensures
            r == *self,
    {
        ConnectionInfo {
            ip: self.ip.clone(),
            port: self.port,
            hostname: self.hostname.clone(),
            pin: clone_opt_string(&self.pin),
        }
    }
}

/// Copy a list of peer records, preserving every value.
pub(crate) fn clone_hosts(v: &Vec<ConnectionInfo>) -> (r: Vec<ConnectionInfo>)
    ensures
        r@ == v@,
{
    let mut out: Vec<ConnectionInfo> = Vec::new();
    let n = v.len();
    let mut i: usize = 0;
    while i < n
        invariant
            n == v@.len(),
            i <= n,
            out@ == v@.take(i as int),
        decreases n - i,
    {
        out.push(v[i].duplicate());
        proof {
            assert(out@ =~= v@.take(i + 1 as int));
        }
        i += 1;
    }
    proof {
        assert(v@.take(n as int) =~= v@);
    }
    out
}

} // verus!
