//! The content server's state and decisions: PIN pairing, bearer-token
//! authorization, the cached library snapshot, and the planning of
//! cover and download delivery.
//!
//! All filesystem and network work stays outside this module; callers
//! perform it and hand the outcomes back as plain values.

use vstd::prelude::*;
use vstd::string::StrSliceExecFns;
use vstd::string::StringExecFns;
use crate::error::AppError;
use crate::models::{Book, clone_books, ConnectionInfo};
use crate::progress::{lww_merged, ProgressRecord, ProgressStore};
use crate::text::{spec_decimal, spec_decimal_i64, i64_string, u64_string};

verus! {

/// State shared by every request handler: the library location, the
/// cached item list, the pairing PIN, and the set of authorized bearer
/// tokens. Pairing moves one way: a token, once minted, stays valid for
/// the life of the process.
pub struct ServerState {
    /// Root directory of the served library, once chosen.
    pub library_path: Option<String>,
    /// In-memory snapshot of the library, replaced wholesale on load.
    pub books: Vec<Book>,
    /// Four-digit pairing PIN, fixed for the life of the process.
    pub pin: String,
    /// Bearer tokens minted by successful PIN checks.
    pub authorized_tokens: Vec<String>,
}

impl ServerState {
    /// True when `t` is one of the minted tokens.
    pub open spec fn has_token(&self, t: Seq<char>) -> bool {
        exists|i: int|
            0 <= i < self.authorized_tokens@.len() && self.authorized_tokens@[i]@ == t
    }

    /// What the bearer check accepts: a header of the shape
    /// `Bearer <token>` whose token has been minted. Everything else,
    /// including a missing header, is rejected uniformly.
    pub open spec fn spec_authorized(&self, h: Option<Seq<char>>) -> bool {
        match h {
            Some(s) => s.len() >= 7 && s.subrange(0, 7) == "Bearer "@ && self.has_token(
                s.skip(7),
            ),
            None => false,
        }
    }

    /// A server that has paired with nobody and not loaded a library.
    pub fn new(pin: String) -> (r: ServerState)
        ensures
            r.library_path is None,
            r.books@.len() == 0,
            r.pin == pin,
            r.authorized_tokens@.len() == 0,
    {
        ServerState {
            library_path: None,
            books: Vec::new(),
            pin,
            authorized_tokens: Vec::new(),
        }
    }

    /// Exchange the pairing PIN for a fresh bearer token. On a match the
    /// token is minted, remembered and returned; on anything else the
    /// state is untouched and no token exists that did not before.
    pub fn check_pin(&mut self, submitted: &str) -> (r: Option<String>)
        ensures
            r is Some <==> submitted@ == old(self).pin@,
            r matches Some(t) ==> final(self).authorized_tokens@ == old(
                self,
            ).authorized_tokens@.push(t) && final(self).has_token(t@) && t@.len() == 36,
            r is None ==> *final(self) == *old(self),
            final(self).pin == old(self).pin,
            final(self).books == old(self).books,
            final(self).library_path == old(self).library_path,
    {
        let sub = submitted.to_owned();
        if sub == self.pin {
            let token = fresh_token();
            let stored = token.clone();
            let ghost toks = self.authorized_tokens@;
            self.authorized_tokens.push(stored);
            proof {
                assert(self.authorized_tokens@ =~= toks.push(token));
                assert(self.authorized_tokens@[toks.len() as int]@ == token@);
                assert(self.has_token(token@));
            }
            Some(token)
        } else {
            None
        }
    }

    /// The bearer check every protected endpoint gates on.
    pub fn is_authorized(&self, auth_header: Option<&str>) -> (r: bool)
        ensures
            r == self.spec_authorized(
                match auth_header {
                    Some(h) => Some(h@),
                    None => None,
                },
            ),
    {
        let h = match auth_header {
            Some(h) => h,
            None => { return false },
        };
        let n = h.unicode_len();
        if n < 7 {
            return false;
        }
        let prefix = h.substring_char(0, 7).to_owned();
        let bearer = "Bearer ".to_owned();
        if !(prefix == bearer) {
            return false;
        }
        let token = h.substring_char(7, n).to_owned();
        let m = self.authorized_tokens.len();
        let mut i: usize = 0;
        while i < m
            invariant
                m == self.authorized_tokens@.len(),
                i <= m,
                auth_header matches Some(ah) && ah@ == h@,
                h@.len() >= 7,
                h@.subrange(0, 7) == "Bearer "@,
                token@ == h@.skip(7),
                forall|j: int| 0 <= j < i ==> self.authorized_tokens@[j]@ != token@,
            decreases m - i,
        {
            if self.authorized_tokens[i] == token {
                proof {
                    assert(self.authorized_tokens@[i as int]@ == h@.skip(7));
                    assert(self.has_token(h@.skip(7)));
                }
                return true;
            }
            i += 1;
        }
        false
    }

    /// The cached item list, verbatim, for an authorized caller with a
    /// loaded library; `Unauthorized` or `Unavailable` otherwise.
    pub fn get_manifest(&self, auth_header: Option<&str>) -> (r: Result<Vec<Book>, AppError>)
        ensures
            ({
                let h = match auth_header {
                    Some(s) => Some(s@),
                    None => None,
                };
                if !self.spec_authorized(h) {
                    r == Result::<Vec<Book>, AppError>::Err(AppError::Unauthorized)
                } else if self.library_path is None {
                    r == Result::<Vec<Book>, AppError>::Err(AppError::Unavailable)
                } else {
                    r matches Ok(v) && v.deep_view() == self.books.deep_view()
                }
            }),
    {
        if !self.is_authorized(auth_header) {
            return Err(AppError::Unauthorized);
        }
        if self.library_path.is_none() {
            return Err(AppError::Unavailable);
        }
        Ok(clone_books(&self.books))
    }

    /// Install the outcome of a library load. A successful load replaces
    /// the path and the cached list wholesale; a failed one changes
    /// nothing, and in particular does not clear the cache.
    pub fn apply_library_load(&mut self, path: String, loaded: Result<Vec<Book>, AppError>) -> (r:
        Result<(), AppError>)
        ensures
            old(self).pin == final(self).pin,
            old(self).authorized_tokens == final(self).authorized_tokens,
            loaded matches Ok(bs) ==> final(self).library_path == Some(path) && final(self).books
                == bs && r is Ok,
            loaded matches Err(e) ==> *final(self) == *old(self) && r == Result::<(
            ), AppError>::Err(e),
    {
        match loaded {
            Ok(bs) => {
                self.library_path = Some(path);
                self.books = bs;
                Ok(())
            },
            Err(e) => Err(e),
        }
    }

    /// Index of the first cached item with this id.
    pub fn find_book(&self, book_id: i64) -> (r: Option<usize>)
        ensures
            match r {
                Some(i) => i < self.books@.len() && self.books@[i as int]@.id == book_id && (
                forall|j: int| 0 <= j < i ==> self.books@[j]@.id != book_id),
                None => forall|j: int|
                    0 <= j < self.books@.len() ==> self.books@[j]@.id != book_id,
            },
    {
        let n = self.books.len();
        let mut i: usize = 0;
        while i < n
            invariant
                n == self.books@.len(),
                i <= n,
                forall|j: int| 0 <= j < i ==> self.books@[j]@.id != book_id,
            decreases n - i,
        {
            if self.books[i].id == book_id {
                return Some(i);
            }
            i += 1;
        }
        None
    }

    /// Decide a cover request up to the filesystem probes: reject the
    /// caller, report the missing library or item, or name the source
    /// cover and its cache file for the caller to probe.
    pub fn plan_cover(&self, auth_header: Option<&str>, book_id: i64, app_data_dir: &str) -> (r:
        CoverPlan)
        ensures
            ({
                let h = match auth_header {
                    Some(s) => Some(s@),
                    None => None,
                };
                if !self.spec_authorized(h) {
                    r matches CoverPlan::Unauthorized
                } else if self.library_path is None {
                    r matches CoverPlan::Unavailable
                } else if (forall|j: int|
                    0 <= j < self.books@.len() ==> self.books@[j]@.id != book_id) {
                    r matches CoverPlan::UnknownBook
                } else {
                    r matches CoverPlan::Probe(cover_path, cache_path) && (exists|i: int|
                        0 <= i < self.books@.len() && self.books@[i]@.id == book_id && (forall|
                            j: int,
                        | 0 <= j < i ==> self.books@[j]@.id != book_id) && cover_path@
                            == self.library_path.unwrap()@ + "/"@ + self.books@[i]@.path
                            + "/cover.jpg"@) && cache_path@ == app_data_dir@ + "/cache/covers/"@
                        + spec_decimal_i64(book_id as int) + ".jpg"@
                }
            }),
    {
        if !self.is_authorized(auth_header) {
            return CoverPlan::Unauthorized;
        }
        let lib = match &self.library_path {
            Some(p) => p,
            None => { return CoverPlan::Unavailable },
        };
        let idx = match self.find_book(book_id) {
            Some(i) => i,
            None => { return CoverPlan::UnknownBook },
        };
        let mut cover_path = lib.clone();
        cover_path.append("/");
        cover_path.append(self.books[idx].path.as_str());
        cover_path.append("/cover.jpg");
        let mut cache_path = app_data_dir.to_owned();
        cache_path.append("/cache/covers/");
        let id_str = i64_string(book_id);
        cache_path.append(id_str.as_str());
        cache_path.append(".jpg");
        CoverPlan::Probe(cover_path, cache_path)
    }

    /// Decide a download request up to the directory scan: reject the
    /// caller, report the missing library or item, or name the item's
    /// directory for the caller to list and the format to look for.
    pub fn plan_download(&self, auth_header: Option<&str>, book_id: i64, format: &str) -> (r:
        DownloadPlan)
        ensures
            ({
                let h = match auth_header {
                    Some(s) => Some(s@),
                    None => None,
                };
                if !self.spec_authorized(h) {
                    r matches DownloadPlan::Unauthorized
                } else if self.library_path is None {
                    r matches DownloadPlan::Unavailable
                } else if (forall|j: int|
                    0 <= j < self.books@.len() ==> self.books@[j]@.id != book_id) {
                    r matches DownloadPlan::UnknownBook
                } else {
                    r matches DownloadPlan::Search(dir_path, requested) && (exists|i: int|
                        0 <= i < self.books@.len() && self.books@[i]@.id == book_id && (forall|
                            j: int,
                        | 0 <= j < i ==> self.books@[j]@.id != book_id) && dir_path@
                            == self.library_path.unwrap()@ + "/"@ + self.books@[i]@.path)
                        && requested@ == format@
                }
            }),
    {
        if !self.is_authorized(auth_header) {
            return DownloadPlan::Unauthorized;
        }
        let lib = match &self.library_path {
            Some(p) => p,
            None => { return DownloadPlan::Unavailable },
        };
        let idx = match self.find_book(book_id) {
            Some(i) => i,
            None => { return DownloadPlan::UnknownBook },
        };
        let mut dir_path = lib.clone();
        dir_path.append("/");
        dir_path.append(self.books[idx].path.as_str());
        DownloadPlan::Search(dir_path, format.to_owned())
    }

    /// Every stored progress record, for an authorized caller.
    pub fn get_progress(&self, auth_header: Option<&str>, store: &ProgressStore) -> (r: Result<
        Vec<ProgressRecord>,
        AppError,
    >)
        ensures
            ({
                let h = match auth_header {
                    Some(s) => Some(s@),
                    None => None,
                };
                if !self.spec_authorized(h) {
                    r == Result::<Vec<ProgressRecord>, AppError>::Err(AppError::Unauthorized)
                } else {
                    r matches Ok(v) && v@ == store@
                }
            }),
    {
        if !self.is_authorized(auth_header) {
            return Err(AppError::Unauthorized);
        }
        Ok(store.read_all())
    }

    /// Merge one progress write, timestamped at receipt, for an
    /// authorized caller; the ledger is untouched otherwise.
    pub fn post_progress(
        &self,
        auth_header: Option<&str>,
        store: &mut ProgressStore,
        book_id: i64,
        status: String,
        timestamp: i64,
    ) -> (r: Result<(), AppError>)
        requires
            old(store).wf(),
        ensures
            final(store).wf(),
            ({
                let h = match auth_header {
                    Some(s) => Some(s@),
                    None => None,
                };
                if !self.spec_authorized(h) {
                    r == Result::<(), AppError>::Err(AppError::Unauthorized) && final(store)@
                        == old(store)@
                } else {
                    r is Ok && final(store)@ == lww_merged(
                        old(store)@,
                        (ProgressRecord { book_id, status, last_updated: timestamp }),
                    )
                }
            }),
    {
        if !self.is_authorized(auth_header) {
            return Err(AppError::Unauthorized);
        }
        store.upsert(book_id, status, timestamp);
        Ok(())
    }

    /// This host's own connection record, PIN included, from the address
    /// and name the caller looked up.
    pub fn get_connection_info(&self, ip: String, hostname: String, port: u16) -> (r:
        ConnectionInfo)
        ensures
            r.ip == ip,
            r.port == port,
            r.hostname == hostname,
            r.pin == Some(self.pin),
    {
        ConnectionInfo { ip, port, hostname, pin: Some(self.pin.clone()) }
    }
}

/// What a cover request comes to before any filesystem work.
pub enum CoverPlan {
    Unauthorized,
    Unavailable,
    UnknownBook,
    /// Probe the source cover (first value); on a hit, consult the
    /// cache file (second value).
    Probe(String, String),
}

/// What to do once the cover and cache files have been probed.
#[derive(Clone, Copy, Debug, PartialEq, Eq, Structural)]
pub enum CoverAction {
    /// The item's directory has no source cover: report it missing and
    /// write nothing.
    NotFound,
    /// Serve the cached thumbnail unconditionally.
    ServeCache,
    /// Resize the source, persist the result to the cache, serve it.
    ResizeAndCache,
}

/// The cover decision from the two probes: a missing source cover is
/// reported missing without touching the cache; an existing cached
/// thumbnail is served as is; otherwise the source is resized and
/// cached.
pub fn cover_action(cover_exists: bool, cache_hit: bool) -> (r: CoverAction)
    ensures
        !cover_exists ==> r == CoverAction::NotFound,
        cover_exists && cache_hit ==> r == CoverAction::ServeCache,
        cover_exists && !cache_hit ==> r == CoverAction::ResizeAndCache,
{
    if !cover_exists {
        CoverAction::NotFound
    } else if cache_hit {
        CoverAction::ServeCache
    } else {
        CoverAction::ResizeAndCache
    }
}

/// What a download request comes to before the directory scan.
pub enum DownloadPlan {
    Unauthorized,
    Unavailable,
    UnknownBook,
    /// List the item's directory (first value) and resolve the
    /// requested format (second value) against its entries.
    Search(String, String),
}

/// The `Content-Disposition` value naming the delivered file.
pub fn attachment_disposition(filename: &str) -> (r: String)
    ensures
        r@ == "attachment; filename=\""@ + filename@ + "\""@,
{
    let mut s = "attachment; filename=\"".to_owned();
    s.append(filename);
    s.append("\"");
    s
}

/// Relies on `uuid::Uuid::new_v4` and its `Display` form: a fresh
/// random identifier rendered as 36 hyphenated hexadecimal characters.
#[verifier::external_body]
fn fresh_token() -> (r: String)
    ensures
        r@.len() == 36,
{
    uuid::Uuid::new_v4().to_string()
}

/// Relies on `rand::random_range`: a uniformly random value inside the
/// given (non-empty) range.
#[verifier::external_body]
fn random_pin_value() -> (r: u32)
    ensures
        1000 <= r < 10000,
{
    rand::random_range(1000u32..10000u32)
}

/// The decimal rendering of anything in [1000, 10000) has four digits.
proof fn lemma_four_digits(n: nat)
    requires
        1000 <= n < 10000,
    ensures
        spec_decimal(n).len() == 4,
{
    reveal_with_fuel(spec_decimal, 5);
}

/// A fresh four-digit pairing PIN.
pub fn generate_pin() -> (r: String)
    ensures
        exists|p: u32| 1000 <= p < 10000 && r@ == spec_decimal(p as nat),
        r@.len() == 4,
{
    let p = random_pin_value();
    let s = u64_string(p as u64);
    proof {
        lemma_four_digits(p as nat);
    }
    s
}

/// Tokens are never revoked: a token in the authorized set stays in it
/// under every later mint, which only appends. Together with
/// `lemma_minted_token_accepted`, a paired client stays paired for the
/// life of the process.
pub proof fn lemma_token_membership_monotonic(pre: ServerState, post: ServerState, t: Seq<char>)
    requires
        pre.has_token(t),
        forall|i: int|
            0 <= i < pre.authorized_tokens@.len() ==> post.authorized_tokens@.len() > i
                && post.authorized_tokens@[i] == pre.authorized_tokens@[i],
    ensures
        post.has_token(t),
{
    let i = choose|i: int|
        0 <= i < pre.authorized_tokens@.len() && pre.authorized_tokens@[i]@ == t;
    assert(post.authorized_tokens@[i]@ == t);
}

/// A token minted into the authorized set is accepted by the bearer
/// check — pairing once suffices for every protected endpoint.
pub proof fn lemma_minted_token_accepted(s: ServerState, t: Seq<char>, h: Seq<char>)
    requires
        s.has_token(t),
        h == "Bearer "@ + t,
    ensures
        s.spec_authorized(Some(h)),
{
    reveal_strlit("Bearer ");
    assert(h.subrange(0, 7) =~= "Bearer "@);
    assert(h.skip(7) =~= t);
}

} // verus!
