//! A stored paste: its metadata, how that metadata is written to and read
//! back from extended attributes, when it expires, who may delete it, and
//! how the cleanup sweep treats it.
use vstd::prelude::*;
use crate::clock::{now, representable_timestamp, timestamp_representable};
use crate::error::PasteError;
use crate::id::{PasteId, PasteIdView, char_from, find_char, lemma_char_from_bounds};
use crate::paths;
use crate::recognize::{Recognizer, is_recognition_failure, recognize};
use crate::text::str_eq;
use crate::util::{expires, expiry_seconds};
use crate::xattr::{
    XATTR_CREATED, XATTR_EXPIRES, XATTR_MIME, XATTR_TOKEN, decode_i64, decode_str, encode_i64,
    encode_str, i64_be, read_i64, read_str_error, read_str_fails, read_str_text,
};
use vstd::utf8::encode_utf8;

verus! {

/// A paste: its id, when it was created and when it expires (seconds since
/// the Unix epoch), the token of its uploader, and its MIME type.
#[derive(Debug, PartialEq)]
pub struct Paste {
    pub id: PasteId,
    pub created: i64,
    pub expires: i64,
    pub token: String,
    pub mime: String,
}

/// The abstract value of a paste.
pub struct PasteView {
    pub id: PasteIdView,
    pub created: i64,
    pub expires: i64,
    pub token: Seq<char>,
    pub mime: Seq<char>,
}

impl View for Paste {
    type V = PasteView;

    open spec fn view(&self) -> PasteView {
        PasteView {
            id: self.id@,
            created: self.created,
            expires: self.expires,
            token: self.token@,
            mime: self.mime@,
        }
    }
}

/// One extended attribute: its name and its raw value.
#[derive(Debug, PartialEq)]
pub struct Attribute {
    pub name: &'static str,
    pub value: Vec<u8>,
}

/// The attribute values stored for a paste, in the order they are written:
/// creation time, expiry time, token, MIME type.
pub open spec fn attribute_values(p: PasteView) -> Seq<Seq<u8>> {
    seq![i64_be(p.created), i64_be(p.expires), encode_utf8(p.token), encode_utf8(p.mime)]
}

/// The paste that reading its four attributes gives, when every read
/// succeeds.
pub open spec fn loaded_view(
    id: PasteIdView,
    created: Result<Option<Vec<u8>>, PasteError>,
    expires: Result<Option<Vec<u8>>, PasteError>,
    token: Result<Option<Vec<u8>>, PasteError>,
    mime: Result<Option<Vec<u8>>, PasteError>,
) -> Option<PasteView> {
    match (read_i64(created, XATTR_CREATED), read_i64(expires, XATTR_EXPIRES)) {
        (Ok(c), Ok(x)) => if !read_str_fails(token) && !read_str_fails(mime) {
            Some(
                PasteView {
                    id: id,
                    created: c,
                    expires: x,
                    token: read_str_text(token),
                    mime: read_str_text(mime),
                },
            )
        } else {
            None
        },
        _ => None,
    }
}

/// Whether a paste that expires at `expires` has expired at the instant
/// `now_secs` seconds and `now_nanos` nanoseconds after the epoch: `Time`
/// when the expiry is outside the calendar's range, otherwise whether the
/// instant lies strictly after the expiry.
pub open spec fn expired_at_spec(expires: i64, now_secs: i64, now_nanos: u32) -> Result<bool, PasteError> {
    if representable_timestamp(expires) {
        Ok(now_secs > expires || (now_secs == expires && now_nanos > 0))
    } else {
        Err(PasteError::Time)
    }
}

/// What the cleanup sweep does with one directory entry.
#[derive(Clone, Copy, Debug, PartialEq, Eq, Structural)]
pub enum CleanupAction {
    /// Remove the entry and go on with the next one.
    Delete,
    /// Keep the entry and go on with the next one.
    Keep,
}

/// The cleanup decision for an entry that loaded as `loaded`: an entry that
/// is not a readable paste is deleted; a paste is deleted when it has
/// expired and kept when it has not.
pub open spec fn cleanup_spec(loaded: Result<PasteView, PasteError>, now_secs: i64, now_nanos: u32) -> Result<CleanupAction, PasteError> {
    match loaded {
        Err(_) => Ok(CleanupAction::Delete),
        Ok(p) => match expired_at_spec(p.expires, now_secs, now_nanos) {
            Err(e) => Err(e),
            Ok(true) => Ok(CleanupAction::Delete),
            Ok(false) => Ok(CleanupAction::Keep),
        },
    }
}

/// How a request for a stored paste is answered.
#[derive(Clone, Copy, Debug, PartialEq, Eq, Structural)]
pub enum Retrieval {
    /// Send the paste's content.
    Serve,
    /// The paste has expired: remove its file and answer `NotFound`.
    Remove,
}

/// The answer to a request for a paste that expires at `expires`, at the
/// given instant: remove it once it has expired, serve it before, and fail
/// as `expired_at_spec` does.
pub open spec fn retrieval_spec(expires: i64, now_secs: i64, now_nanos: u32) -> Result<Retrieval, PasteError> {
    match expired_at_spec(expires, now_secs, now_nanos) {
        Err(e) => Err(e),
        Ok(true) => Ok(Retrieval::Remove),
        Ok(false) => Ok(Retrieval::Serve),
    }
}

/// Whether an upload of `size` bytes has any content: `NoContent` exactly
/// for an empty one.
pub fn require_content(size: u64) -> (r: Result<(), PasteError>)
    ensures
        r is Ok <==> size > 0,
        r is Err ==> r == Err::<(), PasteError>(PasteError::NoContent),
{
    if size == 0 {
        Err(PasteError::NoContent)
    } else {
        Ok(())
    }
}

/// The text before the first `/` of `s`, or all of `s`.
pub open spec fn before_slash(s: Seq<char>) -> Seq<char> {
    s.subrange(0, char_from(s, '/', 0))
}

/// The extension of an upload whose id had extension `id_ext` and whose
/// content was recognised as extension `guess`: kept when nothing was
/// recognised (`???`), otherwise the part of the guess before any `/`.
pub open spec fn upload_ext(id_ext: Option<Seq<char>>, guess: Seq<char>) -> Option<Seq<char>> {
    if guess == "???"@ {
        id_ext
    } else {
        Some(before_slash(guess))
    }
}

/// Whether an upload of `size` bytes created at `created` has an expiry
/// that fits in 64-bit seconds.
pub open spec fn expiry_fits(created: i64, size: nat) -> bool {
    created + expiry_seconds(size) <= i64::MAX
}

/// Whether `p` is the paste made from an upload of `size` bytes with id
/// `id`, created at `created` by the holder of `token`, whose content was
/// recognised as MIME type `mime` and extension guess `ext`.
pub open spec fn content_paste(
    p: PasteView,
    id: PasteIdView,
    size: nat,
    created: i64,
    token: Seq<char>,
    mime: Seq<char>,
    ext: Seq<char>,
) -> bool {
    &&& p.id.id == id.id
    &&& p.id.ext == upload_ext(id.ext, ext)
    &&& p.created == created
    &&& p.expires == created + expiry_seconds(size)
    &&& p.token == token
    &&& p.mime == mime
}

impl Paste {
    /// Where the paste's file lives below `root`.
    pub fn path(&self, root: &[u8]) -> (r: Vec<u8>)
        ensures
            r@ == paths::join_path(root@, encode_utf8(self.id.id@)),
    {
        self.id.path(root)
    }

    /// The attributes that record the paste on its file.
    pub fn attributes(&self) -> (r: Vec<Attribute>)
        ensures
            r@.len() == 4,
            r@[0].name == XATTR_CREATED,
            r@[1].name == XATTR_EXPIRES,
            r@[2].name == XATTR_TOKEN,
            r@[3].name == XATTR_MIME,
            forall|i: int| 0 <= i < 4 ==> #[trigger] r@[i].value@ == attribute_values(self@)[i],
            r@[0].value@ == i64_be(self.created),
            r@[1].value@ == i64_be(self.expires),
            r@[2].value@ == encode_utf8(self.token@),
            r@[3].value@ == encode_utf8(self.mime@),
    {
        let mut r: Vec<Attribute> = Vec::new();
        r.push(Attribute { name: XATTR_CREATED, value: encode_i64(self.created) });
        r.push(Attribute { name: XATTR_EXPIRES, value: encode_i64(self.expires) });
        r.push(Attribute { name: XATTR_TOKEN, value: encode_str(self.token.as_str()) });
        r.push(Attribute { name: XATTR_MIME, value: encode_str(self.mime.as_str()) });
        r
    }

    /// Rebuilds a paste from what reading its four attributes gave. The
    /// attributes are taken in the order creation time, expiry time, token,
    /// MIME type, and the first that fails decides the error.
    pub fn from_attributes(
        id: PasteId,
        created: Result<Option<Vec<u8>>, PasteError>,
        expires: Result<Option<Vec<u8>>, PasteError>,
        token: Result<Option<Vec<u8>>, PasteError>,
        mime: Result<Option<Vec<u8>>, PasteError>,
    ) -> (r: Result<Paste, PasteError>)
        ensures
            r is Ok <==> loaded_view(id@, created, expires, token, mime) is Some,
            r matches Ok(p) ==> Some(p@) == loaded_view(id@, created, expires, token, mime),
            r matches Ok(p) ==> {
                &&& p@.id == id@
                &&& read_i64(created, XATTR_CREATED) == Ok::<i64, PasteError>(p.created)
                &&& read_i64(expires, XATTR_EXPIRES) == Ok::<i64, PasteError>(p.expires)
                &&& p.token@ == read_str_text(token)
                &&& p.mime@ == read_str_text(mime)
            },
            read_i64(created, XATTR_CREATED) matches Err(e) ==> r == Err::<Paste, PasteError>(e),
            read_i64(created, XATTR_CREATED) is Ok && read_i64(expires, XATTR_EXPIRES) is Err
                ==> r == Err::<Paste, PasteError>(read_i64(expires, XATTR_EXPIRES)->Err_0),
            read_i64(created, XATTR_CREATED) is Ok && read_i64(expires, XATTR_EXPIRES) is Ok
                && read_str_fails(token) ==> (r matches Err(e) && read_str_error(token, XATTR_TOKEN, e)),
            read_i64(created, XATTR_CREATED) is Ok && read_i64(expires, XATTR_EXPIRES) is Ok
                && !read_str_fails(token) && read_str_fails(mime) ==> (r matches Err(e)
                && read_str_error(mime, XATTR_MIME, e)),
    {
        let ghost (c0, x0, t0, m0) = (created, expires, token, mime);
        let created = match decode_i64(created, XATTR_CREATED) {
            Ok(v) => v,
            Err(e) => return Err(e),
        };
        let expires = match decode_i64(expires, XATTR_EXPIRES) {
            Ok(v) => v,
            Err(e) => return Err(e),
        };
        let token = match decode_str(token, XATTR_TOKEN) {
            Ok(v) => v,
            Err(e) => return Err(e),
        };
        let mime = match decode_str(mime, XATTR_MIME) {
            Ok(v) => v,
            Err(e) => return Err(e),
        };
        let p = Paste { id, created, expires, token, mime };
        assert(Some(p@) == loaded_view(p.id@, c0, x0, t0, m0));
        Ok(p)
    }

    /// Whether the paste has expired at the given instant (see
    /// `expired_at_spec`).
    pub fn expired_at(&self, now_secs: i64, now_nanos: u32) -> (r: Result<bool, PasteError>)
        ensures
            r == expired_at_spec(self.expires, now_secs, now_nanos),
    {
        if !timestamp_representable(self.expires) {
            return Err(PasteError::Time);
        }
        Ok(now_secs > self.expires || (now_secs == self.expires && now_nanos > 0))
    }

    /// Whether the paste has expired now. `Time` when its expiry lies
    /// outside the calendar's range or when the clock cannot be read;
    /// otherwise the answer `expired_at` gives at the instant read, which
    /// lies at or after the epoch.
    pub fn expired(&self) -> (r: Result<bool, PasteError>)
        ensures
            !representable_timestamp(self.expires) ==> r == Err::<bool, PasteError>(PasteError::Time),
            r is Err ==> r == Err::<bool, PasteError>(PasteError::Time),
            r is Ok ==> exists|s: i64, n: u32|
                s >= 0 && n < 1_000_000_000 && r == #[trigger] expired_at_spec(self.expires, s, n),
    {
        match now() {
            Some((secs, nanos)) => {
                let r = self.expired_at(secs, nanos);
                assert(r == expired_at_spec(self.expires, secs, nanos));
                r
            },
            None => Err(PasteError::Time),
        }
    }

    /// The answer to a request for the paste at the given instant (see
    /// `retrieval_spec`).
    pub fn retrieval_at(&self, now_secs: i64, now_nanos: u32) -> (r: Result<Retrieval, PasteError>)
        ensures
            r == retrieval_spec(self.expires, now_secs, now_nanos),
    {
        match self.expired_at(now_secs, now_nanos) {
            Err(e) => Err(e),
            Ok(true) => Ok(Retrieval::Remove),
            Ok(false) => Ok(Retrieval::Serve),
        }
    }

    /// The answer to a request for the paste now. `Time` when its expiry lies
    /// outside the calendar's range or when the clock cannot be read;
    /// otherwise the answer `retrieval_at` gives at the instant read, which
    /// lies at or after the epoch.
    pub fn retrieval(&self) -> (r: Result<Retrieval, PasteError>)
        ensures
            !representable_timestamp(self.expires) ==> r == Err::<Retrieval, PasteError>(PasteError::Time),
            r is Err ==> r == Err::<Retrieval, PasteError>(PasteError::Time),
            r is Ok ==> exists|s: i64, n: u32|
                s >= 0 && n < 1_000_000_000 && r == #[trigger] retrieval_spec(self.expires, s, n),
    {
        match now() {
            Some((secs, nanos)) => {
                let r = self.retrieval_at(secs, nanos);
                assert(r == retrieval_spec(self.expires, secs, nanos));
                r
            },
            None => Err(PasteError::Time),
        }
    }

    /// Whether the paste may be deleted by a request that carries `token`:
    /// a request without a token (the service's own) or with the uploader's
    /// token may; any other is refused with `Unauthorized`.
    pub fn authorize_delete(&self, token: Option<&str>) -> (r: Result<(), PasteError>)
        ensures
            r is Ok <==> (token is None || token->0@ == self.token@),
            r is Err ==> r == Err::<(), PasteError>(PasteError::Unauthorized),
    {
        match token {
            None => Ok(()),
            Some(t) => {
                if str_eq(t, self.token.as_str()) {
                    Ok(())
                } else {
                    Err(PasteError::Unauthorized)
                }
            },
        }
    }

    /// The paste made from an upload of `size` bytes created at `created`,
    /// given the uploader's token and what recognising the content gave as
    /// MIME type and as extension: `NoContent` for an empty upload, `Time`
    /// when the expiry would not fit in 64-bit seconds, then the recognition
    /// errors in that order, otherwise a paste that expires
    /// `expiry_seconds(size)` after its creation and whose extension follows
    /// `upload_ext` (see `content_paste`).
    pub fn from_content_at(
        id: PasteId,
        size: u64,
        created: i64,
        token: &str,
        mime: Result<String, PasteError>,
        ext: Result<String, PasteError>,
    ) -> (r: Result<Paste, PasteError>)
        ensures
            size == 0 ==> r == Err::<Paste, PasteError>(PasteError::NoContent),
            size > 0 && !expiry_fits(created, size as nat) ==> r == Err::<Paste, PasteError>(
                PasteError::Time),
            size > 0 && expiry_fits(created, size as nat) && mime is Err ==> r == Err::<
                Paste,
                PasteError,
            >(mime->Err_0),
            size > 0 && expiry_fits(created, size as nat) && mime is Ok && ext is Err ==> r
                == Err::<Paste, PasteError>(ext->Err_0),
            r is Ok <==> size > 0 && expiry_fits(created, size as nat) && mime is Ok && ext is Ok,
            r matches Ok(p) ==> content_paste(
                p@,
                id@,
                size as nat,
                created,
                token@,
                mime->Ok_0@,
                ext->Ok_0@,
            ),
    {
        if size == 0 {
            return Err(PasteError::NoContent);
        }
        let lifetime = expires(size);
        if created > i64::MAX - lifetime {
            return Err(PasteError::Time);
        }
        let expires_at = created + lifetime;
        let mime = match mime {
            Ok(m) => m,
            Err(e) => return Err(e),
        };
        let guess = match ext {
            Ok(g) => g,
            Err(e) => return Err(e),
        };
        let mut id = id;
        let unknown = "???";
        if !str_eq(guess.as_str(), unknown) {
            let g = guess.as_str();
            let slash = find_char(g, '/', 0);
            proof {
                lemma_char_from_bounds(g@, '/', 0);
            }
            id.ext = Some(g.substring_char(0, slash).to_owned());
        }
        Ok(Paste { id, created, expires: expires_at, token: token.to_owned(), mime })
    }

    /// The paste made from an upload of `size` bytes whose first bytes are
    /// `head`, created now: `NoContent` for an empty upload; `Time` when the
    /// clock cannot be read or is so far from the epoch that the expiry does
    /// not fit; then the content is recognised with `mime_db` and, if that
    /// succeeded, with `ext_db`, and a failure of either is returned. A paste
    /// made is `content_paste` of the current time, its MIME type and some
    /// extension guess.
    pub fn from_handle(
        id: PasteId,
        size: u64,
        head: &[u8],
        token: &str,
        mime_db: &Recognizer,
        ext_db: &Recognizer,
    ) -> (r: Result<Paste, PasteError>)
        ensures
            size == 0 ==> r == Err::<Paste, PasteError>(PasteError::NoContent),
            r matches Err(e) ==> size == 0 || e == PasteError::Time || is_recognition_failure(e),
            r matches Ok(p) ==> {
                &&& size > 0
                &&& p.created >= 0
                &&& exists|ext: Seq<char>|
                    content_paste(p@, id@, size as nat, p.created, token@, p.mime@, ext)
            },
    {
        if size == 0 {
            return Err(PasteError::NoContent);
        }
        let created = match now() {
            Some((secs, _)) => secs,
            None => return Err(PasteError::Time),
        };
        let lifetime = expires(size);
        if created > i64::MAX - lifetime {
            return Err(PasteError::Time);
        }
        let mime = match recognize(mime_db, head) {
            Ok(m) => m,
            Err(e) => return Err(e),
        };
        let ext = match recognize(ext_db, head) {
            Ok(g) => g,
            Err(e) => return Err(e),
        };
        let ghost guess = ext@;
        let r = Self::from_content_at(id, size, created, token, Ok(mime), Ok(ext));
        assert(r matches Ok(p) ==> content_paste(p@, id@, size as nat, p.created, token@, p.mime@, guess));
        r
    }
}

/// The cleanup decision for one directory entry, at the given instant (see
/// `cleanup_spec`).
pub fn cleanup_action_at(loaded: &Result<Paste, PasteError>, now_secs: i64, now_nanos: u32) -> (r: Result<CleanupAction, PasteError>)
    ensures
        r == cleanup_spec(
            match loaded {
                Ok(p) => Ok(p@),
                Err(e) => Err(*e),
            },
            now_secs,
            now_nanos,
        ),
{
    match loaded {
        Err(_) => Ok(CleanupAction::Delete),
        Ok(p) => match p.expired_at(now_secs, now_nanos) {
            Err(e) => Err(e),
            Ok(true) => Ok(CleanupAction::Delete),
            Ok(false) => Ok(CleanupAction::Keep),
        },
    }
}

/// The cleanup decision for one directory entry, now. An entry that did
/// not load is deleted without reading the clock; for a paste whose expiry
/// lies outside the calendar's range, or when the clock cannot be read, the
/// sweep fails with `Time`; otherwise the decision `cleanup_action_at` makes
/// at the instant read, which lies at or after the epoch.
pub fn cleanup_action(loaded: &Result<Paste, PasteError>) -> (r: Result<CleanupAction, PasteError>)
    ensures
        loaded is Err ==> r == Ok::<CleanupAction, PasteError>(CleanupAction::Delete),
        loaded matches Ok(p) && !representable_timestamp(p.expires) ==> r == Err::<
            CleanupAction,
            PasteError,
        >(PasteError::Time),
        r is Err ==> r == Err::<CleanupAction, PasteError>(PasteError::Time),
        loaded is Ok && r is Ok ==> exists|s: i64, n: u32|
            s >= 0 && n < 1_000_000_000 && r == #[trigger] cleanup_spec(Ok(loaded->Ok_0@), s, n),
{
    match loaded {
        Err(_) => Ok(CleanupAction::Delete),
        Ok(p) => match now() {
            Some((secs, nanos)) => {
                let r = cleanup_action_at(loaded, secs, nanos);
                assert(r == cleanup_spec(Ok(p@), secs, nanos));
                r
            },
            None => Err(PasteError::Time),
        },
    }
}

} // verus!

verus! {

/// What is written is what is read: when the four attributes read back are
/// exactly the values written for a paste, rebuilding the paste from them
/// gives that paste again (for the same id).
pub proof fn law_write_then_load(
    p: PasteView,
    created: Vec<u8>,
    expires: Vec<u8>,
    token: Vec<u8>,
    mime: Vec<u8>,
)
    requires
        created@ == attribute_values(p)[0],
        expires@ == attribute_values(p)[1],
        token@ == attribute_values(p)[2],
        mime@ == attribute_values(p)[3],
    ensures
        loaded_view(p.id, Ok(Some(created)), Ok(Some(expires)), Ok(Some(token)), Ok(Some(mime)))
            == Some(p),
{
    crate::xattr::lemma_i64_round_trip(p.created);
    crate::xattr::lemma_i64_round_trip(p.expires);
    crate::xattr::lemma_str_round_trip(p.token);
    crate::xattr::lemma_str_round_trip(p.mime);
}

/// Reading attributes that hold the big-endian bytes of `c` under the
/// creation-time name, those of `x` under the expiry name, and UTF-8 text
/// under the token and MIME names gives a paste created at `c` that expires
/// at `x`, with that token and MIME type: each field comes from the
/// attribute of its own name.
pub proof fn law_load_reads_each_attribute(
    id: PasteIdView,
    c: i64,
    x: i64,
    token_text: Seq<char>,
    mime_text: Seq<char>,
    created: Vec<u8>,
    expires: Vec<u8>,
    token: Vec<u8>,
    mime: Vec<u8>,
)
    requires
        created@ == i64_be(c),
        expires@ == i64_be(x),
        token@ == encode_utf8(token_text),
        mime@ == encode_utf8(mime_text),
    ensures
        loaded_view(id, Ok(Some(created)), Ok(Some(expires)), Ok(Some(token)), Ok(Some(mime)))
            == Some(PasteView { id, created: c, expires: x, token: token_text, mime: mime_text }),
{
    crate::xattr::lemma_i64_round_trip(c);
    crate::xattr::lemma_i64_round_trip(x);
    crate::xattr::lemma_str_round_trip(token_text);
    crate::xattr::lemma_str_round_trip(mime_text);
}

/// Expiry is permanent: a paste that has expired at some instant has also
/// expired at every later instant, and one that has not expired at some
/// instant had not expired at any earlier one.
pub proof fn law_expiry_is_permanent(expires: i64, s1: i64, n1: u32, s2: i64, n2: u32)
    requires
        n1 < 1_000_000_000,
        n2 < 1_000_000_000,
        s1 < s2 || (s1 == s2 && n1 <= n2),
    ensures
        expired_at_spec(expires, s1, n1) == Ok::<bool, PasteError>(true) ==> expired_at_spec(
            expires,
            s2,
            n2,
        ) == Ok::<bool, PasteError>(true),
        expired_at_spec(expires, s2, n2) == Ok::<bool, PasteError>(false) ==> expired_at_spec(
            expires,
            s1,
            n1,
        ) == Ok::<bool, PasteError>(false),
{
}

/// A paste with a representable expiry has expired exactly at the instants
/// that lie strictly after its expiry, counted in nanoseconds since the
/// epoch.
pub proof fn law_expired_exactly_after_expiry(expires: i64, s: i64, n: u32)
    requires
        representable_timestamp(expires),
        n < 1_000_000_000,
    ensures
        expired_at_spec(expires, s, n) is Ok,
        expired_at_spec(expires, s, n) == Ok::<bool, PasteError>(true) <==> (s as int) * 1_000_000_000
            + n > (expires as int) * 1_000_000_000,
{
    assert((s as int) * 1_000_000_000 + n > (expires as int) * 1_000_000_000 <==> (s > expires || (s
        == expires && n > 0))) by (nonlinear_arith)
        requires
            n < 1_000_000_000,
    ;
}

} // verus!
